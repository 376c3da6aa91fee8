//! The confirmed merge: in whatever order the directories are read, the
//! source ends up holding both trees.

use vstd::prelude::*;
use crate::engine::{on_confirm, on_walk_moved, EngineModel, PhaseModel};
use crate::history::recorded;
use crate::link::kind_for;
use crate::merge::{proceed_from, FrameModel, WalkModel, WalkStepModel};
use crate::outcome::{success_text, OutcomeModel, RequestModel};
use crate::protocol::{EntryModel, LocationModel, StepModel};
use crate::world::{at, child_of, drive, lemma_drive_twice, top, Node, Run, World};

verus! {

/// Whether the tree below `root` is a directory that holds files and
/// directories only, each inside a directory, none more than `depth` names
/// below the root.
pub open spec fn plain_tree(world: World, root: Seq<char>, depth: nat) -> bool {
    &&& world.has_dir(top(root))
    &&& forall|path: Seq<Seq<char>>| #[trigger]
        world.has(at(root, path)) ==> {
            &&& path.len() <= depth
            &&& !(world.nodes[at(root, path)] is Link)
            &&& path.len() > 0 ==> world.has_dir(at(root, path.drop_last()))
        }
}

/// Whether an entry of that name is among the entries.
pub open spec fn listed(entries: Seq<EntryModel>, name: Seq<char>) -> bool {
    exists|i: int| 0 <= i < entries.len() && (#[trigger] entries[i]).name == name
}

/// Whether `entries` are the entries of the directory: each of them lies in
/// it and is marked as what it is, and nothing that lies in it is left out.
/// The entries may come in any order.
pub open spec fn lists(world: World, dir: LocationModel, entries: Seq<EntryModel>) -> bool {
    &&& forall|i: int|
        0 <= i < entries.len() ==> {
            let child = child_of(dir, (#[trigger] entries[i]).name);
            world.has(child) && (entries[i].is_dir <==> world.nodes[child] is Dir)
        }
    &&& forall|name: Seq<char>| #[trigger]
        world.has(child_of(dir, name)) ==> listed(entries, name)
}

/// Whether `listing` reads every directory of the tree below `root` as the
/// world has it.
pub open spec fn faithful(
    world: World,
    root: Seq<char>,
    listing: spec_fn(LocationModel) -> Seq<EntryModel>,
) -> bool {
    forall|path: Seq<Seq<char>>| #[trigger]
        world.has_dir(at(root, path)) ==> lists(world, at(root, path), listing(at(root, path)))
}

/// Whether the tree below `from` can be laid over the tree below `to`:
/// where both hold something at the same place, both hold a directory or
/// both hold a file.
pub open spec fn compatible(world: World, from: Seq<char>, to: Seq<char>) -> bool {
    forall|path: Seq<Seq<char>>|
        #![trigger world.has(at(from, path))]
        world.has(at(from, path)) && world.has(at(to, path)) ==> {
            let read = world.nodes[at(from, path)];
            let kept = world.nodes[at(to, path)];
            (read is Dir && kept is Dir) || (read is File && kept is File)
        }
}

/// The world in which the tree below `to` holds, at each place of `done`,
/// what the tree below `from` holds there.
pub open spec fn overlay(
    world: World,
    from: Seq<char>,
    to: Seq<char>,
    done: Set<Seq<Seq<char>>>,
) -> World {
    World {
        nodes: Map::new(
            |place: LocationModel|
                world.has(place) || (place.root == to && done.contains(place.relative)),
            |place: LocationModel|
                if place.root == to && done.contains(place.relative) {
                    world.nodes[at(from, place.relative)]
                } else {
                    world.nodes[place]
                },
        ),
        grounded: world.grounded,
    }
}

/// The places of the tree below `root`.
pub open spec fn places(world: World, root: Seq<char>) -> Set<Seq<Seq<char>>> {
    Set::new(|path: Seq<Seq<char>>| world.has(at(root, path)))
}

/// The world after the tree below `destination` was merged into the tree
/// below `source` and replaced by a link to it: the source holds what the
/// destination held wherever the destination held anything, and what it held
/// itself everywhere else.
pub open spec fn merged_world(world: World, request: RequestModel) -> World {
    overlay(
        world,
        request.destination,
        request.source,
        places(world, request.destination),
    ).without_tree(request.destination).with_parent(request.destination).with_node(
        top(request.destination),
        Node::Link { kind: kind_for(request.requested, true), target: request.source },
    )
}

spec fn below(world: World, from: Seq<char>, prefix: Seq<Seq<char>>) -> Set<Seq<Seq<char>>> {
    Set::new(|path: Seq<Seq<char>>| prefix.is_prefix_of(path) && world.has(at(from, path)))
}

spec fn below_entries(
    world: World,
    from: Seq<char>,
    dir: Seq<Seq<char>>,
    entries: Seq<EntryModel>,
    start: int,
) -> Set<Seq<Seq<char>>> {
    Set::new(
        |path: Seq<Seq<char>>|
            exists|i: int|
                start <= i < entries.len() && below(
                    world,
                    from,
                    dir.push((#[trigger] entries[i]).name),
                ).contains(path),
    )
}

spec fn walking(
    history: Seq<(Seq<char>, Seq<char>)>,
    request: RequestModel,
    moved: (WalkModel, WalkStepModel),
    world: World,
) -> Run {
    let next = on_walk_moved(EngineModel { phase: PhaseModel::Idle, history }, request, moved);
    Run { engine: next.0, world, step: next.1 }
}

proof fn lemma_prefix_exists(
    world: World,
    root: Seq<char>,
    depth: nat,
    path: Seq<Seq<char>>,
    cut: int,
)
    requires
        plain_tree(world, root, depth),
        world.has(at(root, path)),
        0 <= cut <= path.len(),
    ensures
        world.has(at(root, path.take(cut))),
        cut < path.len() ==> world.has_dir(at(root, path.take(cut))),
    decreases path.len() - cut,
{
    if cut == path.len() {
        assert(path.take(cut) =~= path);
    } else {
        lemma_prefix_exists(world, root, depth, path, cut + 1);
        assert(path.take(cut + 1).drop_last() =~= path.take(cut));
    }
}

proof fn lemma_below_dir(
    world: World,
    from: Seq<char>,
    depth: nat,
    dir: Seq<Seq<char>>,
    entries: Seq<EntryModel>,
)
    requires
        plain_tree(world, from, depth),
        world.has(at(from, dir)),
        lists(world, at(from, dir), entries),
    ensures
        below(world, from, dir) == below_entries(world, from, dir, entries, 0).insert(dir),
{
    let left = below(world, from, dir);
    let right = below_entries(world, from, dir, entries, 0).insert(dir);
    assert forall|path: Seq<Seq<char>>| left.contains(path) implies right.contains(path) by {
        if path != dir {
            assert(path.len() > dir.len()) by {
                if path.len() == dir.len() {
                    assert(path =~= dir);
                }
            }
            let name = path[dir.len() as int];
            let child = dir.push(name);
            assert(path.take(dir.len() as int + 1) =~= child);
            lemma_prefix_exists(world, from, depth, path, dir.len() as int + 1);
            assert(world.has(child_of(at(from, dir), name)));
            assert(listed(entries, name));
        }
    }
    assert forall|path: Seq<Seq<char>>| right.contains(path) implies left.contains(path) by {
        if path != dir {
            let i = choose|i: int|
                0 <= i < entries.len() && below(
                    world,
                    from,
                    dir.push((#[trigger] entries[i]).name),
                ).contains(path);
            assert(dir.is_prefix_of(dir.push(entries[i].name)));
        }
    }
}

proof fn lemma_below_file(world: World, from: Seq<char>, depth: nat, file: Seq<Seq<char>>)
    requires
        plain_tree(world, from, depth),
        world.has(at(from, file)),
        !(world.nodes[at(from, file)] is Dir),
    ensures
        below(world, from, file) == Set::<Seq<Seq<char>>>::empty().insert(file),
{
    let left = below(world, from, file);
    let right = Set::<Seq<Seq<char>>>::empty().insert(file);
    assert forall|path: Seq<Seq<char>>| left.contains(path) implies right.contains(path) by {
        if path != file {
            assert(path.len() > file.len()) by {
                if path.len() == file.len() {
                    assert(path =~= file);
                }
            }
            lemma_prefix_exists(world, from, depth, path, file.len() as int);
        }
    }
}

proof fn lemma_entries_split(
    world: World,
    from: Seq<char>,
    dir: Seq<Seq<char>>,
    entries: Seq<EntryModel>,
    start: int,
)
    requires
        0 <= start < entries.len(),
    ensures
        below_entries(world, from, dir, entries, start) == below(
            world,
            from,
            dir.push(entries[start].name),
        ).union(below_entries(world, from, dir, entries, start as int + 1)),
{
    let whole = below_entries(world, from, dir, entries, start);
    let head = below(world, from, dir.push(entries[start].name));
    let tail = below_entries(world, from, dir, entries, start + 1);
    assert forall|path: Seq<Seq<char>>| whole.contains(path) implies head.union(tail).contains(
        path,
    ) by {
        let i = choose|i: int|
            start <= i < entries.len() && below(
                world,
                from,
                dir.push((#[trigger] entries[i]).name),
            ).contains(path);
        assert(i == start || start + 1 <= i);
    }
    assert forall|path: Seq<Seq<char>>| head.union(tail).contains(path) implies whole.contains(
        path,
    ) by {
        if !head.contains(path) {
            let i = choose|i: int|
                start + 1 <= i < entries.len() && below(
                    world,
                    from,
                    dir.push((#[trigger] entries[i]).name),
                ).contains(path);
            assert(start <= i);
        }
    }
}

proof fn lemma_entries_merged(
    history: Seq<(Seq<char>, Seq<char>)>,
    request: RequestModel,
    world: World,
    listing: spec_fn(LocationModel) -> Seq<EntryModel>,
    depth: nat,
    frames: Seq<FrameModel>,
    dir: Seq<Seq<char>>,
    entries: Seq<EntryModel>,
    start: nat,
    done: Set<Seq<Seq<char>>>,
) -> (fuel: nat)
    requires
        request.source != request.destination,
        plain_tree(world, request.destination, depth),
        faithful(world, request.destination, listing),
        compatible(world, request.destination, request.source),
        world.has_dir(at(request.destination, dir)),
        lists(world, at(request.destination, dir), entries),
        start <= entries.len(),
        forall|path: Seq<Seq<char>>|
            done.contains(path) ==> #[trigger] world.has(at(request.destination, path)),
        forall|cut: int| 0 <= cut <= dir.len() ==> done.contains(#[trigger] dir.take(cut)),
    ensures
        drive(
            walking(
                history,
                request,
                proceed_from(
                    request.destination,
                    request.source,
                    frames.push(FrameModel { dir, entries, next: start }),
                ),
                overlay(world, request.destination, request.source, done),
            ),
            listing,
            fuel,
        ) == walking(
            history,
            request,
            proceed_from(request.destination, request.source, frames),
            overlay(
                world,
                request.destination,
                request.source,
                done.union(
                    below_entries(world, request.destination, dir, entries, start as int),
                ),
            ),
        ),
    decreases depth - dir.len(), entries.len() - start,
{
    let from = request.destination;
    let to = request.source;
    let stack = frames.push(FrameModel { dir, entries, next: start });
    let now = overlay(world, from, to, done);
    let begin = walking(history, request, proceed_from(from, to, stack), now);
    assert(stack.drop_last() =~= frames);
    if start == entries.len() {
        assert(done.union(below_entries(world, from, dir, entries, start as int)) =~= done);
        0
    } else {
        let entry = entries[start as int];
        let child = dir.push(entry.name);
        let rest = frames.push(FrameModel { dir, entries, next: start + 1 });
        let grown = done.insert(child);
        assert forall|cut: int| 0 <= cut <= dir.len() implies now.has_dir(
            at(to, #[trigger] dir.take(cut)),
        ) by {
            lemma_prefix_exists(world, from, depth, child, cut);
            assert(child.take(cut) =~= dir.take(cut));
        }
        assert(dir.take(dir.len() as int) =~= dir);
        lemma_entries_split(world, from, dir, entries, start as int);
        if entry.is_dir {
            assert(now.can_create_dir(at(to, child))) by {
                assert forall|cut: int| 0 <= cut <= child.len() implies #[trigger] now.free_or_dir(
                    at(to, child.take(cut)),
                ) by {
                    if cut == child.len() {
                        assert(child.take(cut) =~= child);
                    } else {
                        assert(child.take(cut) =~= dir.take(cut));
                    }
                }
            }
            let made = now.with_dirs(at(to, child));
            assert(world.has_dir(at(from, child)));
            assert(made.nodes =~= overlay(world, from, to, grown).nodes) by {
                assert forall|place: LocationModel|
                    place.root == to && place.relative.is_prefix_of(
                        child,
                    ) implies #[trigger] overlay(world, from, to, grown).nodes.contains_key(place)
                    && overlay(world, from, to, grown).nodes[place] is Dir by {
                    if place.relative.len() == child.len() {
                        assert(place.relative =~= child);
                    } else {
                        assert(place.relative =~= dir.take(place.relative.len() as int));
                    }
                }
            }
            let inner = listing(at(from, child));
            let opened = rest.push(FrameModel { dir: child, entries: inner, next: 0 });
            let entered = walking(history, request, proceed_from(from, to, opened), made);
            assert(drive(begin, listing, 2) == entered) by {
                reveal_with_fuel(drive, 3);
            }
            assert forall|cut: int| 0 <= cut <= child.len() implies grown.contains(
                #[trigger] child.take(cut),
            ) by {
                if cut == child.len() {
                    assert(child.take(cut) =~= child);
                } else {
                    assert(child.take(cut) =~= dir.take(cut));
                }
            }
            let inside = lemma_entries_merged(
                history,
                request,
                world,
                listing,
                depth,
                rest,
                child,
                inner,
                0,
                grown,
            );
            let filled = grown.union(below_entries(world, from, child, inner, 0));
            assert forall|cut: int| 0 <= cut <= dir.len() implies filled.contains(
                #[trigger] dir.take(cut),
            ) by {}
            let after = lemma_entries_merged(
                history,
                request,
                world,
                listing,
                depth,
                frames,
                dir,
                entries,
                start + 1,
                filled,
            );
            lemma_below_dir(world, from, depth, child, inner);
            assert(filled.union(below_entries(world, from, dir, entries, start as int + 1)) =~= done.union(
                below_entries(world, from, dir, entries, start as int),
            ));
            lemma_drive_twice(begin, listing, 2, inside);
            lemma_drive_twice(begin, listing, 2 + inside, after);
            2 + inside + after
        } else {
            assert(now.can_copy(at(from, child), at(to, child))) by {
                assert(at(to, child).relative.drop_last() =~= dir);
            }
            let copied = now.with_node(at(to, child), now.nodes[at(from, child)]);
            assert(copied.nodes =~= overlay(world, from, to, grown).nodes);
            let moved = walking(history, request, proceed_from(from, to, rest), copied);
            assert(drive(begin, listing, 1) == moved) by {
                reveal_with_fuel(drive, 2);
            }
            assert forall|cut: int| 0 <= cut <= dir.len() implies grown.contains(
                #[trigger] dir.take(cut),
            ) by {}
            let after = lemma_entries_merged(
                history,
                request,
                world,
                listing,
                depth,
                frames,
                dir,
                entries,
                start + 1,
                grown,
            );
            lemma_below_file(world, from, depth, child);
            assert(grown.union(below_entries(world, from, dir, entries, start as int + 1)) =~= done.union(
                below_entries(world, from, dir, entries, start as int),
            ));
            lemma_drive_twice(begin, listing, 1, after);
            1 + after
        }
    }
}

/// The run that a confirmed merge starts.
pub open spec fn confirmed_run(engine: EngineModel, world: World) -> Run {
    let begun = on_confirm(engine, true)->0;
    Run { engine: begun.0, world, step: begun.1 }
}

/// A merge that is confirmed ends in success where the source is a
/// directory, the destination is a tree of files and directories that can be
/// laid over it, and the two are different roots. In whatever order the
/// directories are read, after `fuel` filesystem requests the source holds
/// both trees, the destination's content wherever both held a file; the
/// destination is a link to the source; and the link is recorded as the
/// latest.
pub proof fn theorem_confirmed_merge_unites(
    engine: EngineModel,
    world: World,
    listing: spec_fn(LocationModel) -> Seq<EntryModel>,
    request: RequestModel,
    depth: nat,
) -> (fuel: nat)
    requires
        engine.phase == (PhaseModel::ConfirmationPending { request }),
        request.source != request.destination,
        world.has_dir(top(request.source)),
        plain_tree(world, request.destination, depth),
        faithful(world, request.destination, listing),
        compatible(world, request.destination, request.source),
    ensures
        ({
            let end = drive(confirmed_run(engine, world), listing, fuel);
            &&& end.step == StepModel::Finished(OutcomeModel::Success(success_text(true)))
            &&& end.world == merged_world(world, request)
            &&& end.engine.phase is Idle
            &&& end.engine.history == recorded(
                engine.history,
                (request.source, request.destination),
            )
        }),
{
    let from = request.destination;
    let to = request.source;
    let history = engine.history;
    let nothing = Seq::<Seq<char>>::empty();
    let begin = confirmed_run(engine, world);
    let entries = listing(top(from));
    let done = Set::<Seq<Seq<char>>>::empty().insert(nothing);
    let first = Seq::<FrameModel>::empty().push(
        FrameModel { dir: nothing, entries, next: 0 },
    );
    assert(overlay(world, from, to, done).nodes =~= world.nodes);
    let entered = walking(history, request, proceed_from(from, to, first), world);
    assert(drive(begin, listing, 1) == entered) by {
        reveal_with_fuel(drive, 2);
    }
    assert forall|cut: int| 0 <= cut <= nothing.len() implies done.contains(
        #[trigger] nothing.take(cut),
    ) by {
        assert(nothing.take(cut) =~= nothing);
    }
    let inside = lemma_entries_merged(
        history,
        request,
        world,
        listing,
        depth,
        Seq::empty(),
        nothing,
        entries,
        0,
        done,
    );
    lemma_below_dir(world, from, depth, nothing, entries);
    assert(done.union(below_entries(world, from, nothing, entries, 0)) =~= places(world, from)) by {
        assert forall|path: Seq<Seq<char>>| nothing.is_prefix_of(path) by {}
        assert(below(world, from, nothing) =~= places(world, from));
    }
    let laid = overlay(world, from, to, places(world, from));
    let walked = walking(
        history,
        request,
        proceed_from(from, to, Seq::empty()),
        laid,
    );
    lemma_drive_twice(begin, listing, 1, inside);
    assert(drive(walked, listing, 5).step == StepModel::Finished(
        OutcomeModel::Success(success_text(true)),
    ) && drive(walked, listing, 5).world == merged_world(world, request) && drive(
        walked,
        listing,
        5,
    ).engine == (EngineModel {
        phase: PhaseModel::Idle,
        history: recorded(history, (request.source, request.destination)),
    })) by {
        reveal_with_fuel(drive, 6);
        if world.grounded.contains(from) {
            assert(world.grounded.insert(from) =~= world.grounded);
        }
    }
    lemma_drive_twice(begin, listing, 1 + inside, 5);
    1 + inside + 5
}

/// What the merged world holds: below the source, what the destination held
/// wherever it held anything, and what the source held everywhere else; at
/// the destination, the link and nothing below it; and everywhere else what
/// was there before.
pub proof fn lemma_merged_world_unites(world: World, request: RequestModel)
    requires
        request.source != request.destination,
    ensures
        forall|path: Seq<Seq<char>>| #[trigger]
            world.has(at(request.destination, path)) ==> merged_world(world, request).has(
                at(request.source, path),
            ) && merged_world(world, request).nodes[at(request.source, path)]
                == world.nodes[at(request.destination, path)],
        forall|path: Seq<Seq<char>>|
            !world.has(at(request.destination, path)) ==> (#[trigger] merged_world(
                world,
                request,
            ).has(at(request.source, path)) <==> world.has(at(request.source, path))),
        forall|path: Seq<Seq<char>>|
            !world.has(at(request.destination, path)) && #[trigger] world.has(
                at(request.source, path),
            ) ==> merged_world(world, request).nodes[at(request.source, path)]
                == world.nodes[at(request.source, path)],
        forall|path: Seq<Seq<char>>| #[trigger]
            merged_world(world, request).has(at(request.destination, path)) <==> path
                == Seq::<Seq<char>>::empty(),
        merged_world(world, request).nodes[top(request.destination)] == (Node::Link {
            kind: kind_for(request.requested, true),
            target: request.source,
        }),
        forall|place: LocationModel|
            place.root != request.source && place.root != request.destination ==> (
            #[trigger] merged_world(world, request).has(place) <==> world.has(place)) && (
            world.has(place) ==> merged_world(world, request).nodes[place] == world.nodes[place]),
{
}

} // verus!
