//! A model of the filesystem, to state what a run of the engine does to it.
//!
//! The model knows trees of files and directories below named roots, and
//! links at the roots. Two roots are two trees: the model does not know a
//! root that lies inside another. Of what lies above a root it knows one
//! thing: whether the directory that holds the root is there. A refusal
//! carries no text.

use vstd::prelude::*;
use crate::engine::{on_reply, EngineModel};
use crate::outcome::LinkKind;
use crate::protocol::{EntryModel, LocationModel, ReplyModel, RequestKind, StepModel};

verus! {

/// What lies at a place.
pub enum Node {
    File { content: Seq<u8> },
    Dir,
    Link { kind: LinkKind, target: Seq<char> },
}

/// The filesystem: what lies at each place where anything lies, and the
/// roots whose holding directory is there.
pub struct World {
    pub nodes: Map<LocationModel, Node>,
    pub grounded: Set<Seq<char>>,
}

/// The place of the given names below a root.
pub open spec fn at(root: Seq<char>, relative: Seq<Seq<char>>) -> LocationModel {
    LocationModel { root, relative }
}

/// The place of a root itself.
pub open spec fn top(root: Seq<char>) -> LocationModel {
    at(root, Seq::empty())
}

/// The place of an entry of a directory.
pub open spec fn child_of(dir: LocationModel, name: Seq<char>) -> LocationModel {
    at(dir.root, dir.relative.push(name))
}

impl World {
    /// Whether anything lies at the place.
    pub open spec fn has(self, place: LocationModel) -> bool {
        self.nodes.contains_key(place)
    }

    /// Whether a directory lies at the place.
    pub open spec fn has_dir(self, place: LocationModel) -> bool {
        self.has(place) && self.nodes[place] is Dir
    }

    /// Whether a file lies at the place.
    pub open spec fn has_file(self, place: LocationModel) -> bool {
        self.has(place) && self.nodes[place] is File
    }

    /// Whether the place is free or holds a directory.
    pub open spec fn free_or_dir(self, place: LocationModel) -> bool {
        !self.has(place) || self.nodes[place] is Dir
    }

    /// Whether the place is free or holds a file.
    pub open spec fn free_or_file(self, place: LocationModel) -> bool {
        !self.has(place) || self.nodes[place] is File
    }

    /// Whether the directory and its ancestors up to the root can be
    /// created: none of these places holds anything but a directory.
    pub open spec fn can_create_dir(self, dir: LocationModel) -> bool {
        forall|depth: int|
            0 <= depth <= dir.relative.len() ==> #[trigger] self.free_or_dir(
                at(dir.root, dir.relative.take(depth)),
            )
    }

    /// The world with a directory at the place and at each of its ancestors
    /// up to the root.
    pub open spec fn with_dirs(self, dir: LocationModel) -> World {
        World {
            nodes: Map::new(
                |place: LocationModel|
                    self.has(place) || (place.root == dir.root && place.relative.is_prefix_of(
                        dir.relative,
                    )),
                |place: LocationModel|
                    if place.root == dir.root && place.relative.is_prefix_of(dir.relative) {
                        Node::Dir
                    } else {
                        self.nodes[place]
                    },
            ),
            grounded: self.grounded,
        }
    }

    /// Whether the file can be copied: it is a file, the directory that is to
    /// hold the copy is there, and the copy replaces nothing but a file.
    pub open spec fn can_copy(self, from: LocationModel, to: LocationModel) -> bool {
        &&& self.has_file(from)
        &&& to.relative.len() > 0 ==> self.has_dir(at(to.root, to.relative.drop_last()))
        &&& self.free_or_file(to)
    }

    /// The world with `node` at the place.
    pub open spec fn with_node(self, place: LocationModel, node: Node) -> World {
        World { nodes: self.nodes.insert(place, node), grounded: self.grounded }
    }

    /// The world without the root and all that lies below it.
    pub open spec fn without_tree(self, root: Seq<char>) -> World {
        World {
            nodes: Map::new(
                |place: LocationModel| self.has(place) && place.root != root,
                |place: LocationModel| self.nodes[place],
            ),
            grounded: self.grounded,
        }
    }

    /// The world in which the directory that holds the root is there.
    pub open spec fn with_parent(self, root: Seq<char>) -> World {
        World { nodes: self.nodes, grounded: self.grounded.insert(root) }
    }
}

/// The reply of the model where it refuses.
pub open spec fn refusal() -> ReplyModel {
    ReplyModel::Failed(Seq::empty())
}

/// What a request does to the world, and the reply to it. `listing` gives
/// the entries of each directory in the order in which they are read. A
/// request that cannot be carried out changes nothing.
pub open spec fn serve(
    world: World,
    listing: spec_fn(LocationModel) -> Seq<EntryModel>,
    request: RequestKind,
) -> (World, ReplyModel) {
    match request {
        RequestKind::Exists { path } => (world, ReplyModel::Answer(world.has(top(path)))),
        RequestKind::IsDir { path } => (world, ReplyModel::Answer(world.has_dir(top(path)))),
        RequestKind::ParentExists { path } => (
            world,
            ReplyModel::Answer(world.grounded.contains(path)),
        ),
        RequestKind::CreateParent { path } => (world.with_parent(path), ReplyModel::Done),
        RequestKind::ListDir { dir } => if world.has_dir(dir) {
            (world, ReplyModel::Entries(listing(dir)))
        } else {
            (world, refusal())
        },
        RequestKind::CreateDirAll { dir } => if world.can_create_dir(dir) {
            (world.with_dirs(dir), ReplyModel::Done)
        } else {
            (world, refusal())
        },
        RequestKind::CopyFile { from, to } => if world.can_copy(from, to) {
            (world.with_node(to, world.nodes[from]), ReplyModel::Done)
        } else {
            (world, refusal())
        },
        RequestKind::RemoveDirAll { path } => if world.has_dir(top(path)) {
            (world.without_tree(path), ReplyModel::Done)
        } else {
            (world, refusal())
        },
        RequestKind::Symlink { kind, source, destination } => if !world.has(top(destination))
            && world.grounded.contains(destination) {
            (
                world.with_node(top(destination), Node::Link { kind, target: source }),
                ReplyModel::Done,
            )
        } else {
            (world, refusal())
        },
    }
}

/// An engine, the world it works on, and the step it returned last.
pub struct Run {
    pub engine: EngineModel,
    pub world: World,
    pub step: StepModel,
}

/// The run after the driver performed up to `fuel` requests: each request is
/// served by the world and the reply handed to the engine, until the engine
/// has nothing more to perform.
pub open spec fn drive(run: Run, listing: spec_fn(LocationModel) -> Seq<EntryModel>, fuel: nat) -> Run
    decreases fuel,
{
    match run.step {
        StepModel::Finished(_) => run,
        StepModel::Perform(request) => if fuel == 0 {
            run
        } else {
            let served = serve(run.world, listing, request);
            match on_reply(run.engine, served.1) {
                Some(next) => drive(
                    Run { engine: next.0, world: served.0, step: next.1 },
                    listing,
                    (fuel - 1) as nat,
                ),
                None => run,
            }
        },
    }
}

/// A run that is driven for some requests and then for some more was driven
/// for as many as both together.
pub proof fn lemma_drive_twice(
    run: Run,
    listing: spec_fn(LocationModel) -> Seq<EntryModel>,
    first: nat,
    second: nat,
)
    ensures
        drive(drive(run, listing, first), listing, second) == drive(run, listing, first + second),
    decreases first,
{
    match run.step {
        StepModel::Finished(_) => {},
        StepModel::Perform(request) => {
            if first > 0 {
                let served = serve(run.world, listing, request);
                match on_reply(run.engine, served.1) {
                    Some(next) => {
                        lemma_drive_twice(
                            Run { engine: next.0, world: served.0, step: next.1 },
                            listing,
                            (first - 1) as nat,
                            second,
                        );
                    },
                    None => {
                        lemma_drive_stuck(run, listing, second);
                        lemma_drive_stuck(run, listing, first + second);
                    },
                }
            }
        },
    }
}

/// A run whose engine does not take the world's reply stays as it is.
proof fn lemma_drive_stuck(
    run: Run,
    listing: spec_fn(LocationModel) -> Seq<EntryModel>,
    fuel: nat,
)
    requires
        run.step matches StepModel::Perform(request) && on_reply(
            run.engine,
            serve(run.world, listing, request).1,
        ) is None,
    ensures
        drive(run, listing, fuel) == run,
{
}

} // verus!
