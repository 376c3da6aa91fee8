//! What no step of the engine changes.

use vstd::prelude::*;
use crate::engine::{
    on_confirm, on_reply, on_request, request_of, state_of, EngineModel, EngineState, PhaseModel,
};
use crate::history::HISTORY_CAPACITY;
use crate::merge::{proceed_from, FrameModel, WaitModel, WalkStepModel};
use crate::outcome::{ErrorModel, IoStage, OutcomeModel, RequestModel};
use crate::protocol::{EntryModel, LocationModel, ReplyModel, RequestKind, StepModel};
use crate::theorems::merges::confirmed_run;
use crate::validator::both_given;
use crate::world::{at, drive, lemma_drive_twice, serve, Run, World};

verus! {

/// Whether the tree below `root` is in `after` as it is in `before`.
pub open spec fn same_tree(after: World, before: World, root: Seq<char>) -> bool {
    forall|path: Seq<Seq<char>>|
        (#[trigger] after.has(at(root, path)) <==> before.has(at(root, path))) && (before.has(
            at(root, path),
        ) ==> after.nodes[at(root, path)] == before.nodes[at(root, path)])
}

/// Whether everything that lies below neither of the two roots is in `after`
/// as it is in `before`.
pub open spec fn same_elsewhere(
    after: World,
    before: World,
    source: Seq<char>,
    destination: Seq<char>,
) -> bool {
    forall|place: LocationModel|
        place.root != source && place.root != destination ==> (#[trigger] after.has(place)
            <==> before.has(place)) && (before.has(place) ==> after.nodes[place]
            == before.nodes[place])
}

/// Whether the request writes below `to` only, if it writes at all, as the
/// requests of a merge do.
spec fn writes_below(request: RequestKind, to: Seq<char>) -> bool {
    match request {
        RequestKind::ListDir { .. } => true,
        RequestKind::CreateDirAll { dir } => dir.root == to,
        RequestKind::CopyFile { to: copy, .. } => copy.root == to,
        _ => false,
    }
}

/// Whether the outcome is an error of the merge or of the removal that
/// follows it.
pub open spec fn failed_before_link(step: StepModel) -> bool {
    step matches StepModel::Finished(OutcomeModel::Error(ErrorModel::IoError { stage, .. }))
        && (stage == IoStage::Merge || stage == IoStage::RemoveDestination)
}

spec fn steady(run: Run, request: RequestModel, before: World) -> bool {
    &&& same_elsewhere(run.world, before, request.source, request.destination)
    &&& match run.engine.phase {
        PhaseModel::Merging { request: held, walk } => {
            &&& held == request
            &&& walk.from == request.destination
            &&& walk.to == request.source
            &&& run.step matches StepModel::Perform(wanted) && writes_below(
                wanted,
                request.source,
            )
            &&& same_tree(run.world, before, request.destination)
        },
        PhaseModel::Removing { request: held } => {
            &&& held == request
            &&& run.step == StepModel::Perform(
                RequestKind::RemoveDirAll { path: request.destination },
            )
            &&& same_tree(run.world, before, request.destination)
        },
        PhaseModel::CheckingParent { request: held, .. } => {
            &&& held == request
            &&& run.step == StepModel::Perform(
                RequestKind::ParentExists { path: request.destination },
            )
        },
        PhaseModel::CreatingParent { request: held, .. } => {
            &&& held == request
            &&& run.step == StepModel::Perform(
                RequestKind::CreateParent { path: request.destination },
            )
        },
        PhaseModel::ProbingKind { request: held, .. } => {
            &&& held == request
            &&& run.step == StepModel::Perform(RequestKind::IsDir { path: request.source })
        },
        PhaseModel::Creating { request: held, kind, .. } => {
            &&& held == request
            &&& run.step == StepModel::Perform(
                RequestKind::Symlink {
                    kind,
                    source: request.source,
                    destination: request.destination,
                },
            )
        },
        PhaseModel::Idle => {
            &&& run.step is Finished
            &&& failed_before_link(run.step) ==> same_tree(
                run.world,
                before,
                request.destination,
            )
        },
        _ => false,
    }
}

proof fn lemma_proceed_writes_below(from: Seq<char>, to: Seq<char>, frames: Seq<FrameModel>)
    ensures
        ({
            let moved = proceed_from(from, to, frames);
            &&& moved.0.from == from
            &&& moved.0.to == to
            &&& moved.1 matches WalkStepModel::Perform(wanted) ==> writes_below(wanted, to)
            &&& !(moved.1 is Failed)
        }),
    decreases frames.len(),
{
    if frames.len() > 0 && frames.last().next >= frames.last().entries.len() {
        lemma_proceed_writes_below(from, to, frames.drop_last());
    }
}

spec fn writes_within(request: RequestKind, first: Seq<char>, second: Seq<char>) -> bool {
    match request {
        RequestKind::CreateDirAll { dir } => dir.root == first || dir.root == second,
        RequestKind::CopyFile { to, .. } => to.root == first || to.root == second,
        RequestKind::RemoveDirAll { path } => path == first || path == second,
        RequestKind::Symlink { destination, .. } => destination == first || destination == second,
        _ => true,
    }
}

proof fn lemma_serve_spares(
    world: World,
    listing: spec_fn(LocationModel) -> Seq<EntryModel>,
    wanted: RequestKind,
    first: Seq<char>,
    second: Seq<char>,
)
    requires
        writes_within(wanted, first, second),
    ensures
        forall|place: LocationModel|
            place.root != first && place.root != second ==> (#[trigger] serve(
                world,
                listing,
                wanted,
            ).0.has(place) <==> world.has(place)) && (world.has(place) ==> serve(
                world,
                listing,
                wanted,
            ).0.nodes[place] == world.nodes[place]),
{
}

proof fn lemma_steady_step(
    run: Run,
    listing: spec_fn(LocationModel) -> Seq<EntryModel>,
    request: RequestModel,
    before: World,
)
    requires
        request.source != request.destination,
        steady(run, request, before),
    ensures
        steady(drive(run, listing, 1), request, before),
{
    reveal_with_fuel(drive, 2);
    match run.step {
        StepModel::Finished(_) => {},
        StepModel::Perform(wanted) => {
            let served = serve(run.world, listing, wanted);
            match on_reply(run.engine, served.1) {
                None => {},
                Some(next) => {
                    lemma_serve_spares(
                        run.world,
                        listing,
                        wanted,
                        request.source,
                        request.destination,
                    );
                    match run.engine.phase {
                        PhaseModel::Merging { request: held, walk } => {
                            lemma_proceed_writes_below(walk.from, walk.to, walk.frames);
                            match (walk.wait, served.1) {
                                (WaitModel::Listing(dir), ReplyModel::Entries(entries)) => {
                                    lemma_proceed_writes_below(
                                        walk.from,
                                        walk.to,
                                        walk.frames.push(
                                            FrameModel { dir, entries, next: 0 },
                                        ),
                                    );
                                },
                                _ => {},
                            }
                            lemma_serve_spares(
                                run.world,
                                listing,
                                wanted,
                                request.source,
                                request.source,
                            );
                        },
                        _ => {},
                    }
                },
            }
        },
    }
}

proof fn lemma_steady_run(
    run: Run,
    listing: spec_fn(LocationModel) -> Seq<EntryModel>,
    request: RequestModel,
    before: World,
    fuel: nat,
)
    requires
        request.source != request.destination,
        steady(run, request, before),
    ensures
        steady(drive(run, listing, fuel), request, before),
    decreases fuel,
{
    if fuel > 0 {
        lemma_steady_step(run, listing, request, before);
        lemma_steady_run(drive(run, listing, 1), listing, request, before, (fuel - 1) as nat);
        lemma_drive_twice(run, listing, 1, (fuel - 1) as nat);
    }
}

/// A confirmed merge writes below the source only, until every entry was
/// copied. However far the run has come, and whatever the world or the order
/// of its directories: what lies below neither root is as it was; and while
/// the merge goes on, where it fails, and where the removal that follows it
/// fails, the destination's tree is as it was, so no link was made.
pub proof fn theorem_merge_spares_destination(
    engine: EngineModel,
    world: World,
    listing: spec_fn(LocationModel) -> Seq<EntryModel>,
    request: RequestModel,
    fuel: nat,
)
    requires
        engine.phase == (PhaseModel::ConfirmationPending { request }),
        request.source != request.destination,
    ensures
        ({
            let end = drive(confirmed_run(engine, world), listing, fuel);
            &&& same_elsewhere(end.world, world, request.source, request.destination)
            &&& end.engine.phase is Merging || end.engine.phase is Removing || failed_before_link(
                end.step,
            ) ==> same_tree(end.world, world, request.destination)
        }),
{
    lemma_steady_run(confirmed_run(engine, world), listing, request, world, fuel);
}

/// What holds of every engine that came from a new one by its own steps:
/// its log holds five entries at most, the request it works on has both of
/// its paths, and a merge reads the destination and writes the source.
pub open spec fn well_formed(engine: EngineModel) -> bool {
    &&& engine.history.len() <= HISTORY_CAPACITY
    &&& request_of(engine.phase) matches Some(request) ==> both_given(
        request.source,
        request.destination,
    )
    &&& engine.phase matches PhaseModel::Merging { request, walk } ==> walk.from
        == request.destination && walk.to == request.source
}

/// A new engine is well formed, and every step keeps an engine so. Only a
/// link that was made changes the log.
pub proof fn theorem_engine_stays_well_formed(
    engine: EngineModel,
    request: RequestModel,
    yes: bool,
    reply: ReplyModel,
)
    requires
        well_formed(engine),
    ensures
        well_formed(EngineModel { phase: PhaseModel::Idle, history: Seq::empty() }),
        well_formed(on_request(engine, request).0),
        on_request(engine, request).0.history == engine.history,
        on_confirm(engine, yes) matches Some(next) ==> well_formed(next.0) && next.0.history
            == engine.history,
        on_reply(engine, reply) matches Some(next) ==> well_formed(next.0) && (next.0.history
            == engine.history || (engine.phase is Creating && reply is Done)),
{
    match engine.phase {
        PhaseModel::Merging { request: held, walk } => {
            lemma_proceed_writes_below(walk.from, walk.to, walk.frames);
            match (walk.wait, reply) {
                (WaitModel::Listing(dir), ReplyModel::Entries(entries)) => {
                    lemma_proceed_writes_below(
                        walk.from,
                        walk.to,
                        walk.frames.push(FrameModel { dir, entries, next: 0 }),
                    );
                },
                _ => {},
            }
        },
        _ => {},
    }
}

/// Whether the step is what the engine's state calls for: an outcome that
/// ends the request leaves the engine idle, the offer of a merge leaves it
/// waiting for the decision, and a filesystem request leaves it validating
/// or linking.
pub open spec fn step_fits(next: (EngineModel, StepModel)) -> bool {
    match next.1 {
        StepModel::Finished(OutcomeModel::ConfirmationRequired) => state_of(next.0.phase)
            == EngineState::ConfirmationPending,
        StepModel::Finished(_) => state_of(next.0.phase) == EngineState::Idle,
        StepModel::Perform(_) => state_of(next.0.phase) == EngineState::Validating || state_of(
            next.0.phase,
        ) == EngineState::Linking,
    }
}

/// Every step that the engine returns fits the state it is left in: each
/// request comes to one outcome, and with it the engine is free for the
/// next.
pub proof fn theorem_step_fits_state(
    engine: EngineModel,
    request: RequestModel,
    yes: bool,
    reply: ReplyModel,
)
    ensures
        step_fits(on_request(engine, request)),
        on_confirm(engine, yes) matches Some(next) ==> step_fits(next),
        on_reply(engine, reply) matches Some(next) ==> step_fits(next),
{
}

} // verus!
