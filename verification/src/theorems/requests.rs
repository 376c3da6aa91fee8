//! Requests, from the first question to the link or to the offer of a merge.

use vstd::prelude::*;
use crate::engine::{
    accepts, failed, on_confirm, on_reply, on_request, EngineModel, PhaseModel,
};
use crate::history::{recorded, HISTORY_CAPACITY};
use crate::link::kind_for;
use crate::outcome::{success_text, ErrorModel, OutcomeModel, RequestModel};
use crate::protocol::{EntryModel, LocationModel, ReplyModel, StepModel};
use crate::validator::both_given;
use crate::world::{drive, top, Node, Run, World};

verus! {

/// The run that a request starts.
pub open spec fn requested_run(engine: EngineModel, world: World, request: RequestModel) -> Run {
    let begun = on_request(engine, request);
    Run { engine: begun.0, world, step: begun.1 }
}

/// A request whose source exists and whose destination is free ends in
/// success after at most six filesystem requests. The world then holds one
/// thing more, in a directory that is there: a link at the destination that
/// points to the source, of the kind that was asked for, or of the source's
/// kind where that was left open. The link is recorded as the latest, so the
/// log grows by one entry unless it was full.
pub proof fn theorem_free_destination_is_linked(
    engine: EngineModel,
    world: World,
    listing: spec_fn(LocationModel) -> Seq<EntryModel>,
    request: RequestModel,
)
    requires
        both_given(request.source, request.destination),
        world.has(top(request.source)),
        !world.has(top(request.destination)),
    ensures
        ({
            let end = drive(requested_run(engine, world, request), listing, 6);
            let kind = kind_for(request.requested, world.has_dir(top(request.source)));
            &&& end.step == StepModel::Finished(OutcomeModel::Success(success_text(false)))
            &&& end.world == world.with_parent(request.destination).with_node(
                top(request.destination),
                Node::Link { kind, target: request.source },
            )
            &&& end.engine.phase is Idle
            &&& end.engine.history == recorded(
                engine.history,
                (request.source, request.destination),
            )
            &&& engine.history.len() < HISTORY_CAPACITY ==> end.engine.history.len()
                == engine.history.len() + 1
        }),
{
    reveal_with_fuel(drive, 7);
    if world.grounded.contains(request.destination) {
        assert(world.grounded.insert(request.destination) =~= world.grounded);
    }
}

/// A request with an empty source or an empty destination fails at once for
/// missing input: no filesystem request is handed out, so nothing is touched,
/// and the engine is idle with its log as it was.
pub proof fn theorem_missing_input_is_refused(
    engine: EngineModel,
    world: World,
    listing: spec_fn(LocationModel) -> Seq<EntryModel>,
    request: RequestModel,
    fuel: nat,
)
    requires
        request.source.len() == 0 || request.destination.len() == 0,
    ensures
        on_request(engine, request) == failed(engine, ErrorModel::MissingInput),
        drive(requested_run(engine, world, request), listing, fuel) == (Run {
            engine: EngineModel { phase: PhaseModel::Idle, history: engine.history },
            world,
            step: StepModel::Finished(OutcomeModel::Error(ErrorModel::MissingInput)),
        }),
{
}

/// A request whose source does not exist fails for just that, after the one
/// question whether it exists: the world is as it was, and the engine is idle
/// with its log as it was.
pub proof fn theorem_missing_source_is_refused(
    engine: EngineModel,
    world: World,
    listing: spec_fn(LocationModel) -> Seq<EntryModel>,
    request: RequestModel,
    fuel: nat,
)
    requires
        both_given(request.source, request.destination),
        !world.has(top(request.source)),
        fuel >= 1,
    ensures
        drive(requested_run(engine, world, request), listing, fuel) == (Run {
            engine: EngineModel { phase: PhaseModel::Idle, history: engine.history },
            world,
            step: StepModel::Finished(OutcomeModel::Error(ErrorModel::SourceNotFound)),
        }),
{
    reveal_with_fuel(drive, 3);
}

/// A request whose destination exists is held for confirmation after two
/// questions: the world is as it was, the engine keeps the request, and in
/// that state it takes no reply, so it hands out no filesystem request
/// before the decision comes.
pub proof fn theorem_conflict_waits_for_confirmation(
    engine: EngineModel,
    world: World,
    listing: spec_fn(LocationModel) -> Seq<EntryModel>,
    request: RequestModel,
    fuel: nat,
)
    requires
        both_given(request.source, request.destination),
        world.has(top(request.source)),
        world.has(top(request.destination)),
        fuel >= 2,
    ensures
        drive(requested_run(engine, world, request), listing, fuel) == (Run {
            engine: EngineModel {
                phase: PhaseModel::ConfirmationPending { request },
                history: engine.history,
            },
            world,
            step: StepModel::Finished(OutcomeModel::ConfirmationRequired),
        }),
        forall|reply: ReplyModel|
            (#[trigger] on_reply(
                EngineModel {
                    phase: PhaseModel::ConfirmationPending { request },
                    history: engine.history,
                },
                reply,
            )) is None,
{
    reveal_with_fuel(drive, 4);
}

/// A merge that is declined ends the request as cancelled: no filesystem
/// request is handed out, so both trees stay as they are, and the engine is
/// idle with its log as it was.
pub proof fn theorem_declined_merge_is_cancelled(engine: EngineModel)
    requires
        engine.phase is ConfirmationPending,
    ensures
        on_confirm(engine, false) == Some(
            (
                EngineModel { phase: PhaseModel::Idle, history: engine.history },
                StepModel::Finished(OutcomeModel::Error(ErrorModel::OperationCancelled)),
            ),
        ),
{
}

/// The engine takes exactly the replies that answer what it waits for.
pub proof fn theorem_accepted_replies(engine: EngineModel, reply: ReplyModel)
    ensures
        on_reply(engine, reply) is Some <==> accepts(engine.phase, reply),
{
}

} // verus!
