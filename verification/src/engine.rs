//! The engine: one request at a time, from validation to the link.
//!
//! `request_link` starts a request, `resume` takes the reply to each
//! filesystem request that the engine handed out, and `confirm_merge` takes
//! the decision that a destination in the way calls for. Each of them returns
//! the next step: a filesystem request to perform, or the outcome.

use vstd::prelude::*;
use crate::history::{recorded, HistoryEntry, HistoryLog};
use crate::link::{follows_source, kind_for, needs_source_kind, resolve_kind};
use crate::merge::{
    walk_accepts, walk_next, walk_start, MergeWalk, WalkModel, WalkStep, WalkStepModel,
};
use crate::outcome::{
    link_stage, success_text, ConflictState, EngineError, ErrorModel, IoStage, LinkKind,
    LinkRequest, Outcome, OutcomeModel, RequestModel, SymlinkType,
};
use crate::protocol::{FsReply, FsRequest, ReplyModel, RequestKind, Step, StepModel};
use crate::validator::{
    both_given, conflict_of, inputs_present, resolve, validate, validation_error,
};

verus! {

/// Where a request stands, as a plain value. But for the first and the
/// fourth, each phase waits for the reply to one filesystem request.
pub enum PhaseModel {
    /// No request is in flight.
    Idle,
    /// Does the source exist?
    CheckingSource { request: RequestModel },
    /// Does the destination exist?
    CheckingDestination { request: RequestModel },
    /// The destination exists: a yes or a no is awaited.
    ConfirmationPending { request: RequestModel },
    /// The destination's contents are copied into the source.
    Merging { request: RequestModel, walk: WalkModel },
    /// The destination is removed.
    Removing { request: RequestModel },
    /// Does the directory that is to hold the link exist?
    CheckingParent { request: RequestModel, merged: bool },
    /// The directory that is to hold the link is created.
    CreatingParent { request: RequestModel, merged: bool },
    /// Is the source a directory?
    ProbingKind { request: RequestModel, merged: bool },
    /// The link is created.
    Creating { request: RequestModel, merged: bool, kind: LinkKind },
}

/// The engine, as a plain value.
pub struct EngineModel {
    pub phase: PhaseModel,
    /// The latest links, oldest first, as pairs of source and destination.
    pub history: Seq<(Seq<char>, Seq<char>)>,
}

/// The coarse state of the engine.
#[derive(Clone, Copy, PartialEq, Eq, Structural, Debug)]
pub enum EngineState {
    Idle,
    Validating,
    ConfirmationPending,
    Linking,
}

/// The coarse state that a phase belongs to. A confirmed merge is part of
/// linking.
pub open spec fn state_of(phase: PhaseModel) -> EngineState {
    match phase {
        PhaseModel::Idle => EngineState::Idle,
        PhaseModel::CheckingSource { .. } => EngineState::Validating,
        PhaseModel::CheckingDestination { .. } => EngineState::Validating,
        PhaseModel::ConfirmationPending { .. } => EngineState::ConfirmationPending,
        _ => EngineState::Linking,
    }
}

/// The request that a phase works on, if any.
pub open spec fn request_of(phase: PhaseModel) -> Option<RequestModel> {
    match phase {
        PhaseModel::Idle => None,
        PhaseModel::CheckingSource { request } => Some(request),
        PhaseModel::CheckingDestination { request } => Some(request),
        PhaseModel::ConfirmationPending { request } => Some(request),
        PhaseModel::Merging { request, .. } => Some(request),
        PhaseModel::Removing { request } => Some(request),
        PhaseModel::CheckingParent { request, .. } => Some(request),
        PhaseModel::CreatingParent { request, .. } => Some(request),
        PhaseModel::ProbingKind { request, .. } => Some(request),
        PhaseModel::Creating { request, .. } => Some(request),
    }
}

/// Whether `reply` answers the filesystem request that the phase waits for.
pub open spec fn accepts(phase: PhaseModel, reply: ReplyModel) -> bool {
    match phase {
        PhaseModel::Idle => false,
        PhaseModel::ConfirmationPending { .. } => false,
        PhaseModel::CheckingSource { .. } => reply is Answer,
        PhaseModel::CheckingDestination { .. } => reply is Answer,
        PhaseModel::ProbingKind { .. } => reply is Answer,
        PhaseModel::Merging { walk, .. } => walk_accepts(walk.wait, reply),
        PhaseModel::Removing { .. } => reply is Done || reply is Failed,
        PhaseModel::CheckingParent { .. } => reply is Answer,
        PhaseModel::CreatingParent { .. } => reply is Done || reply is Failed,
        PhaseModel::Creating { .. } => reply is Done || reply is Failed,
    }
}

/// The request ends with an error, and the engine is idle again.
pub open spec fn failed(engine: EngineModel, error: ErrorModel) -> (EngineModel, StepModel) {
    (
        EngineModel { phase: PhaseModel::Idle, history: engine.history },
        StepModel::Finished(OutcomeModel::Error(error)),
    )
}

/// The engine turns to `phase` and hands out `request`.
pub open spec fn performing(engine: EngineModel, phase: PhaseModel, request: RequestKind) -> (
    EngineModel,
    StepModel,
) {
    (EngineModel { phase, history: engine.history }, StepModel::Perform(request))
}

/// Linking begins with the directory that is to hold the link.
pub open spec fn begin_link(engine: EngineModel, request: RequestModel, merged: bool) -> (
    EngineModel,
    StepModel,
) {
    performing(
        engine,
        PhaseModel::CheckingParent { request, merged },
        RequestKind::ParentExists { path: request.destination },
    )
}

/// The link itself is asked for.
pub open spec fn create_link(
    engine: EngineModel,
    request: RequestModel,
    merged: bool,
    kind: LinkKind,
) -> (EngineModel, StepModel) {
    performing(
        engine,
        PhaseModel::Creating { request, merged, kind },
        RequestKind::Symlink { kind, source: request.source, destination: request.destination },
    )
}

/// A request arrives. Whatever was in flight is given up. A request with an
/// empty path fails at once; any other begins with the question whether its
/// source exists.
pub open spec fn on_request(engine: EngineModel, request: RequestModel) -> (
    EngineModel,
    StepModel,
) {
    if !both_given(request.source, request.destination) {
        failed(engine, ErrorModel::MissingInput)
    } else {
        performing(
            engine,
            PhaseModel::CheckingSource { request },
            RequestKind::Exists { path: request.source },
        )
    }
}

/// The decision on a destination that is in the way arrives. A no ends the
/// request; a yes starts the merge with the entries of the destination.
/// Nothing where no decision is awaited.
pub open spec fn on_confirm(engine: EngineModel, yes: bool) -> Option<(EngineModel, StepModel)> {
    match engine.phase {
        PhaseModel::ConfirmationPending { request } => Some(
            if yes {
                let begun = walk_start(request.destination, request.source);
                performing(engine, PhaseModel::Merging { request, walk: begun.0 }, begun.1)
            } else {
                failed(engine, ErrorModel::OperationCancelled)
            },
        ),
        _ => None,
    }
}

/// The source exists, or it does not: validation is complete. What it finds
/// ends the request; where it finds nothing, the destination is looked at.
pub open spec fn on_source_checked(engine: EngineModel, request: RequestModel, exists: bool) -> (
    EngineModel,
    StepModel,
) {
    match validation_error(request.source, request.destination, exists) {
        Some(error) => failed(engine, error),
        None => performing(
            engine,
            PhaseModel::CheckingDestination { request },
            RequestKind::Exists { path: request.destination },
        ),
    }
}

/// The destination is in the way, or it is free.
pub open spec fn on_destination_checked(
    engine: EngineModel,
    request: RequestModel,
    exists: bool,
) -> (EngineModel, StepModel) {
    match conflict_of(exists) {
        ConflictState::DestinationExists => (
            EngineModel {
                phase: PhaseModel::ConfirmationPending { request },
                history: engine.history,
            },
            StepModel::Finished(OutcomeModel::ConfirmationRequired),
        ),
        ConflictState::NoConflict => begin_link(engine, request, false),
    }
}

/// The walk of a merge moved on.
pub open spec fn on_walk_moved(
    engine: EngineModel,
    request: RequestModel,
    moved: (WalkModel, WalkStepModel),
) -> (EngineModel, StepModel) {
    match moved.1 {
        WalkStepModel::Perform(wanted) => performing(
            engine,
            PhaseModel::Merging { request, walk: moved.0 },
            wanted,
        ),
        WalkStepModel::Complete => performing(
            engine,
            PhaseModel::Removing { request },
            RequestKind::RemoveDirAll { path: request.destination },
        ),
        WalkStepModel::Failed(detail) => failed(
            engine,
            ErrorModel::IoError { stage: IoStage::Merge, detail },
        ),
    }
}

/// The directory that is to hold the link is there, or it has to be created.
pub open spec fn on_parent_checked(
    engine: EngineModel,
    request: RequestModel,
    merged: bool,
    exists: bool,
) -> (EngineModel, StepModel) {
    if exists {
        on_parent_ensured(engine, request, merged)
    } else {
        performing(
            engine,
            PhaseModel::CreatingParent { request, merged },
            RequestKind::CreateParent { path: request.destination },
        )
    }
}

/// The directory that is to hold the link is there.
pub open spec fn on_parent_ensured(engine: EngineModel, request: RequestModel, merged: bool) -> (
    EngineModel,
    StepModel,
) {
    if follows_source(request.requested) {
        performing(
            engine,
            PhaseModel::ProbingKind { request, merged },
            RequestKind::IsDir { path: request.source },
        )
    } else {
        create_link(engine, request, merged, kind_for(request.requested, false))
    }
}

/// The link was made: it is recorded, and the request ends in success.
pub open spec fn on_linked(engine: EngineModel, request: RequestModel, merged: bool) -> (
    EngineModel,
    StepModel,
) {
    (
        EngineModel {
            phase: PhaseModel::Idle,
            history: recorded(engine.history, (request.source, request.destination)),
        },
        StepModel::Finished(OutcomeModel::Success(success_text(merged))),
    )
}

/// The reply to the awaited filesystem request arrives. Nothing where the
/// reply does not answer what the engine waits for.
pub open spec fn on_reply(engine: EngineModel, reply: ReplyModel) -> Option<
    (EngineModel, StepModel),
> {
    match (engine.phase, reply) {
        (PhaseModel::CheckingSource { request }, ReplyModel::Answer(exists)) => Some(
            on_source_checked(engine, request, exists),
        ),
        (PhaseModel::CheckingDestination { request }, ReplyModel::Answer(exists)) => Some(
            on_destination_checked(engine, request, exists),
        ),
        (PhaseModel::Merging { request, walk }, _) => match walk_next(walk, reply) {
            Some(moved) => Some(on_walk_moved(engine, request, moved)),
            None => None,
        },
        (PhaseModel::Removing { request }, ReplyModel::Done) => Some(
            begin_link(engine, request, true),
        ),
        (PhaseModel::Removing { request }, ReplyModel::Failed(detail)) => Some(
            failed(engine, ErrorModel::IoError { stage: IoStage::RemoveDestination, detail }),
        ),
        (PhaseModel::CheckingParent { request, merged }, ReplyModel::Answer(exists)) => Some(
            on_parent_checked(engine, request, merged, exists),
        ),
        (PhaseModel::CreatingParent { request, merged }, ReplyModel::Done) => Some(
            on_parent_ensured(engine, request, merged),
        ),
        (PhaseModel::CreatingParent { request, merged }, ReplyModel::Failed(detail)) => Some(
            failed(engine, ErrorModel::IoError { stage: link_stage(merged), detail }),
        ),
        (PhaseModel::ProbingKind { request, merged }, ReplyModel::Answer(is_dir)) => Some(
            create_link(engine, request, merged, kind_for(request.requested, is_dir)),
        ),
        (PhaseModel::Creating { request, merged, kind }, ReplyModel::Done) => Some(
            on_linked(engine, request, merged),
        ),
        (PhaseModel::Creating { request, merged, kind }, ReplyModel::Failed(detail)) => Some(
            failed(engine, ErrorModel::IoError { stage: link_stage(merged), detail }),
        ),
        _ => None,
    }
}

#[derive(Clone, Copy)]
enum Phase {
    Idle,
    CheckingSource,
    CheckingDestination,
    ConfirmationPending,
    Merging,
    Removing,
    CheckingParent,
    CreatingParent,
    ProbingKind,
    Creating,
}

/// The link-provisioning engine.
pub struct LinkProvisioningEngine {
    phase: Phase,
    source: String,
    destination: String,
    requested: SymlinkType,
    merged: bool,
    kind: LinkKind,
    walk: MergeWalk,
    history: HistoryLog,
}

impl View for LinkProvisioningEngine {
    type V = EngineModel;

    closed spec fn view(&self) -> EngineModel {
        let request = RequestModel {
            source: self.source@,
            destination: self.destination@,
            requested: self.requested,
        };
        EngineModel {
            phase: match self.phase {
                Phase::Idle => PhaseModel::Idle,
                Phase::CheckingSource => PhaseModel::CheckingSource { request },
                Phase::CheckingDestination => PhaseModel::CheckingDestination { request },
                Phase::ConfirmationPending => PhaseModel::ConfirmationPending { request },
                Phase::Merging => PhaseModel::Merging { request, walk: self.walk@ },
                Phase::Removing => PhaseModel::Removing { request },
                Phase::CheckingParent => PhaseModel::CheckingParent {
                    request,
                    merged: self.merged,
                },
                Phase::CreatingParent => PhaseModel::CreatingParent {
                    request,
                    merged: self.merged,
                },
                Phase::ProbingKind => PhaseModel::ProbingKind { request, merged: self.merged },
                Phase::Creating => PhaseModel::Creating {
                    request,
                    merged: self.merged,
                    kind: self.kind,
                },
            },
            history: self.history@,
        }
    }
}

impl LinkProvisioningEngine {
    /// An idle engine that remembers no link.
    pub fn new() -> (engine: LinkProvisioningEngine)
        ensures
            engine@ == (EngineModel { phase: PhaseModel::Idle, history: Seq::empty() }),
    {
        LinkProvisioningEngine {
            phase: Phase::Idle,
            source: String::new(),
            destination: String::new(),
            requested: SymlinkType::Auto,
            merged: false,
            kind: LinkKind::File,
            walk: MergeWalk::idle(),
            history: HistoryLog::new(),
        }
    }

    /// The coarse state of the engine.
    pub fn state(&self) -> (state: EngineState)
        ensures
            state == state_of(self@.phase),
    {
        match self.phase {
            Phase::Idle => EngineState::Idle,
            Phase::CheckingSource => EngineState::Validating,
            Phase::CheckingDestination => EngineState::Validating,
            Phase::ConfirmationPending => EngineState::ConfirmationPending,
            _ => EngineState::Linking,
        }
    }

    /// The request that is in flight or held for confirmation, if any.
    pub fn pending(&self) -> (request: Option<LinkRequest>)
        ensures
            match request_of(self@.phase) {
                Some(held) => request is Some && request->0@ == held,
                None => request is None,
            },
    {
        match self.phase {
            Phase::Idle => None,
            _ => Some(
                LinkRequest {
                    source: self.source.clone(),
                    destination: self.destination.clone(),
                    requested: self.requested,
                },
            ),
        }
    }

    /// Whether a yes or a no is awaited.
    pub fn awaits_confirmation(&self) -> (awaited: bool)
        ensures
            awaited == (self@.phase is ConfirmationPending),
    {
        match self.phase {
            Phase::ConfirmationPending => true,
            _ => false,
        }
    }

    /// Whether `reply` answers the filesystem request that the engine waits
    /// for.
    pub fn accepts(&self, reply: &FsReply) -> (accepted: bool)
        ensures
            accepted == accepts(self@.phase, reply@),
    {
        match self.phase {
            Phase::Idle => false,
            Phase::ConfirmationPending => false,
            Phase::CheckingSource
            | Phase::CheckingDestination
            | Phase::CheckingParent
            | Phase::ProbingKind => match reply {
                FsReply::Answer(_) => true,
                _ => false,
            },
            Phase::Merging => self.walk.accepts(reply),
            Phase::Removing | Phase::CreatingParent | Phase::Creating => match reply {
                FsReply::Done => true,
                FsReply::Failed(_) => true,
                _ => false,
            },
        }
    }

    /// The latest links, oldest first: at most five.
    pub fn recent_links(&self) -> (links: Vec<HistoryEntry>)
        ensures
            links@.len() == self@.history.len(),
            forall|i: int| 0 <= i < links@.len() ==> (#[trigger] links@[i])@ == self@.history[i],
            links@.len() <= 5,
    {
        self.history.items()
    }

    fn fail(&mut self, error: EngineError) -> (step: Step)
        ensures
            (final(self)@, step@) == failed(old(self)@, error@),
    {
        self.phase = Phase::Idle;
        Step::Finished(Outcome::Error(error))
    }

    fn begin_link(&mut self, merged: bool) -> (step: Step)
        requires
            request_of(old(self)@.phase) is Some,
        ensures
            (final(self)@, step@) == begin_link(
                old(self)@,
                request_of(old(self)@.phase)->0,
                merged,
            ),
    {
        self.merged = merged;
        self.phase = Phase::CheckingParent;
        Step::Perform(FsRequest::ParentExists { path: self.destination.clone() })
    }

    fn parent_ensured(&mut self) -> (step: Step)
        requires
            old(self)@.phase is CheckingParent || old(self)@.phase is CreatingParent,
        ensures
            (final(self)@, step@) == on_parent_ensured(
                old(self)@,
                request_of(old(self)@.phase)->0,
                old(self).merged,
            ),
    {
        if needs_source_kind(self.requested) {
            self.phase = Phase::ProbingKind;
            Step::Perform(FsRequest::IsDir { path: self.source.clone() })
        } else {
            self.create_link(resolve_kind(self.requested, false))
        }
    }

    fn create_link(&mut self, kind: LinkKind) -> (step: Step)
        requires
            old(self)@.phase is CheckingParent || old(self)@.phase is CreatingParent || old(
                self,
            )@.phase is ProbingKind,
        ensures
            (final(self)@, step@) == create_link(
                old(self)@,
                request_of(old(self)@.phase)->0,
                old(self).merged,
                kind,
            ),
    {
        self.kind = kind;
        self.phase = Phase::Creating;
        Step::Perform(
            FsRequest::Symlink {
                kind,
                source: self.source.clone(),
                destination: self.destination.clone(),
            },
        )
    }

    /// Starts a request. Whatever was in flight is given up.
    pub fn request_link(&mut self, source: &str, destination: &str, requested: SymlinkType) -> (step:
        Step)
        ensures
            (final(self)@, step@) == on_request(
                old(self)@,
                RequestModel { source: source@, destination: destination@, requested },
            ),
    {
        if !inputs_present(source, destination) {
            self.fail(EngineError::MissingInput)
        } else {
            self.source = String::from_str(source);
            self.destination = String::from_str(destination);
            self.requested = requested;
            self.phase = Phase::CheckingSource;
            Step::Perform(FsRequest::Exists { path: String::from_str(source) })
        }
    }

    /// Takes the decision on a destination that is in the way. Where none is
    /// awaited, nothing changes and nothing is returned.
    pub fn confirm_merge(&mut self, yes: bool) -> (step: Option<Step>)
        ensures
            match on_confirm(old(self)@, yes) {
                Some(next) => step is Some && (final(self)@, step->0@) == next,
                None => step is None && final(self)@ == old(self)@,
            },
            step is Some <==> old(self)@.phase is ConfirmationPending,
    {
        if !self.awaits_confirmation() {
            return None;
        }
        if yes {
            let (walk, first) = MergeWalk::start(self.destination.as_str(), self.source.as_str());
            self.walk = walk;
            self.phase = Phase::Merging;
            Some(Step::Perform(first))
        } else {
            Some(self.fail(EngineError::OperationCancelled))
        }
    }

    /// Takes the reply to the filesystem request that was handed out last.
    /// A reply that does not answer it changes nothing and gives nothing.
    pub fn resume(&mut self, reply: FsReply) -> (step: Option<Step>)
        ensures
            match on_reply(old(self)@, reply@) {
                Some(next) => step is Some && (final(self)@, step->0@) == next,
                None => step is None && final(self)@ == old(self)@,
            },
            step is Some <==> accepts(old(self)@.phase, reply@),
    {
        if !self.accepts(&reply) {
            return None;
        }
        match self.phase {
            Phase::Idle => None,
            Phase::ConfirmationPending => None,
            Phase::CheckingSource => {
                let exists = match reply {
                    FsReply::Answer(yes) => yes,
                    _ => false,
                };
                match validate(self.source.as_str(), self.destination.as_str(), exists) {
                    Err(error) => Some(self.fail(error)),
                    Ok(()) => {
                        self.phase = Phase::CheckingDestination;
                        Some(Step::Perform(FsRequest::Exists { path: self.destination.clone() }))
                    },
                }
            },
            Phase::CheckingDestination => {
                let exists = match reply {
                    FsReply::Answer(yes) => yes,
                    _ => false,
                };
                match resolve(exists) {
                    ConflictState::DestinationExists => {
                        self.phase = Phase::ConfirmationPending;
                        Some(Step::Finished(Outcome::ConfirmationRequired))
                    },
                    ConflictState::NoConflict => Some(self.begin_link(false)),
                }
            },
            Phase::Merging => {
                match self.walk.advance(reply) {
                    Some(WalkStep::Perform(wanted)) => Some(Step::Perform(wanted)),
                    Some(WalkStep::Complete) => {
                        self.phase = Phase::Removing;
                        Some(
                            Step::Perform(
                                FsRequest::RemoveDirAll { path: self.destination.clone() },
                            ),
                        )
                    },
                    Some(WalkStep::Failed(detail)) => Some(
                        self.fail(EngineError::IoError { stage: IoStage::Merge, detail }),
                    ),
                    None => None,
                }
            },
            Phase::Removing => {
                match reply {
                    FsReply::Failed(detail) => Some(
                        self.fail(
                            EngineError::IoError { stage: IoStage::RemoveDestination, detail },
                        ),
                    ),
                    _ => Some(self.begin_link(true)),
                }
            },
            Phase::CheckingParent => {
                match reply {
                    FsReply::Answer(true) => Some(self.parent_ensured()),
                    _ => {
                        self.phase = Phase::CreatingParent;
                        Some(
                            Step::Perform(
                                FsRequest::CreateParent { path: self.destination.clone() },
                            ),
                        )
                    },
                }
            },
            Phase::CreatingParent => {
                match reply {
                    FsReply::Failed(detail) => Some(
                        self.fail(
                            EngineError::IoError { stage: IoStage::of_link(self.merged), detail },
                        ),
                    ),
                    _ => Some(self.parent_ensured()),
                }
            },
            Phase::ProbingKind => {
                let is_dir = match reply {
                    FsReply::Answer(yes) => yes,
                    _ => false,
                };
                Some(self.create_link(resolve_kind(self.requested, is_dir)))
            },
            Phase::Creating => {
                match reply {
                    FsReply::Failed(detail) => Some(
                        self.fail(
                            EngineError::IoError { stage: IoStage::of_link(self.merged), detail },
                        ),
                    ),
                    _ => {
                        self.history.record(self.source.clone(), self.destination.clone());
                        self.phase = Phase::Idle;
                        Some(Step::Finished(Outcome::success(self.merged)))
                    },
                }
            },
        }
    }
}

} // verus!
