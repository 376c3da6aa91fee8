//! What a request is, and how it can end.

use vstd::prelude::*;

verus! {

/// The kind of link that is asked for.
#[derive(Clone, Copy, PartialEq, Eq, Structural, Debug)]
pub enum SymlinkType {
    /// Decide when the link is made: a directory link where the source is a
    /// directory, a file link otherwise.
    Auto,
    File,
    Directory,
}

/// The kind of link that is made.
#[derive(Clone, Copy, PartialEq, Eq, Structural, Debug)]
pub enum LinkKind {
    File,
    Directory,
}

/// What was found at the destination.
#[derive(Clone, Copy, PartialEq, Eq, Structural, Debug)]
pub enum ConflictState {
    NoConflict,
    DestinationExists,
}

/// The step at which the filesystem refused.
#[derive(Clone, Copy, PartialEq, Eq, Structural, Debug)]
pub enum IoStage {
    /// Copying the destination's contents into the source.
    Merge,
    /// Removing the destination after its contents were copied.
    RemoveDestination,
    /// Creating the link where there was nothing to merge.
    Link,
    /// Creating the link after a merge.
    LinkAfterMerge,
}

/// A request for one link, as a plain value.
pub struct RequestModel {
    pub source: Seq<char>,
    pub destination: Seq<char>,
    pub requested: SymlinkType,
}

/// A request for one link.
#[derive(Clone, PartialEq, Eq, Debug)]
pub struct LinkRequest {
    pub source: String,
    pub destination: String,
    pub requested: SymlinkType,
}

impl View for LinkRequest {
    type V = RequestModel;

    open spec fn view(&self) -> RequestModel {
        RequestModel {
            source: self.source@,
            destination: self.destination@,
            requested: self.requested,
        }
    }
}

/// Why a request failed, as a plain value.
pub enum ErrorModel {
    MissingInput,
    SourceNotFound,
    IoError { stage: IoStage, detail: Seq<char> },
    OperationCancelled,
}

/// Why a request failed.
#[derive(Clone, PartialEq, Eq, Debug)]
pub enum EngineError {
    /// The source or the destination was left empty.
    MissingInput,
    /// Nothing exists at the source.
    SourceNotFound,
    /// The filesystem refused an operation; `detail` is what it said.
    IoError { stage: IoStage, detail: String },
    /// A merge was offered and declined.
    OperationCancelled,
}

impl View for EngineError {
    type V = ErrorModel;

    open spec fn view(&self) -> ErrorModel {
        match self {
            EngineError::MissingInput => ErrorModel::MissingInput,
            EngineError::SourceNotFound => ErrorModel::SourceNotFound,
            EngineError::IoError { stage, detail } => ErrorModel::IoError {
                stage: *stage,
                detail: detail@,
            },
            EngineError::OperationCancelled => ErrorModel::OperationCancelled,
        }
    }
}

/// The words that introduce the filesystem's own text for each stage.
pub open spec fn stage_text(stage: IoStage) -> Seq<char> {
    match stage {
        IoStage::Merge => "Error merging folders: "@,
        IoStage::RemoveDestination => "Error removing original destination folder: "@,
        IoStage::Link => "Error creating symlink: "@,
        IoStage::LinkAfterMerge => "Error creating symlink after merge: "@,
    }
}

/// The description of an error that is shown to a person.
pub open spec fn error_text(error: ErrorModel) -> Seq<char> {
    match error {
        ErrorModel::MissingInput => "Please select both source and destination."@,
        ErrorModel::SourceNotFound => "Source does not exist."@,
        ErrorModel::IoError { stage, detail } => stage_text(stage) + detail,
        ErrorModel::OperationCancelled => "Operation cancelled."@,
    }
}

/// The words of success: one text for a plain link, one for a link after a merge.
pub open spec fn success_text(merged: bool) -> Seq<char> {
    if merged {
        "Folders merged and symlink created successfully!"@
    } else {
        "Symlink created successfully!"@
    }
}

/// The stage to blame when making the link fails.
pub open spec fn link_stage(merged: bool) -> IoStage {
    if merged {
        IoStage::LinkAfterMerge
    } else {
        IoStage::Link
    }
}

impl IoStage {
    /// The words that introduce the filesystem's own text.
    pub fn prefix(&self) -> (text: &'static str)
        ensures
            text@ == stage_text(*self),
    {
        match self {
            IoStage::Merge => "Error merging folders: ",
            IoStage::RemoveDestination => "Error removing original destination folder: ",
            IoStage::Link => "Error creating symlink: ",
            IoStage::LinkAfterMerge => "Error creating symlink after merge: ",
        }
    }

    /// The stage to blame when making the link fails.
    pub fn of_link(merged: bool) -> (stage: IoStage)
        ensures
            stage == link_stage(merged),
    {
        if merged {
            IoStage::LinkAfterMerge
        } else {
            IoStage::Link
        }
    }
}

impl EngineError {
    /// The description of the error that is shown to a person.
    pub fn message(&self) -> (text: String)
        ensures
            text@ == error_text(self@),
    {
        match self {
            EngineError::MissingInput => String::from_str(
                "Please select both source and destination.",
            ),
            EngineError::SourceNotFound => String::from_str("Source does not exist."),
            EngineError::IoError { stage, detail } => String::from_str(stage.prefix()).concat(
                detail.as_str(),
            ),
            EngineError::OperationCancelled => String::from_str("Operation cancelled."),
        }
    }
}

/// How a request ended, as a plain value.
pub enum OutcomeModel {
    Success(Seq<char>),
    Error(ErrorModel),
    ConfirmationRequired,
}

/// How a request ended, or why it is held up.
#[derive(Clone, PartialEq, Eq, Debug)]
pub enum Outcome {
    /// The link was made; the text says so.
    Success(String),
    /// The request failed and nothing more will be done for it.
    Error(EngineError),
    /// The destination exists: the request waits for a yes or a no.
    ConfirmationRequired,
}

impl View for Outcome {
    type V = OutcomeModel;

    open spec fn view(&self) -> OutcomeModel {
        match self {
            Outcome::Success(text) => OutcomeModel::Success(text@),
            Outcome::Error(error) => OutcomeModel::Error(error@),
            Outcome::ConfirmationRequired => OutcomeModel::ConfirmationRequired,
        }
    }
}

impl Outcome {
    /// The outcome of a link that was made.
    pub fn success(merged: bool) -> (outcome: Outcome)
        ensures
            outcome@ == OutcomeModel::Success(success_text(merged)),
    {
        if merged {
            Outcome::Success(String::from_str("Folders merged and symlink created successfully!"))
        } else {
            Outcome::Success(String::from_str("Symlink created successfully!"))
        }
    }

    /// The text to show: the words of success, or the error's description.
    /// An outcome that asks for confirmation has none.
    pub fn message(&self) -> (text: Option<String>)
        ensures
            match self@ {
                OutcomeModel::Success(words) => text is Some && text->0@ == words,
                OutcomeModel::Error(error) => text is Some && text->0@ == error_text(error),
                OutcomeModel::ConfirmationRequired => text is None,
            },
    {
        match self {
            Outcome::Success(words) => Some(words.clone()),
            Outcome::Error(error) => Some(error.message()),
            Outcome::ConfirmationRequired => None,
        }
    }
}

} // verus!
