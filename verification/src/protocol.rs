//! The filesystem requests that the engine hands out, and the replies it takes.
//!
//! A driver performs each request on the real filesystem and reports what
//! happened. Paths inside the two trees of a merge are given by their names
//! below a root, so that joining them is left to the platform.

use vstd::prelude::*;
use crate::outcome::{LinkKind, Outcome, OutcomeModel};

verus! {

/// A place below a root, as a plain value.
pub struct LocationModel {
    pub root: Seq<char>,
    pub relative: Seq<Seq<char>>,
}

/// A place in a tree: the root's path, and the names that lead down from it.
#[derive(Clone, PartialEq, Eq, Debug)]
pub struct Location {
    pub root: String,
    pub relative: Vec<String>,
}

impl View for Location {
    type V = LocationModel;

    open spec fn view(&self) -> LocationModel {
        LocationModel { root: self.root@, relative: self.relative.deep_view() }
    }
}

/// One entry of a directory, as a plain value.
pub struct EntryModel {
    pub name: Seq<char>,
    pub is_dir: bool,
}

/// One entry of a directory: its name, and whether it is itself a directory.
#[derive(Clone, PartialEq, Eq, Debug)]
pub struct DirEntry {
    pub name: String,
    pub is_dir: bool,
}

impl View for DirEntry {
    type V = EntryModel;

    open spec fn view(&self) -> EntryModel {
        EntryModel { name: self.name@, is_dir: self.is_dir }
    }
}

/// The plain values of a list of entries.
pub open spec fn entry_models(entries: Seq<DirEntry>) -> Seq<EntryModel> {
    Seq::new(entries.len(), |i: int| entries[i]@)
}

/// A filesystem request, as a plain value.
pub enum RequestKind {
    Exists { path: Seq<char> },
    IsDir { path: Seq<char> },
    ParentExists { path: Seq<char> },
    CreateParent { path: Seq<char> },
    ListDir { dir: LocationModel },
    CreateDirAll { dir: LocationModel },
    CopyFile { from: LocationModel, to: LocationModel },
    RemoveDirAll { path: Seq<char> },
    Symlink { kind: LinkKind, source: Seq<char>, destination: Seq<char> },
}

/// One operation for the driver to perform on the filesystem.
#[derive(Clone, PartialEq, Eq, Debug)]
pub enum FsRequest {
    /// Is there anything at `path`? Answered with `FsReply::Answer`.
    Exists { path: String },
    /// Is `path` a directory? Answered with `FsReply::Answer`.
    IsDir { path: String },
    /// Does the directory that is to hold `path` exist? Answered with
    /// `FsReply::Answer`; a path that lies in no directory counts as held.
    ParentExists { path: String },
    /// Create the directory that is to hold `path`, and its missing ancestors.
    CreateParent { path: String },
    /// Read the entries of the directory `dir`. Answered with `FsReply::Entries`.
    ListDir { dir: Location },
    /// Create the directory `dir` and its missing ancestors.
    CreateDirAll { dir: Location },
    /// Copy the bytes of the file `from` to `to`, replacing what is there.
    CopyFile { from: Location, to: Location },
    /// Remove `path` and everything below it.
    RemoveDirAll { path: String },
    /// Create a link of the given kind at `destination` that points to `source`.
    Symlink { kind: LinkKind, source: String, destination: String },
}

impl View for FsRequest {
    type V = RequestKind;

    open spec fn view(&self) -> RequestKind {
        match self {
            FsRequest::Exists { path } => RequestKind::Exists { path: path@ },
            FsRequest::IsDir { path } => RequestKind::IsDir { path: path@ },
            FsRequest::ParentExists { path } => RequestKind::ParentExists { path: path@ },
            FsRequest::CreateParent { path } => RequestKind::CreateParent { path: path@ },
            FsRequest::ListDir { dir } => RequestKind::ListDir { dir: dir@ },
            FsRequest::CreateDirAll { dir } => RequestKind::CreateDirAll { dir: dir@ },
            FsRequest::CopyFile { from, to } => RequestKind::CopyFile { from: from@, to: to@ },
            FsRequest::RemoveDirAll { path } => RequestKind::RemoveDirAll { path: path@ },
            FsRequest::Symlink { kind, source, destination } => RequestKind::Symlink {
                kind: *kind,
                source: source@,
                destination: destination@,
            },
        }
    }
}

/// A reply, as a plain value.
pub enum ReplyModel {
    Answer(bool),
    Entries(Seq<EntryModel>),
    Done,
    Failed(Seq<char>),
}

/// What the driver reports after it performed a request.
#[derive(Clone, PartialEq, Eq, Debug)]
pub enum FsReply {
    /// The answer to a question.
    Answer(bool),
    /// The entries of the directory that was read.
    Entries(Vec<DirEntry>),
    /// The operation was carried out.
    Done,
    /// The filesystem refused; the text is what it said.
    Failed(String),
}

impl View for FsReply {
    type V = ReplyModel;

    open spec fn view(&self) -> ReplyModel {
        match self {
            FsReply::Answer(yes) => ReplyModel::Answer(*yes),
            FsReply::Entries(entries) => ReplyModel::Entries(entry_models(entries@)),
            FsReply::Done => ReplyModel::Done,
            FsReply::Failed(detail) => ReplyModel::Failed(detail@),
        }
    }
}

/// What the engine wants next, as a plain value.
pub enum StepModel {
    Perform(RequestKind),
    Finished(OutcomeModel),
}

/// What the engine wants next.
#[derive(Clone, PartialEq, Eq, Debug)]
pub enum Step {
    /// Perform this request and hand the reply to `resume`.
    Perform(FsRequest),
    /// Nothing more to perform: the request ended, or waits for confirmation.
    Finished(Outcome),
}

impl View for Step {
    type V = StepModel;

    open spec fn view(&self) -> StepModel {
        match self {
            Step::Perform(request) => StepModel::Perform(request@),
            Step::Finished(outcome) => StepModel::Finished(outcome@),
        }
    }
}

/// A copy of a list of names.
pub fn copy_names(names: &Vec<String>) -> (copy: Vec<String>)
    ensures
        copy.deep_view() == names.deep_view(),
{
    let mut copy: Vec<String> = Vec::new();
    let mut i: usize = 0;
    while i < names.len()
        invariant
            i <= names@.len(),
            copy@.len() == i,
            forall|j: int| 0 <= j < i ==> (#[trigger] copy@[j])@ == names@[j]@,
        decreases names@.len() - i,
    {
        copy.push(names[i].clone());
        i += 1;
    }
    copy
}

impl Location {
    /// The root itself.
    pub fn root_of(root: &str) -> (place: Location)
        ensures
            place@ == (LocationModel { root: root@, relative: Seq::empty() }),
    {
        let place = Location { root: String::from_str(root), relative: Vec::new() };
        assert(place.relative.deep_view() =~= Seq::<Seq<char>>::empty());
        place
    }

    /// The place of the given names below `root`.
    pub fn below(root: &str, names: &Vec<String>) -> (place: Location)
        ensures
            place@ == (LocationModel { root: root@, relative: names.deep_view() }),
    {
        Location { root: String::from_str(root), relative: copy_names(names) }
    }
}

} // verus!
