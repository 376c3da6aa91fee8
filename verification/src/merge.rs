//! The merge: a depth-first walk over the tree that is in the way, which
//! copies every file and directory of it to the same place below the source.
//!
//! The walk reads one directory at a time and finishes each entry, with all
//! that lies below it, before it turns to the next. What is already at the
//! target is overwritten without a question: the walk does not look for
//! collisions. A refusal of the filesystem stops the walk where it stands,
//! and what was copied until then stays.

use vstd::prelude::*;
use crate::protocol::{
    copy_names, entry_models, DirEntry, EntryModel, FsReply, FsRequest, Location, LocationModel,
    ReplyModel, RequestKind,
};

verus! {

/// A directory whose entries are being worked through, as a plain value.
pub struct FrameModel {
    /// The names that lead from the root to the directory.
    pub dir: Seq<Seq<char>>,
    /// Its entries, in the order in which they were read.
    pub entries: Seq<EntryModel>,
    /// How many of them were taken up.
    pub next: nat,
}

/// What a walk waits for, as a plain value.
pub enum WaitModel {
    /// The entries of this directory of the tree that is read.
    Listing(Seq<Seq<char>>),
    /// The creation of this directory in the tree that is written.
    DirCreated(Seq<Seq<char>>),
    /// The copy of a file.
    Copied,
    /// Nothing: the walk has not begun, or it is over.
    Nothing,
}

/// A walk, as a plain value.
pub struct WalkModel {
    /// The root of the tree that is read.
    pub from: Seq<char>,
    /// The root of the tree that is written.
    pub to: Seq<char>,
    /// The directories that are open, the outermost first.
    pub frames: Seq<FrameModel>,
    pub wait: WaitModel,
}

/// What a walk wants next, as a plain value.
pub enum WalkStepModel {
    Perform(RequestKind),
    Complete,
    Failed(Seq<char>),
}

/// A walk that is over.
pub open spec fn stopped(from: Seq<char>, to: Seq<char>) -> WalkModel {
    WalkModel { from, to, frames: Seq::empty(), wait: WaitModel::Nothing }
}

/// The walk at its beginning, and its first request: the entries of the root.
pub open spec fn walk_start(from: Seq<char>, to: Seq<char>) -> (WalkModel, RequestKind) {
    (
        WalkModel { from, to, frames: Seq::empty(), wait: WaitModel::Listing(Seq::empty()) },
        RequestKind::ListDir { dir: LocationModel { root: from, relative: Seq::empty() } },
    )
}

/// The walk after it turned to the next entry that is left: the innermost
/// open directory that has one gives it, and directories that have none are
/// closed on the way. A directory entry is created at the target first, a
/// file entry is copied. With no directory open the walk is complete.
pub open spec fn proceed_from(from: Seq<char>, to: Seq<char>, frames: Seq<FrameModel>) -> (
    WalkModel,
    WalkStepModel,
)
    decreases frames.len(),
{
    if frames.len() == 0 {
        (stopped(from, to), WalkStepModel::Complete)
    } else {
        let top = frames.last();
        if top.next >= top.entries.len() {
            proceed_from(from, to, frames.drop_last())
        } else {
            let entry = top.entries[top.next as int];
            let child = top.dir.push(entry.name);
            let kept = frames.drop_last().push(
                FrameModel { dir: top.dir, entries: top.entries, next: top.next + 1 },
            );
            if entry.is_dir {
                (
                    WalkModel { from, to, frames: kept, wait: WaitModel::DirCreated(child) },
                    WalkStepModel::Perform(
                        RequestKind::CreateDirAll {
                            dir: LocationModel { root: to, relative: child },
                        },
                    ),
                )
            } else {
                (
                    WalkModel { from, to, frames: kept, wait: WaitModel::Copied },
                    WalkStepModel::Perform(
                        RequestKind::CopyFile {
                            from: LocationModel { root: from, relative: child },
                            to: LocationModel { root: to, relative: child },
                        },
                    ),
                )
            }
        }
    }
}

/// Whether `reply` answers what the walk waits for.
pub open spec fn walk_accepts(wait: WaitModel, reply: ReplyModel) -> bool {
    match wait {
        WaitModel::Listing(_) => reply is Entries || reply is Failed,
        WaitModel::DirCreated(_) => reply is Done || reply is Failed,
        WaitModel::Copied => reply is Done || reply is Failed,
        WaitModel::Nothing => false,
    }
}

/// The walk after a reply, and what it wants next; nothing where the reply
/// does not answer what the walk waits for. A refusal ends the walk. Entries
/// that were read open their directory; a directory that was created is read
/// next; after a copy the walk turns to the next entry.
pub open spec fn walk_next(walk: WalkModel, reply: ReplyModel) -> Option<
    (WalkModel, WalkStepModel),
> {
    match (walk.wait, reply) {
        (WaitModel::Listing(dir), ReplyModel::Entries(entries)) => Some(
            proceed_from(
                walk.from,
                walk.to,
                walk.frames.push(FrameModel { dir, entries, next: 0 }),
            ),
        ),
        (WaitModel::DirCreated(dir), ReplyModel::Done) => Some(
            (
                WalkModel {
                    from: walk.from,
                    to: walk.to,
                    frames: walk.frames,
                    wait: WaitModel::Listing(dir),
                },
                WalkStepModel::Perform(
                    RequestKind::ListDir { dir: LocationModel { root: walk.from, relative: dir } },
                ),
            ),
        ),
        (WaitModel::Copied, ReplyModel::Done) => Some(
            proceed_from(walk.from, walk.to, walk.frames),
        ),
        (WaitModel::Listing(_), ReplyModel::Failed(detail)) => Some(
            (stopped(walk.from, walk.to), WalkStepModel::Failed(detail)),
        ),
        (WaitModel::DirCreated(_), ReplyModel::Failed(detail)) => Some(
            (stopped(walk.from, walk.to), WalkStepModel::Failed(detail)),
        ),
        (WaitModel::Copied, ReplyModel::Failed(detail)) => Some(
            (stopped(walk.from, walk.to), WalkStepModel::Failed(detail)),
        ),
        _ => None,
    }
}

/// What a walk wants next.
#[derive(Clone, PartialEq, Eq, Debug)]
pub enum WalkStep {
    /// Perform this request and hand the reply to `advance`.
    Perform(FsRequest),
    /// Every entry was copied.
    Complete,
    /// The filesystem refused; the text is what it said.
    Failed(String),
}

impl View for WalkStep {
    type V = WalkStepModel;

    open spec fn view(&self) -> WalkStepModel {
        match self {
            WalkStep::Perform(request) => WalkStepModel::Perform(request@),
            WalkStep::Complete => WalkStepModel::Complete,
            WalkStep::Failed(detail) => WalkStepModel::Failed(detail@),
        }
    }
}

struct Frame {
    dir: Vec<String>,
    entries: Vec<DirEntry>,
    next: usize,
}

impl View for Frame {
    type V = FrameModel;

    closed spec fn view(&self) -> FrameModel {
        FrameModel {
            dir: self.dir.deep_view(),
            entries: entry_models(self.entries@),
            next: self.next as nat,
        }
    }
}

#[derive(Clone, Copy)]
enum Wait {
    Listing,
    DirCreated,
    Copied,
    Nothing,
}

/// A merge in progress: the open directories of the tree that is read, and
/// what the walk waits for.
pub struct MergeWalk {
    from: String,
    to: String,
    frames: Vec<Frame>,
    wait: Wait,
    pending: Vec<String>,
}

spec fn frame_models(frames: Seq<Frame>) -> Seq<FrameModel> {
    Seq::new(frames.len(), |i: int| frames[i]@)
}

impl View for MergeWalk {
    type V = WalkModel;

    closed spec fn view(&self) -> WalkModel {
        WalkModel {
            from: self.from@,
            to: self.to@,
            frames: frame_models(self.frames@),
            wait: match self.wait {
                Wait::Listing => WaitModel::Listing(self.pending.deep_view()),
                Wait::DirCreated => WaitModel::DirCreated(self.pending.deep_view()),
                Wait::Copied => WaitModel::Copied,
                Wait::Nothing => WaitModel::Nothing,
            },
        }
    }
}

impl MergeWalk {
    /// A walk that copies the tree at `from` into the tree at `to`, and its
    /// first request.
    pub fn start(from: &str, to: &str) -> (begun: (MergeWalk, FsRequest))
        ensures
            (begun.0@, begun.1@) == walk_start(from@, to@),
    {
        let walk = MergeWalk {
            from: String::from_str(from),
            to: String::from_str(to),
            frames: Vec::new(),
            wait: Wait::Listing,
            pending: Vec::new(),
        };
        let request = FsRequest::ListDir { dir: Location::root_of(from) };
        proof {
            assert(walk.pending.deep_view() =~= Seq::<Seq<char>>::empty());
            assert(frame_models(walk.frames@) =~= Seq::<FrameModel>::empty());
        }
        (walk, request)
    }

    /// A walk that is over and waits for nothing.
    pub fn idle() -> (walk: MergeWalk)
        ensures
            walk@ == stopped(Seq::empty(), Seq::empty()),
    {
        let walk = MergeWalk {
            from: String::new(),
            to: String::new(),
            frames: Vec::new(),
            wait: Wait::Nothing,
            pending: Vec::new(),
        };
        proof {
            assert(frame_models(walk.frames@) =~= Seq::<FrameModel>::empty());
        }
        walk
    }

    /// Whether `reply` answers what the walk waits for.
    pub fn accepts(&self, reply: &FsReply) -> (accepted: bool)
        ensures
            accepted == walk_accepts(self@.wait, reply@),
    {
        match self.wait {
            Wait::Listing => match reply {
                FsReply::Entries(_) => true,
                FsReply::Failed(_) => true,
                _ => false,
            },
            Wait::DirCreated => match reply {
                FsReply::Done => true,
                FsReply::Failed(_) => true,
                _ => false,
            },
            Wait::Copied => match reply {
                FsReply::Done => true,
                FsReply::Failed(_) => true,
                _ => false,
            },
            Wait::Nothing => false,
        }
    }

    fn stop(&mut self)
        ensures
            final(self)@ == stopped(old(self)@.from, old(self)@.to),
    {
        self.frames = Vec::new();
        self.wait = Wait::Nothing;
        self.pending = Vec::new();
        proof {
            assert(frame_models(self.frames@) =~= Seq::<FrameModel>::empty());
        }
    }

    fn proceed(&mut self) -> (step: WalkStep)
        ensures
            (final(self)@, step@) == proceed_from(
                old(self)@.from,
                old(self)@.to,
                old(self)@.frames,
            ),
    {
        loop
            invariant
                self.from@ == old(self).from@,
                self.to@ == old(self).to@,
                proceed_from(self.from@, self.to@, frame_models(self.frames@)) == proceed_from(
                    old(self)@.from,
                    old(self)@.to,
                    old(self)@.frames,
                ),
            decreases self.frames@.len(),
        {
            let ghost before = frame_models(self.frames@);
            match self.frames.pop() {
                None => {
                    self.stop();
                    return WalkStep::Complete;
                },
                Some(top) => {
                    proof {
                        assert(frame_models(self.frames@) =~= before.drop_last());
                    }
                    if top.next < top.entries.len() {
                        let mut top = top;
                        let ghost held = top@;
                        let mut child = copy_names(&top.dir);
                        child.push(top.entries[top.next].name.clone());
                        let is_dir = top.entries[top.next].is_dir;
                        let ghost entry = top.entries@[top.next as int]@;
                        proof {
                            assert(child.deep_view() =~= held.dir.push(entry.name));
                        }
                        top.next = top.next + 1;
                        self.frames.push(top);
                        proof {
                            assert(frame_models(self.frames@) =~= before.drop_last().push(
                                FrameModel {
                                    dir: held.dir,
                                    entries: held.entries,
                                    next: held.next + 1,
                                },
                            ));
                        }
                        if is_dir {
                            self.wait = Wait::DirCreated;
                            self.pending = copy_names(&child);
                            return WalkStep::Perform(
                                FsRequest::CreateDirAll {
                                    dir: Location { root: self.to.clone(), relative: child },
                                },
                            );
                        } else {
                            self.wait = Wait::Copied;
                            return WalkStep::Perform(
                                FsRequest::CopyFile {
                                    from: Location::below(self.from.as_str(), &child),
                                    to: Location { root: self.to.clone(), relative: child },
                                },
                            );
                        }
                    }
                },
            }
        }
    }

    /// Takes the reply to the last request and says what the walk wants next.
    /// A reply that does not answer what the walk waits for changes nothing
    /// and gives nothing.
    pub fn advance(&mut self, reply: FsReply) -> (step: Option<WalkStep>)
        ensures
            match walk_next(old(self)@, reply@) {
                Some(moved) => step is Some && (final(self)@, step->0@) == moved,
                None => step is None && final(self)@ == old(self)@,
            },
            step is Some <==> walk_accepts(old(self)@.wait, reply@),
    {
        if !self.accepts(&reply) {
            return None;
        }
        match reply {
            FsReply::Failed(detail) => {
                self.stop();
                Some(WalkStep::Failed(detail))
            },
            FsReply::Entries(entries) => {
                let mut dir: Vec<String> = Vec::new();
                core::mem::swap(&mut self.pending, &mut dir);
                let ghost before = frame_models(self.frames@);
                let frame = Frame { dir, entries, next: 0 };
                let ghost opened = frame@;
                self.frames.push(frame);
                proof {
                    assert(frame_models(self.frames@) =~= before.push(opened));
                }
                Some(self.proceed())
            },
            FsReply::Done => {
                match self.wait {
                    Wait::DirCreated => {
                        self.wait = Wait::Listing;
                        Some(
                            WalkStep::Perform(
                                FsRequest::ListDir {
                                    dir: Location::below(self.from.as_str(), &self.pending),
                                },
                            ),
                        )
                    },
                    _ => Some(self.proceed()),
                }
            },
            FsReply::Answer(_) => None,
        }
    }
}

} // verus!
