//! The run as a machine: it hands out one action, learns how it went, and
//! hands out the next or the verdict.
use vstd::prelude::*;
use crate::failure::{Cause, DefragError, Step};
use crate::target::{is_regular_file, is_supported_filesystem, regular_file, supported_filesystem, TargetMeta};

verus! {

/// What the caller reports of the action it was asked for.
#[derive(Clone, Copy, Debug, PartialEq, Eq)]
pub enum Event {
    /// The action was done; it has nothing to tell.
    Completed,
    /// The filesystem was asked; this is its type tag.
    FilesystemType(i64),
    /// The target's metadata was read.
    Metadata(TargetMeta),
    /// The operating system refused, with this error number.
    Failed(i32),
}

/// What the caller is to do next.
#[derive(Clone, Copy, Debug, PartialEq, Eq)]
pub enum Action {
    /// Open the target for reading and writing, without following a symbolic
    /// link at the last component of its path.
    OpenTarget,
    /// Ask for the type of the filesystem that holds the target.
    QueryFilesystem,
    /// Ask for the target's metadata.
    QueryMetadata,
    /// Resolve the target's real path and take its directory.
    ResolveDirectory,
    /// Create the scratch file in that directory under the name that belongs
    /// to this inode number, for reading and writing, failing if it exists.
    CreateScratch { inode: u64 },
    /// Remove the scratch file's directory entry; keep the handle open.
    UnlinkScratch,
    /// Allocate this many bytes for the scratch file, from offset 0.
    Preallocate { length: i64 },
    /// Copy the target into the scratch file by reading and writing bytes,
    /// never by sharing extents.
    CopyToScratch,
    /// Force the scratch file's data to stable storage.
    Flush,
    /// Move the target's cursor to offset 0.
    RewindTarget,
    /// Move the scratch file's cursor to offset 0.
    RewindScratch,
    /// Copy the scratch file over the target by sharing extents.
    CopyBack,
    /// The run has succeeded: release both handles.
    Finish,
    /// The run has failed: release both handles and report the error.
    Abort(DefragError),
}

/// Where a run stands.
#[derive(Clone, Copy, Debug, PartialEq, Eq)]
pub enum Phase {
    /// The action of this step has been handed out; its event is awaited.
    Waiting(Step),
    /// Every step succeeded.
    Finished,
    /// A step failed; nothing further is done.
    Failed(DefragError),
}

/// One run of the consolidation of one file.
#[derive(Clone, Copy, Debug, PartialEq, Eq)]
pub struct Consolidator {
    /// Where the run stands.
    pub phase: Phase,
    /// The target's inode number, once its metadata is known; 0 before.
    pub inode: u64,
    /// The target's length, once its metadata is known; 0 before.
    pub length: i64,
}

/// Why an event does not let a step succeed; `None` where it does.
pub open spec fn refusal(step: Step, event: Event) -> Option<Cause> {
    match event {
        Event::Failed(code) => Some(Cause::System(code)),
        Event::FilesystemType(tag) => if step != Step::QueryFilesystem {
            Some(Cause::UnexpectedReply)
        } else if supported_filesystem(tag) {
            None
        } else {
            Some(Cause::UnsupportedFilesystem)
        },
        Event::Metadata(meta) => if step != Step::QueryMetadata {
            Some(Cause::UnexpectedReply)
        } else if regular_file(meta.mode) {
            None
        } else {
            Some(Cause::NotRegularFile)
        },
        Event::Completed => if step == Step::QueryFilesystem || step == Step::QueryMetadata {
            Some(Cause::UnexpectedReply)
        } else {
            None
        },
    }
}

/// Whether an event is the success of a step.
pub open spec fn accepted(step: Step, event: Event) -> bool {
    refusal(step, event) is None
}

/// The action that performs a step, for a target of this inode and length.
pub open spec fn request(step: Step, inode: u64, length: i64) -> Action {
    match step {
        Step::Open => Action::OpenTarget,
        Step::QueryFilesystem => Action::QueryFilesystem,
        Step::QueryMetadata => Action::QueryMetadata,
        Step::ResolveDirectory => Action::ResolveDirectory,
        Step::CreateScratch => Action::CreateScratch { inode },
        Step::UnlinkScratch => Action::UnlinkScratch,
        Step::Preallocate => Action::Preallocate { length },
        Step::CopyToScratch => Action::CopyToScratch,
        Step::Flush => Action::Flush,
        Step::RewindTarget => Action::RewindTarget,
        Step::RewindScratch => Action::RewindScratch,
        Step::CopyBack => Action::CopyBack,
    }
}

/// How many steps of a run have succeeded.
pub open spec fn progress(state: Consolidator) -> nat {
    match state.phase {
        Phase::Waiting(step) => step.index(),
        Phase::Finished => 12,
        Phase::Failed(error) => error.step.index(),
    }
}

/// Nothing is known of the target until its metadata has been accepted: the
/// inode number and the length are 0 until then.
pub open spec fn well_formed(state: Consolidator) -> bool {
    progress(state) <= Step::QueryMetadata.index() ==> state.inode == 0 && state.length == 0
}

/// Decides whether an event lets a step succeed, and if not, why not.
pub fn judge(step: Step, event: Event) -> (verdict: Option<Cause>)
    ensures
        verdict == refusal(step, event),
{
    match event {
        Event::Failed(code) => Some(Cause::System(code)),
        Event::FilesystemType(tag) => match step {
            Step::QueryFilesystem => if is_supported_filesystem(tag) {
                None
            } else {
                Some(Cause::UnsupportedFilesystem)
            },
            _ => Some(Cause::UnexpectedReply),
        },
        Event::Metadata(meta) => match step {
            Step::QueryMetadata => if is_regular_file(meta.mode) {
                None
            } else {
                Some(Cause::NotRegularFile)
            },
            _ => Some(Cause::UnexpectedReply),
        },
        Event::Completed => match step {
            Step::QueryFilesystem | Step::QueryMetadata => Some(Cause::UnexpectedReply),
            _ => None,
        },
    }
}

impl Consolidator {
    /// A run before its first event: the target is to be opened.
    pub open spec fn spec_new() -> Consolidator {
        Consolidator { phase: Phase::Waiting(Step::Open), inode: 0, length: 0 }
    }

    /// The action that is outstanding, or the verdict once the run is over.
    pub open spec fn spec_pending(self) -> Action {
        match self.phase {
            Phase::Waiting(step) => request(step, self.inode, self.length),
            Phase::Finished => Action::Finish,
            Phase::Failed(error) => Action::Abort(error),
        }
    }

    /// The run after one more event. A finished or failed run stays as it is.
    /// A refused event fails the run in the step that waited for it. An
    /// accepted one moves the run to the following step, or finishes it after
    /// the last; the metadata's inode number and length are kept.
    pub open spec fn spec_advance(self, event: Event) -> Consolidator {
        match self.phase {
            Phase::Waiting(step) => match refusal(step, event) {
                Some(cause) => Consolidator {
                    phase: Phase::Failed(DefragError { step, cause }),
                    ..self
                },
                None => {
                    let phase = match step.successor() {
                        Some(following) => Phase::Waiting(following),
                        None => Phase::Finished,
                    };
                    match event {
                        Event::Metadata(meta) => Consolidator {
                            phase,
                            inode: meta.inode,
                            length: meta.length,
                        },
                        _ => Consolidator { phase, ..self },
                    }
                },
            },
            _ => self,
        }
    }

    /// Whether the run is over, one way or the other.
    pub open spec fn spec_is_over(self) -> bool {
        !(self.phase is Waiting)
    }

    /// Starts a run. Its first action is to open the target.
    pub fn new() -> (run: Consolidator)
        ensures
            run == Consolidator::spec_new(),
            run.spec_pending() == Action::OpenTarget,
            well_formed(run),
    {
        Consolidator { phase: Phase::Waiting(Step::Open), inode: 0, length: 0 }
    }

    /// The action that the caller is to perform now, or the verdict.
    pub fn pending(&self) -> (action: Action)
        ensures
            action == self.spec_pending(),
    {
        match self.phase {
            Phase::Waiting(step) => match step {
                Step::Open => Action::OpenTarget,
                Step::QueryFilesystem => Action::QueryFilesystem,
                Step::QueryMetadata => Action::QueryMetadata,
                Step::ResolveDirectory => Action::ResolveDirectory,
                Step::CreateScratch => Action::CreateScratch { inode: self.inode },
                Step::UnlinkScratch => Action::UnlinkScratch,
                Step::Preallocate => Action::Preallocate { length: self.length },
                Step::CopyToScratch => Action::CopyToScratch,
                Step::Flush => Action::Flush,
                Step::RewindTarget => Action::RewindTarget,
                Step::RewindScratch => Action::RewindScratch,
                Step::CopyBack => Action::CopyBack,
            },
            Phase::Finished => Action::Finish,
            Phase::Failed(error) => Action::Abort(error),
        }
    }

    /// Whether the run is over: nothing is left to perform.
    pub fn is_over(&self) -> (over: bool)
        ensures
            over == self.spec_is_over(),
            over == (self.spec_pending() is Finish || self.spec_pending() is Abort),
    {
        match self.phase {
            Phase::Waiting(_) => false,
            _ => true,
        }
    }

    /// Takes the event of the outstanding action and returns what to do next.
    pub fn advance(&mut self, event: Event) -> (action: Action)
        ensures
            *final(self) == old(self).spec_advance(event),
            action == final(self).spec_pending(),
            well_formed(*old(self)) ==> well_formed(*final(self)),
    {
        if let Phase::Waiting(step) = self.phase {
            match judge(step, event) {
                Some(cause) => {
                    self.phase = Phase::Failed(DefragError { step, cause });
                },
                None => {
                    if let Event::Metadata(meta) = event {
                        self.inode = meta.inode;
                        self.length = meta.length;
                    }
                    self.phase = match step.next() {
                        Some(following) => Phase::Waiting(following),
                        None => Phase::Finished,
                    };
                },
            }
        }
        self.pending()
    }
}

} // verus!
