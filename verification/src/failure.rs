//! Why a run ended without consolidating, and how bad that is.
use vstd::prelude::*;

verus! {

/// The operations of a run, in the order in which they are performed.
#[derive(Clone, Copy, Debug, PartialEq, Eq)]
pub enum Step {
    /// Open the target for reading and writing, refusing a symbolic link at
    /// the last component of its path.
    Open,
    /// Ask which filesystem holds the target.
    QueryFilesystem,
    /// Ask for the target's mode, inode number and length.
    QueryMetadata,
    /// Resolve the target's real path, to find its directory.
    ResolveDirectory,
    /// Create the scratch file in that directory, failing if it exists.
    CreateScratch,
    /// Remove the scratch file's directory entry, keeping its handle.
    UnlinkScratch,
    /// Allocate the scratch file's whole range.
    Preallocate,
    /// Copy the target's bytes into the scratch file, byte by byte.
    CopyToScratch,
    /// Force the scratch file to stable storage.
    Flush,
    /// Move the target's cursor to offset 0.
    RewindTarget,
    /// Move the scratch file's cursor to offset 0.
    RewindScratch,
    /// Copy the scratch file over the target, sharing extents.
    CopyBack,
}

/// What went wrong in a step.
#[derive(Clone, Copy, Debug, PartialEq, Eq)]
pub enum Cause {
    /// The target lies on a filesystem that is not supported.
    UnsupportedFilesystem,
    /// The target is not a regular file.
    NotRegularFile,
    /// The operating system refused the operation, with this error number.
    System(i32),
    /// The caller reported something that the step cannot end with.
    UnexpectedReply,
}

/// How much harm a failure can have done.
#[derive(Clone, Copy, Debug, PartialEq, Eq)]
pub enum Category {
    /// Found before anything was created or changed.
    Precondition,
    /// Found while the scratch file was set up; the target is untouched.
    Resource,
    /// Found while only the scratch file was written; the target is untouched.
    Io,
    /// Found while the target was written back: it may be partly rewritten.
    PartialRewrite,
}

/// A failed run: the step that failed and why.
#[derive(Clone, Copy, Debug, PartialEq, Eq)]
pub struct DefragError {
    pub step: Step,
    pub cause: Cause,
}

impl Step {
    /// The step's place in the run, from 0.
    pub open spec fn index(self) -> nat {
        match self {
            Step::Open => 0,
            Step::QueryFilesystem => 1,
            Step::QueryMetadata => 2,
            Step::ResolveDirectory => 3,
            Step::CreateScratch => 4,
            Step::UnlinkScratch => 5,
            Step::Preallocate => 6,
            Step::CopyToScratch => 7,
            Step::Flush => 8,
            Step::RewindTarget => 9,
            Step::RewindScratch => 10,
            Step::CopyBack => 11,
        }
    }

    /// The step at a place in the run; past the end, the last one.
    pub open spec fn at(i: nat) -> Step {
        if i == 0 {
            Step::Open
        } else if i == 1 {
            Step::QueryFilesystem
        } else if i == 2 {
            Step::QueryMetadata
        } else if i == 3 {
            Step::ResolveDirectory
        } else if i == 4 {
            Step::CreateScratch
        } else if i == 5 {
            Step::UnlinkScratch
        } else if i == 6 {
            Step::Preallocate
        } else if i == 7 {
            Step::CopyToScratch
        } else if i == 8 {
            Step::Flush
        } else if i == 9 {
            Step::RewindTarget
        } else if i == 10 {
            Step::RewindScratch
        } else {
            Step::CopyBack
        }
    }

    /// The step that follows, if any.
    pub open spec fn successor(self) -> Option<Step> {
        if self == Step::CopyBack {
            None
        } else {
            Some(Step::at(self.index() + 1))
        }
    }

    /// How a failure of this step is classified.
    pub open spec fn category(self) -> Category {
        if self.index() <= Step::ResolveDirectory.index() {
            Category::Precondition
        } else if self.index() <= Step::Preallocate.index() {
            Category::Resource
        } else if self.index() <= Step::RewindScratch.index() {
            Category::Io
        } else {
            Category::PartialRewrite
        }
    }

    /// The step that follows this one; `None` after the last.
    pub fn next(self) -> (following: Option<Step>)
        ensures
            following == self.successor(),
    {
        match self {
            Step::Open => Some(Step::QueryFilesystem),
            Step::QueryFilesystem => Some(Step::QueryMetadata),
            Step::QueryMetadata => Some(Step::ResolveDirectory),
            Step::ResolveDirectory => Some(Step::CreateScratch),
            Step::CreateScratch => Some(Step::UnlinkScratch),
            Step::UnlinkScratch => Some(Step::Preallocate),
            Step::Preallocate => Some(Step::CopyToScratch),
            Step::CopyToScratch => Some(Step::Flush),
            Step::Flush => Some(Step::RewindTarget),
            Step::RewindTarget => Some(Step::RewindScratch),
            Step::RewindScratch => Some(Step::CopyBack),
            Step::CopyBack => None,
        }
    }
}

impl DefragError {
    /// The failure's category: that of the step in which it came.
    pub open spec fn spec_category(self) -> Category {
        self.step.category()
    }

    /// Whether the target is sure to hold what it held before the run.
    pub open spec fn spec_target_untouched(self) -> bool {
        self.step != Step::CopyBack
    }

    /// Whether the failure came before the scratch file could exist.
    pub open spec fn spec_before_scratch(self) -> bool {
        self.step.index() <= Step::CreateScratch.index()
    }

    /// The failure's category.
    pub fn category(&self) -> (found: Category)
        ensures
            found == self.spec_category(),
    {
        match self.step {
            Step::Open | Step::QueryFilesystem | Step::QueryMetadata | Step::ResolveDirectory => {
                Category::Precondition
            },
            Step::CreateScratch | Step::UnlinkScratch | Step::Preallocate => Category::Resource,
            Step::CopyToScratch | Step::Flush | Step::RewindTarget | Step::RewindScratch => {
                Category::Io
            },
            Step::CopyBack => Category::PartialRewrite,
        }
    }

    /// Whether the target is sure to hold what it held before the run: true of
    /// every failure but one of the copy back.
    pub fn target_untouched(&self) -> (safe: bool)
        ensures
            safe == self.spec_target_untouched(),
            safe == (self.spec_category() != Category::PartialRewrite),
    {
        match self.step {
            Step::CopyBack => false,
            _ => true,
        }
    }

    /// Whether the failure came before the scratch file could exist: in a
    /// check of the target, or in creating the scratch file itself.
    pub fn before_scratch(&self) -> (none: bool)
        ensures
            none == self.spec_before_scratch(),
            self.spec_category() == Category::Precondition ==> none,
    {
        match self.step {
            Step::Open | Step::QueryFilesystem | Step::QueryMetadata | Step::ResolveDirectory
            | Step::CreateScratch => true,
            _ => false,
        }
    }
}

/// The steps are numbered one after another, and `at` finds each again.
pub proof fn step_numbering(step: Step)
    ensures
        step.index() < 12,
        Step::at(step.index()) == step,
        match step.successor() {
            Some(following) => following.index() == step.index() + 1,
            None => step.index() == 11,
        },
{
}

} // verus!
