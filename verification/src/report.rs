//! Failures in words, for the operator.
use vstd::prelude::*;
use vstd::string::StringExecFns;
use crate::failure::{Cause, DefragError, Step};
use crate::text::{append_signed, signed_decimal};

verus! {

/// What a step sets out to do, in words.
pub open spec fn label_of(step: Step) -> Seq<char> {
    match step {
        Step::Open => "open the target"@,
        Step::QueryFilesystem => "query the filesystem"@,
        Step::QueryMetadata => "query the target's metadata"@,
        Step::ResolveDirectory => "resolve the target's directory"@,
        Step::CreateScratch => "create the scratch file"@,
        Step::UnlinkScratch => "unlink the scratch file"@,
        Step::Preallocate => "preallocate the scratch file"@,
        Step::CopyToScratch => "copy the target to the scratch file"@,
        Step::Flush => "flush the scratch file"@,
        Step::RewindTarget => "rewind the target"@,
        Step::RewindScratch => "rewind the scratch file"@,
        Step::CopyBack => "copy the scratch file back"@,
    }
}

/// What is added to the message of a failure that may have harmed the target.
pub open spec fn warning() -> Seq<char> {
    "; the target may be partly rewritten"@
}

/// The message of a failure, for a target at the given path: what went wrong,
/// in which step where the cause does not say, and a warning where the target
/// may have been harmed.
pub open spec fn message_of(error: DefragError, path: Seq<char>) -> Seq<char> {
    let told = match error.cause {
        Cause::UnsupportedFilesystem => "filesystem is not btrfs"@,
        Cause::NotRegularFile => "'"@ + path + "' is not a regular file"@,
        Cause::System(code) => "cannot "@ + label_of(error.step) + ": system error "@
            + signed_decimal(code as int),
        Cause::UnexpectedReply => "cannot "@ + label_of(error.step) + ": unexpected reply"@,
    };
    if error.spec_target_untouched() {
        told
    } else {
        told + warning()
    }
}

impl Step {
    /// What the step sets out to do, in words.
    pub fn label(self) -> (text: &'static str)
        ensures
            text@ == label_of(self),
    {
        match self {
            Step::Open => "open the target",
            Step::QueryFilesystem => "query the filesystem",
            Step::QueryMetadata => "query the target's metadata",
            Step::ResolveDirectory => "resolve the target's directory",
            Step::CreateScratch => "create the scratch file",
            Step::UnlinkScratch => "unlink the scratch file",
            Step::Preallocate => "preallocate the scratch file",
            Step::CopyToScratch => "copy the target to the scratch file",
            Step::Flush => "flush the scratch file",
            Step::RewindTarget => "rewind the target",
            Step::RewindScratch => "rewind the scratch file",
            Step::CopyBack => "copy the scratch file back",
        }
    }
}

impl DefragError {
    /// The failure in words, for a target at the given path.
    pub fn message(&self, path: &str) -> (text: String)
        ensures
            text@ == message_of(*self, path@),
    {
        let mut text = String::new();
        match self.cause {
            Cause::UnsupportedFilesystem => {
                text.append("filesystem is not btrfs");
            },
            Cause::NotRegularFile => {
                text.append("'");
                text.append(path);
                text.append("' is not a regular file");
            },
            Cause::System(code) => {
                text.append("cannot ");
                text.append(self.step.label());
                text.append(": system error ");
                append_signed(&mut text, code);
            },
            Cause::UnexpectedReply => {
                text.append("cannot ");
                text.append(self.step.label());
                text.append(": unexpected reply");
            },
        }
        if !self.target_untouched() {
            text.append("; the target may be partly rewritten");
        }
        assert(text@ =~= message_of(*self, path@));
        text
    }
}

} // verus!
