//! Whole runs: what a sequence of events leads to, and what holds of every
//! such sequence.
use vstd::prelude::*;
use crate::failure::{step_numbering, Category, Cause, DefragError, Step};
use crate::plan::{accepted, progress, refusal, request, Action, Consolidator, Event, Phase};
use crate::target::{regular_file, supported_filesystem, TargetMeta};

verus! {

/// The run after the given events, from its start.
pub open spec fn run(events: Seq<Event>) -> Consolidator
    decreases events.len(),
{
    if events.len() == 0 {
        Consolidator::spec_new()
    } else {
        run(events.drop_last()).spec_advance(events.last())
    }
}

/// The action that is handed out after the first `k` events.
pub open spec fn asked(events: Seq<Event>, k: int) -> Action {
    run(events.take(k)).spec_pending()
}

/// The first `n` events are the successes of the first `n` steps.
pub open spec fn succeeded(events: Seq<Event>, n: nat) -> bool {
    &&& n <= events.len()
    &&& forall|i: int| 0 <= i < n ==> accepted(Step::at(i as nat), #[trigger] events[i])
}

/// A state is explained by a history: the steps before the one it stands at
/// succeeded, in order; a waiting run has seen nothing else; a failed one has
/// then seen the event that its error records; and the inode number and length
/// are those of the metadata, once that step has succeeded.
pub open spec fn explains(events: Seq<Event>, state: Consolidator) -> bool {
    &&& succeeded(events, progress(state))
    &&& match state.phase {
        Phase::Waiting(step) => events.len() == step.index(),
        Phase::Finished => true,
        Phase::Failed(error) => {
            &&& events.len() > error.step.index()
            &&& refusal(error.step, events[error.step.index() as int]) == Some(error.cause)
        },
    }
    &&& progress(state) > 2 ==> {
        &&& events[2] is Metadata
        &&& events[2]->Metadata_0.inode == state.inode
        &&& events[2]->Metadata_0.length == state.length
    }
}

/// Replays a history from the start of a run.
pub fn replay(events: &Vec<Event>) -> (state: Consolidator)
    ensures
        state == run(events@),
{
    let mut state = Consolidator::new();
    let mut i: usize = 0;
    assert(events@.take(0) =~= Seq::<Event>::empty());
    while i < events.len()
        invariant
            i <= events.len(),
            state == run(events@.take(i as int)),
        decreases events.len() - i,
    {
        let _ = state.advance(events[i]);
        assert(events@.take(i + 1).drop_last() =~= events@.take(i as int));
        i += 1;
    }
    assert(events@.take(i as int) =~= events@);
    state
}

/// Whether the first steps succeeded does not depend on what came later.
pub proof fn succeeded_in_prefix(events: Seq<Event>, k: int, n: nat)
    requires
        n <= k <= events.len(),
    ensures
        succeeded(events.take(k), n) == succeeded(events, n),
{
    let head = events.take(k);
    if succeeded(head, n) {
        assert forall|i: int| 0 <= i < n implies accepted(Step::at(i as nat), #[trigger] events[i]) by {
            assert(head[i] == events[i]);
        }
    }
    if succeeded(events, n) {
        assert forall|i: int| 0 <= i < n implies accepted(Step::at(i as nat), #[trigger] head[i]) by {
            assert(head[i] == events[i]);
        }
    }
}

/// Every state that a run reaches is explained by its history.
pub proof fn run_explained(events: Seq<Event>)
    ensures
        explains(events, run(events)),
    decreases events.len(),
{
    if events.len() > 0 {
        let head = events.drop_last();
        let before = run(head);
        let after = run(events);
        run_explained(head);
        assert(head =~= events.take(head.len() as int));
        succeeded_in_prefix(events, head.len() as int, progress(before));
        match before.phase {
            Phase::Waiting(step) => {
                step_numbering(step);
                if accepted(step, events.last()) {
                    let n = progress(after);
                    assert(n == step.index() + 1);
                    assert forall|i: int| 0 <= i < n implies accepted(
                        Step::at(i as nat),
                        #[trigger] events[i],
                    ) by {
                        if i == step.index() {
                            assert(events[i] == events.last());
                        }
                    }
                    if n > 2 && step.index() > 2 {
                        assert(head[2] == events[2]);
                    }
                }
            },
            Phase::Finished => {},
            Phase::Failed(error) => {
                assert(head[error.step.index() as int] == events[error.step.index() as int]);
                if progress(before) > 2 {
                    assert(head[2] == events[2]);
                }
            },
        }
    }
}

/// What was asked after `k` events of a history is explained by those events.
pub proof fn asked_explained(events: Seq<Event>, k: int)
    requires
        0 <= k <= events.len(),
    ensures
        explains(events.take(k), run(events.take(k))),
        succeeded(events, progress(run(events.take(k)))),
        progress(run(events.take(k))) <= k,
{
    let head = events.take(k);
    run_explained(head);
    let state = run(head);
    match state.phase {
        Phase::Waiting(step) => {},
        Phase::Finished => {},
        Phase::Failed(error) => {},
    }
    succeeded_in_prefix(events, k, progress(state));
}

/// A run that is over stays as it is, whatever is reported to it.
pub proof fn over_is_final(events: Seq<Event>, more: Seq<Event>)
    requires
        run(events).spec_is_over(),
    ensures
        run(events + more) == run(events),
    decreases more.len(),
{
    if more.len() == 0 {
        assert(events + more =~= events);
    } else {
        over_is_final(events, more.drop_last());
        assert((events + more).drop_last() =~= events + more.drop_last());
    }
}

/// The scratch file is created only after the checks have passed: when its
/// creation is asked for, exactly four events have come, the filesystem was
/// reported as supported, the target as a regular file, and the scratch file
/// is named after the target's inode number.
pub proof fn scratch_only_after_checks(events: Seq<Event>, k: int)
    requires
        0 <= k <= events.len(),
        asked(events, k) is CreateScratch,
    ensures
        k == 4,
        accepted(Step::Open, events[0]),
        events[1] is FilesystemType && supported_filesystem(events[1]->FilesystemType_0),
        events[2] is Metadata && regular_file(events[2]->Metadata_0.mode),
        events[3] is Completed,
        asked(events, k) == (Action::CreateScratch { inode: events[2]->Metadata_0.inode }),
{
    asked_explained(events, k);
    let state = run(events.take(k));
    assert(state.phase == Phase::Waiting(Step::CreateScratch));
    assert(events.take(k)[2] == events[2]);
    assert(accepted(Step::at(0), events[0]));
    assert(accepted(Step::at(1), events[1]));
    assert(accepted(Step::at(2), events[2]));
    assert(accepted(Step::at(3), events[3]));
}

/// The scratch file is preallocated only once it has been created and
/// unlinked, and to the target's length.
pub proof fn preallocation_matches_target(events: Seq<Event>, k: int)
    requires
        0 <= k <= events.len(),
        asked(events, k) is Preallocate,
    ensures
        k == 6,
        events[2] is Metadata,
        asked(events, 4) == (Action::CreateScratch { inode: events[2]->Metadata_0.inode }),
        asked(events, 5) == Action::UnlinkScratch,
        events[4] is Completed,
        events[5] is Completed,
        asked(events, k) == (Action::Preallocate { length: events[2]->Metadata_0.length }),
{
    asked_explained(events, k);
    assert(run(events.take(k)).phase == Phase::Waiting(Step::Preallocate));
    assert(events.take(k)[2] == events[2]);
    assert(accepted(Step::at(2), events[2]));
    assert(accepted(Step::at(4), events[4]));
    assert(accepted(Step::at(5), events[5]));
    success_asks_in_order(events, 6, 4);
    success_asks_in_order(events, 6, 5);
}

/// While the steps succeed, each is asked for in its turn: after `i`
/// successes the action of step `i` is handed out, with the inode number and
/// length that the metadata gave.
pub proof fn success_asks_in_order(events: Seq<Event>, n: nat, i: int)
    requires
        succeeded(events, n),
        0 <= i <= n,
        i < 12,
    ensures
        run(events.take(i)).phase == Phase::Waiting(Step::at(i as nat)),
        i > 2 ==> asked(events, i) == request(
            Step::at(i as nat),
            events[2]->Metadata_0.inode,
            events[2]->Metadata_0.length,
        ),
        i <= 2 ==> asked(events, i) == request(Step::at(i as nat), 0, 0),
    decreases i,
{
    let head = events.take(i);
    if i == 0 {
    } else {
        success_asks_in_order(events, n, i - 1);
        assert(head.drop_last() =~= events.take(i - 1));
        assert(head.last() == events[i - 1]);
        assert(accepted(Step::at((i - 1) as nat), events[i - 1]));
        step_numbering(Step::at((i - 1) as nat));
        if i > 2 {
            run_explained(head);
            assert(head[2] == events[2]);
        }
    }
}

/// After twelve successes the run is finished.
pub proof fn all_successes_finish(events: Seq<Event>)
    requires
        succeeded(events, 12),
    ensures
        run(events).phase == Phase::Finished,
        run(events).spec_pending() == Action::Finish,
{
    success_asks_in_order(events, 12, 11);
    let twelve = events.take(12);
    assert(twelve.drop_last() =~= events.take(11));
    assert(twelve.last() == events[11]);
    assert(accepted(Step::at(11), events[11]));
    assert(run(twelve).phase == Phase::Finished);
    assert(events =~= twelve + events.skip(12));
    over_is_final(twelve, events.skip(12));
}

/// A finished run has gone through every step: each of the twelve succeeded
/// in order. The scratch file's directory entry was removed right after its
/// creation, it was flushed before the copy back, and the copy back was the
/// last thing done.
pub proof fn finished_run_did_everything(events: Seq<Event>)
    requires
        run(events).phase == Phase::Finished,
    ensures
        succeeded(events, 12),
        asked(events, 4) is CreateScratch,
        asked(events, 5) == Action::UnlinkScratch && events[5] is Completed,
        asked(events, 8) == Action::Flush && events[8] is Completed,
        asked(events, 11) == Action::CopyBack && events[11] is Completed,
{
    run_explained(events);
    success_asks_in_order(events, 12, 4);
    success_asks_in_order(events, 12, 5);
    success_asks_in_order(events, 12, 8);
    success_asks_in_order(events, 12, 11);
    assert(accepted(Step::at(5), events[5]));
    assert(accepted(Step::at(8), events[8]));
    assert(accepted(Step::at(11), events[11]));
}

/// The target is written to only in the copy back, and the copy back is asked
/// for only after every earlier step has succeeded, the flush among them.
pub proof fn copy_back_comes_last(events: Seq<Event>, k: int)
    requires
        0 <= k <= events.len(),
        asked(events, k) is CopyBack,
    ensures
        k == 11,
        succeeded(events, 11),
        asked(events, 8) == Action::Flush,
{
    asked_explained(events, k);
    assert(run(events.take(k)).phase == Phase::Waiting(Step::CopyBack));
    success_asks_in_order(events, 11, 8);
}

/// A run that fails outside the copy back never asked for the copy back: the
/// target holds what it held.
pub proof fn safe_failure_never_wrote_back(events: Seq<Event>, error: DefragError, k: int)
    requires
        run(events).phase == Phase::Failed(error),
        error.spec_target_untouched(),
        0 <= k <= events.len(),
    ensures
        !(asked(events, k) is CopyBack),
        error.spec_category() != Category::PartialRewrite,
{
    run_explained(events);
    step_numbering(error.step);
    if asked(events, k) is CopyBack {
        copy_back_comes_last(events, k);
        let at = error.step.index() as int;
        assert(accepted(Step::at(at as nat), events[at]));
    }
}

/// A run that fails in a check of the target never asked for the scratch
/// file: nothing was created.
pub proof fn failed_check_creates_nothing(events: Seq<Event>, error: DefragError, k: int)
    requires
        run(events).phase == Phase::Failed(error),
        error.spec_category() == Category::Precondition,
        0 <= k <= events.len(),
    ensures
        !(asked(events, k) is CreateScratch),
        !(asked(events, k) is CopyBack),
{
    run_explained(events);
    step_numbering(error.step);
    let at = error.step.index() as int;
    if asked(events, k) is CreateScratch {
        scratch_only_after_checks(events, k);
    }
    if asked(events, k) is CopyBack {
        copy_back_comes_last(events, k);
        assert(accepted(Step::at(at as nat), events[at]));
    }
}

/// On a filesystem that is not supported the run fails in that check, as a
/// failed precondition, whatever is reported afterwards.
pub proof fn unsupported_filesystem_fails(events: Seq<Event>, tag: i64)
    requires
        events.len() >= 2,
        accepted(Step::Open, events[0]),
        events[1] == Event::FilesystemType(tag),
        !supported_filesystem(tag),
    ensures
        run(events).phase == Phase::Failed(
            DefragError { step: Step::QueryFilesystem, cause: Cause::UnsupportedFilesystem },
        ),
        (DefragError {
            step: Step::QueryFilesystem,
            cause: Cause::UnsupportedFilesystem,
        }).spec_category() == Category::Precondition,
{
    run_explained(events);
    let state = run(events);
    if progress(state) >= 2 {
        assert(accepted(Step::at(1), events[1]));
    }
    match state.phase {
        Phase::Waiting(step) => {},
        Phase::Finished => {},
        Phase::Failed(error) => {
            step_numbering(error.step);
        },
    }
}

/// On a target that is not a regular file the run fails in that check, as a
/// failed precondition, whatever is reported afterwards.
pub proof fn irregular_target_fails(events: Seq<Event>, tag: i64, meta: TargetMeta)
    requires
        events.len() >= 3,
        accepted(Step::Open, events[0]),
        events[1] == Event::FilesystemType(tag),
        supported_filesystem(tag),
        events[2] == Event::Metadata(meta),
        !regular_file(meta.mode),
    ensures
        run(events).phase == Phase::Failed(
            DefragError { step: Step::QueryMetadata, cause: Cause::NotRegularFile },
        ),
        (DefragError {
            step: Step::QueryMetadata,
            cause: Cause::NotRegularFile,
        }).spec_category() == Category::Precondition,
{
    run_explained(events);
    let state = run(events);
    if progress(state) >= 3 {
        assert(accepted(Step::at(2), events[2]));
    }
    match state.phase {
        Phase::Waiting(step) => {},
        Phase::Finished => {},
        Phase::Failed(error) => {
            step_numbering(error.step);
        },
    }
}

/// When the preallocation is refused the run fails there, as a resource
/// failure: the scratch file's directory entry is gone already, and the copy
/// back was never asked for.
pub proof fn refused_preallocation_is_safe(events: Seq<Event>, code: i32, k: int)
    requires
        succeeded(events, 6),
        events.len() > 6,
        events[6] == Event::Failed(code),
        0 <= k <= events.len(),
    ensures
        run(events).phase == Phase::Failed(
            DefragError { step: Step::Preallocate, cause: Cause::System(code) },
        ),
        (DefragError { step: Step::Preallocate, cause: Cause::System(code) }).spec_category()
            == Category::Resource,
        asked(events, 5) == Action::UnlinkScratch && events[5] is Completed,
        !(asked(events, k) is CopyBack),
{
    success_asks_in_order(events, 6, 6);
    success_asks_in_order(events, 6, 5);
    assert(accepted(Step::at(5), events[5]));
    let seven = events.take(7);
    assert(seven.drop_last() =~= events.take(6));
    assert(seven.last() == events[6]);
    assert(events =~= seven + events.skip(7));
    over_is_final(seven, events.skip(7));
    let error = DefragError { step: Step::Preallocate, cause: Cause::System(code) };
    safe_failure_never_wrote_back(events, error, k);
}

} // verus!
