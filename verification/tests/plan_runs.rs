use defrag_plan::failure::{Category, Cause, DefragError, Step};
use defrag_plan::history::replay;
use defrag_plan::plan::{judge, Action, Consolidator, Event, Phase};
use defrag_plan::target::TargetMeta;

const BTRFS: i64 = 0x9123_683E;
const EXT4: i64 = 0xEF53;
const ENOSPC: i32 = 28;
const ELOOP: i32 = 40;
const EEXIST: i32 = 17;
const EIO: i32 = 5;

fn regular(inode: u64, length: i64) -> TargetMeta {
    TargetMeta { mode: 0o100644, inode, length }
}

fn successes(inode: u64, length: i64) -> Vec<Event> {
    vec![
        Event::Completed,
        Event::FilesystemType(BTRFS),
        Event::Metadata(regular(inode, length)),
        Event::Completed,
        Event::Completed,
        Event::Completed,
        Event::Completed,
        Event::Completed,
        Event::Completed,
        Event::Completed,
        Event::Completed,
        Event::Completed,
    ]
}

fn drive(events: &[Event]) -> (Consolidator, Vec<Action>) {
    let mut run = Consolidator::new();
    let mut actions = vec![run.pending()];
    for event in events {
        actions.push(run.advance(*event));
    }
    (run, actions)
}

#[test]
fn a_new_run_opens_the_target() {
    let run = Consolidator::new();
    assert_eq!(run.phase, Phase::Waiting(Step::Open));
    assert_eq!(run.pending(), Action::OpenTarget);
    assert!(!run.is_over());
}

#[test]
fn a_full_run_asks_for_every_step_in_order() {
    let ten_mib: i64 = 10 * 1024 * 1024;
    let (run, actions) = drive(&successes(4711, ten_mib));
    assert_eq!(
        actions,
        vec![
            Action::OpenTarget,
            Action::QueryFilesystem,
            Action::QueryMetadata,
            Action::ResolveDirectory,
            Action::CreateScratch { inode: 4711 },
            Action::UnlinkScratch,
            Action::Preallocate { length: 10_485_760 },
            Action::CopyToScratch,
            Action::Flush,
            Action::RewindTarget,
            Action::RewindScratch,
            Action::CopyBack,
            Action::Finish,
        ]
    );
    assert_eq!(run.phase, Phase::Finished);
    assert!(run.is_over());
    assert_eq!(run.inode, 4711);
    assert_eq!(run.length, ten_mib);
}

#[test]
fn an_unsupported_filesystem_stops_the_run_before_anything_is_created() {
    let events = [Event::Completed, Event::FilesystemType(EXT4), Event::Completed];
    let (run, actions) = drive(&events);
    let error = DefragError { step: Step::QueryFilesystem, cause: Cause::UnsupportedFilesystem };
    assert_eq!(run.phase, Phase::Failed(error));
    assert_eq!(
        actions,
        vec![
            Action::OpenTarget,
            Action::QueryFilesystem,
            Action::Abort(error),
            Action::Abort(error),
        ]
    );
    assert_eq!(error.category(), Category::Precondition);
    assert!(error.target_untouched());
    assert!(error.before_scratch());
}

#[test]
fn a_directory_stops_the_run_before_anything_is_created() {
    let directory = TargetMeta { mode: 0o040755, inode: 2, length: 4096 };
    let events = [Event::Completed, Event::FilesystemType(BTRFS), Event::Metadata(directory)];
    let (run, actions) = drive(&events);
    let error = DefragError { step: Step::QueryMetadata, cause: Cause::NotRegularFile };
    assert_eq!(run.phase, Phase::Failed(error));
    assert_eq!(actions.last(), Some(&Action::Abort(error)));
    assert!(!actions.iter().any(|a| matches!(a, Action::CreateScratch { .. })));
    assert_eq!(error.category(), Category::Precondition);
}

#[test]
fn a_symbolic_link_is_refused_at_the_open() {
    let (run, actions) = drive(&[Event::Failed(ELOOP)]);
    let error = DefragError { step: Step::Open, cause: Cause::System(ELOOP) };
    assert_eq!(run.phase, Phase::Failed(error));
    assert_eq!(actions, vec![Action::OpenTarget, Action::Abort(error)]);
    assert_eq!(error.category(), Category::Precondition);
    assert!(error.before_scratch());
}

#[test]
fn a_name_collision_is_a_resource_failure() {
    let mut events = successes(9, 100);
    events[4] = Event::Failed(EEXIST);
    let state = replay(&events);
    let error = DefragError { step: Step::CreateScratch, cause: Cause::System(EEXIST) };
    assert_eq!(state.phase, Phase::Failed(error));
    assert_eq!(error.category(), Category::Resource);
    assert!(error.target_untouched());
    assert!(error.before_scratch());
}

#[test]
fn a_refused_preallocation_leaves_the_target_alone() {
    let mut events = successes(77, 1 << 20);
    events.truncate(7);
    events[6] = Event::Failed(ENOSPC);
    let (run, actions) = drive(&events);
    let error = DefragError { step: Step::Preallocate, cause: Cause::System(ENOSPC) };
    assert_eq!(run.phase, Phase::Failed(error));
    assert_eq!(actions[5], Action::UnlinkScratch);
    assert_eq!(actions[6], Action::Preallocate { length: 1_048_576 });
    assert_eq!(actions[7], Action::Abort(error));
    assert!(!actions.contains(&Action::CopyBack));
    assert_eq!(error.category(), Category::Resource);
    assert!(error.target_untouched());
    assert!(!error.before_scratch());
}

#[test]
fn a_failed_copy_or_flush_is_an_io_failure() {
    for (at, step) in [
        (7, Step::CopyToScratch),
        (8, Step::Flush),
        (9, Step::RewindTarget),
        (10, Step::RewindScratch),
    ] {
        let mut events = successes(1, 1);
        events[at] = Event::Failed(EIO);
        let state = replay(&events);
        let error = DefragError { step, cause: Cause::System(EIO) };
        assert_eq!(state.phase, Phase::Failed(error));
        assert_eq!(error.category(), Category::Io);
        assert!(error.target_untouched());
    }
}

#[test]
fn a_failed_copy_back_is_the_severe_failure() {
    let mut events = successes(1, 1);
    events[11] = Event::Failed(EIO);
    let (run, actions) = drive(&events);
    let error = DefragError { step: Step::CopyBack, cause: Cause::System(EIO) };
    assert_eq!(run.phase, Phase::Failed(error));
    assert_eq!(actions[11], Action::CopyBack);
    assert_eq!(actions[12], Action::Abort(error));
    assert_eq!(error.category(), Category::PartialRewrite);
    assert!(!error.target_untouched());
    assert!(!error.before_scratch());
}

#[test]
fn a_reply_of_the_wrong_kind_fails_the_step() {
    let (run, _) = drive(&[Event::FilesystemType(BTRFS)]);
    assert_eq!(
        run.phase,
        Phase::Failed(DefragError { step: Step::Open, cause: Cause::UnexpectedReply })
    );
    let (run, _) = drive(&[Event::Completed, Event::Completed]);
    assert_eq!(
        run.phase,
        Phase::Failed(DefragError { step: Step::QueryFilesystem, cause: Cause::UnexpectedReply })
    );
    let (run, _) = drive(&[Event::Completed, Event::FilesystemType(BTRFS), Event::Completed]);
    assert_eq!(
        run.phase,
        Phase::Failed(DefragError { step: Step::QueryMetadata, cause: Cause::UnexpectedReply })
    );
    let mut events = successes(3, 3);
    events[6] = Event::Metadata(regular(3, 3));
    assert_eq!(
        replay(&events).phase,
        Phase::Failed(DefragError { step: Step::Preallocate, cause: Cause::UnexpectedReply })
    );
}

#[test]
fn a_run_that_is_over_stays_as_it_is() {
    let mut events = successes(5, 50);
    let finished = replay(&events);
    events.push(Event::Failed(EIO));
    events.push(Event::Metadata(regular(6, 60)));
    let later = replay(&events);
    assert_eq!(later, finished);
    assert_eq!(later.pending(), Action::Finish);

    let mut failed = Consolidator::new();
    let verdict = failed.advance(Event::Failed(2));
    assert!(failed.is_over());
    assert_eq!(failed.advance(Event::Completed), verdict);
    assert_eq!(failed.advance(Event::FilesystemType(BTRFS)), verdict);
}

#[test]
fn replaying_agrees_with_advancing() {
    let events = successes(31337, 123_456_789);
    for n in 0..=events.len() {
        let (run, _) = drive(&events[..n]);
        assert_eq!(replay(&events[..n].to_vec()), run);
    }
    assert_eq!(replay(&Vec::new()), Consolidator::new());
}

#[test]
fn an_empty_target_is_preallocated_to_nothing() {
    let mut events = successes(8, 0);
    events.truncate(6);
    let (_, actions) = drive(&events);
    assert_eq!(actions[6], Action::Preallocate { length: 0 });
}

#[test]
fn judging_events() {
    assert_eq!(judge(Step::Open, Event::Completed), None);
    assert_eq!(judge(Step::Open, Event::Failed(13)), Some(Cause::System(13)));
    assert_eq!(judge(Step::QueryFilesystem, Event::FilesystemType(BTRFS)), None);
    assert_eq!(
        judge(Step::QueryFilesystem, Event::FilesystemType(0)),
        Some(Cause::UnsupportedFilesystem)
    );
    assert_eq!(judge(Step::QueryMetadata, Event::Metadata(regular(1, 1))), None);
    let link = TargetMeta { mode: 0o120777, inode: 1, length: 1 };
    assert_eq!(judge(Step::QueryMetadata, Event::Metadata(link)), Some(Cause::NotRegularFile));
    assert_eq!(judge(Step::Flush, Event::FilesystemType(BTRFS)), Some(Cause::UnexpectedReply));
    assert_eq!(judge(Step::CopyBack, Event::Completed), None);
}

#[test]
fn the_steps_follow_one_another() {
    let order = [
        Step::Open,
        Step::QueryFilesystem,
        Step::QueryMetadata,
        Step::ResolveDirectory,
        Step::CreateScratch,
        Step::UnlinkScratch,
        Step::Preallocate,
        Step::CopyToScratch,
        Step::Flush,
        Step::RewindTarget,
        Step::RewindScratch,
        Step::CopyBack,
    ];
    for pair in order.windows(2) {
        assert_eq!(pair[0].next(), Some(pair[1]));
    }
    assert_eq!(Step::CopyBack.next(), None);
}
