use setup_assistant::cleanup::{export_and_delete_startup_registry_keys, CleanupAction, PairOutcome};
use setup_assistant::failure::{Failure, HostReply, ScheduleStep};
use setup_assistant::hive::{Hive, RegistryView};
use setup_assistant::schedule::{
    is_reboot_performed, schedule_setup_task, schedule_step, set_rebooted_key, RunOnceEntry,
    ScheduleAction, ScheduleState,
};

const RUN_ONCE: &str = "SOFTWARE\\Microsoft\\Windows\\CurrentVersion\\RunOnce";

fn schedule_failure(step: ScheduleStep) -> Failure {
    Failure::ScheduleFailure {
        hive: Hive::LocalMachine,
        view: RegistryView::Wow64_64,
        key_path: RUN_ONCE.to_string(),
        step,
    }
}

#[test]
fn schedule_writes_two_entries_with_absolute_paths() {
    let (scheduler, action) = schedule_setup_task("C:\\Users\\me\\assistant");
    assert_eq!(
        action,
        ScheduleAction::OpenRunOnceKey {
            hive: Hive::LocalMachine,
            view: RegistryView::Wow64_64,
            key_path: RUN_ONCE.to_string(),
        }
    );
    assert_eq!(scheduler.state(), ScheduleState::OpeningKey);
    assert_eq!(scheduler.result(), None);

    let (scheduler, action) = scheduler.advance(HostReply::Completed);
    assert_eq!(
        action,
        ScheduleAction::WriteValue {
            entry: RunOnceEntry {
                name: "MoeinAssistant".to_string(),
                command_path: "C:\\Users\\me\\assistant\\data\\setup.exe".to_string(),
            }
        }
    );
    let (scheduler, action) = scheduler.advance(HostReply::Completed);
    assert_eq!(
        action,
        ScheduleAction::WriteValue {
            entry: RunOnceEntry {
                name: "registry_restore".to_string(),
                command_path: "C:\\Users\\me\\assistant\\data\\registry_restore.exe".to_string(),
            }
        }
    );
    assert!(!scheduler.is_finished());
    let (scheduler, action) = scheduler.advance(HostReply::Completed);
    assert_eq!(action, ScheduleAction::Finished);
    assert!(scheduler.is_finished());
    assert_eq!(scheduler.state(), ScheduleState::Scheduled);
    assert_eq!(scheduler.result(), Some(Ok(())));
}

#[test]
fn schedule_write_fails_and_cleanup_results_stand() {
    let (mut run, mut action) = export_and_delete_startup_registry_keys(false, "C:\\w");
    while action != CleanupAction::Finished {
        let next = run.advance(HostReply::Completed);
        run = next.0;
        action = next.1;
    }
    assert_eq!(run.report().len(), 2);

    let (scheduler, _) = schedule_setup_task("C:\\w");
    let (scheduler, _) = scheduler.advance(HostReply::Completed);
    let (scheduler, action) = scheduler.advance(HostReply::Failed);
    assert_eq!(action, ScheduleAction::Finished);
    assert_eq!(scheduler.result(), Some(Err(schedule_failure(ScheduleStep::WriteSetupEntry))));

    assert!(run.is_finished());
    assert_eq!(run.report().len(), 2);
    assert_eq!(run.report()[0].outcome, PairOutcome::Cleaned);
    assert_eq!(run.report()[1].outcome, PairOutcome::Cleaned);
}

#[test]
fn run_once_key_that_cannot_be_opened_fails_before_any_write() {
    let (scheduler, _) = schedule_setup_task("C:\\w");
    let (scheduler, action) = scheduler.advance(HostReply::Failed);
    assert_eq!(action, ScheduleAction::Finished);
    assert_eq!(scheduler.state(), ScheduleState::Failed { step: ScheduleStep::OpenRunOnceKey });
    let failure = schedule_failure(ScheduleStep::OpenRunOnceKey);
    assert_eq!(failure.message(), "failed to open run once key");
    assert_eq!(scheduler.result(), Some(Err(failure)));
}

#[test]
fn second_write_failure_is_reported_without_rollback() {
    let (scheduler, _) = schedule_setup_task("C:\\w");
    let mut requests: Vec<ScheduleAction> = vec![scheduler.pending_request()];
    let (scheduler, action) = scheduler.advance(HostReply::Completed);
    requests.push(action);
    let (scheduler, action) = scheduler.advance(HostReply::Completed);
    requests.push(action);
    let (scheduler, action) = scheduler.advance(HostReply::Failed);
    requests.push(action);

    assert_eq!(requests.len(), 4);
    assert!(matches!(requests[0], ScheduleAction::OpenRunOnceKey { .. }));
    assert!(matches!(requests[1], ScheduleAction::WriteValue { .. }));
    assert!(matches!(requests[2], ScheduleAction::WriteValue { .. }));
    assert_eq!(requests[3], ScheduleAction::Finished);
    let failure = schedule_failure(ScheduleStep::WriteRestoreEntry);
    assert_eq!(
        failure.message(),
        "failed setting value for registry restore task schedule probably due to permissions"
    );
    assert_eq!(scheduler.result(), Some(Err(failure)));
    assert_eq!(scheduler.setup_entry().command_path, "C:\\w\\data\\setup.exe");
    assert_eq!(scheduler.restore_entry().command_path, "C:\\w\\data\\registry_restore.exe");

    let (scheduler, action) = scheduler.advance(HostReply::Completed);
    assert_eq!(action, ScheduleAction::Finished);
    assert_eq!(scheduler.state(), ScheduleState::Failed { step: ScheduleStep::WriteRestoreEntry });
}

#[test]
fn command_that_cannot_be_launched_counts_as_failure_of_the_step() {
    let (scheduler, _) = schedule_setup_task("C:\\w");
    let (scheduler, _) = scheduler.advance(HostReply::Completed);
    let (scheduler, _) = scheduler.advance(HostReply::NotLaunched);
    assert_eq!(scheduler.state(), ScheduleState::Failed { step: ScheduleStep::WriteSetupEntry });
    assert_eq!(
        schedule_failure(ScheduleStep::WriteSetupEntry).message(),
        "failed setting value for setup task schedule probably due to permissions"
    );
}

#[test]
fn schedule_step_table() {
    let ok = HostReply::Completed;
    let no = HostReply::Failed;
    assert_eq!(schedule_step(ScheduleState::OpeningKey, ok), ScheduleState::WritingSetup);
    assert_eq!(schedule_step(ScheduleState::WritingSetup, ok), ScheduleState::WritingRestore);
    assert_eq!(schedule_step(ScheduleState::WritingRestore, ok), ScheduleState::Scheduled);
    assert_eq!(schedule_step(ScheduleState::Scheduled, ok), ScheduleState::Scheduled);
    assert_eq!(schedule_step(ScheduleState::Scheduled, no), ScheduleState::Scheduled);
    assert_eq!(
        schedule_step(ScheduleState::OpeningKey, no),
        ScheduleState::Failed { step: ScheduleStep::OpenRunOnceKey }
    );
    assert_eq!(
        schedule_step(ScheduleState::WritingRestore, no),
        ScheduleState::Failed { step: ScheduleStep::WriteRestoreEntry }
    );
    let failed = ScheduleState::Failed { step: ScheduleStep::OpenRunOnceKey };
    assert_eq!(schedule_step(failed, ok), failed);
}

#[test]
fn idempotent_schedule_same_directory_gives_the_same_entries() {
    let (first, _) = schedule_setup_task("D:\\a");
    let (second, _) = schedule_setup_task("D:\\a");
    assert_eq!(first.setup_entry(), second.setup_entry());
    assert_eq!(first.restore_entry(), second.restore_entry());
    let (other, _) = schedule_setup_task("D:\\b");
    assert_ne!(first.setup_entry(), other.setup_entry());
}

#[test]
fn working_directory_with_trailing_separator_gets_no_second_one() {
    let (scheduler, _) = schedule_setup_task("C:\\");
    assert_eq!(scheduler.setup_entry().command_path, "C:\\data\\setup.exe");
    let (scheduler, _) = schedule_setup_task("C:\\w/");
    assert_eq!(scheduler.restore_entry().command_path, "C:\\w/data\\registry_restore.exe");
    let (scheduler, _) = schedule_setup_task("");
    assert_eq!(scheduler.setup_entry().command_path, "data\\setup.exe");
}

#[test]
fn reboot_marker_is_written_under_the_vendor_key() {
    let marker = set_rebooted_key(1);
    assert_eq!(marker.hive, Hive::LocalMachine);
    assert_eq!(marker.view, RegistryView::Wow64_64);
    assert_eq!(marker.key_path, "SOFTWARE\\AAAHelperCo\\AAAHelperApp");
    assert_eq!(marker.name, "rebooted");
    assert_eq!(marker.data, "1");
    assert_eq!(set_rebooted_key(0).data, "0");
    assert_eq!(set_rebooted_key(-1).data, "-1");
    assert_eq!(set_rebooted_key(127).data, "127");
    assert_eq!(set_rebooted_key(-128).data, "-128");
    assert_eq!(set_rebooted_key(10).data, "10");
}

#[test]
fn reboot_marker_is_read_back() {
    assert!(is_reboot_performed(Some(set_rebooted_key(1).data.as_str())));
    assert!(!is_reboot_performed(Some(set_rebooted_key(0).data.as_str())));
    assert!(!is_reboot_performed(Some(set_rebooted_key(11).data.as_str())));
    assert!(!is_reboot_performed(Some("")));
    assert!(!is_reboot_performed(Some("01")));
    assert!(!is_reboot_performed(Some("1 ")));
    assert!(!is_reboot_performed(Some("true")));
    assert!(!is_reboot_performed(None));
}
