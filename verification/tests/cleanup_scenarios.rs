use std::collections::HashMap;

use setup_assistant::cleanup::{
    export_and_delete_registry_key, export_and_delete_startup_registry_keys, hive_records,
    stage_request, Cleanup, CleanupAction, PairOutcome, PairStep, Stage,
};
use setup_assistant::command::RegCommand;
use setup_assistant::failure::{Failure, FailureCause, HostReply};
use setup_assistant::hive::{Hive, RegistryView};
use setup_assistant::restore::{import_result, plan_restore, DirectoryEntry};

const WORK: &str = "C:\\work";
const RUN: &str = "SOFTWARE\\Microsoft\\Windows\\CurrentVersion\\Run";
const RUN_WOW: &str = "SOFTWARE\\WOW6432Node\\Microsoft\\Windows\\CurrentVersion\\Run";

type Values = Vec<(String, String)>;

/// A host that exists in memory only: keys by the path and scope a command
/// addresses them with, files by path with the snapshot an export left.
struct SimHost {
    registry: HashMap<(String, bool), Values>,
    files: HashMap<String, Option<(String, Values)>>,
    broken_exports: Vec<(String, bool)>,
    unlaunchable_exports: Vec<(String, bool)>,
    broken_deletes: Vec<(String, bool)>,
    unwritable_files: Vec<String>,
    exports: Vec<(String, String, bool)>,
    deletes: Vec<(String, bool)>,
    imports: Vec<(String, bool)>,
    requests: Vec<String>,
}

fn values(pairs: &[(&str, &str)]) -> Values {
    pairs.iter().map(|(n, d)| (n.to_string(), d.to_string())).collect()
}

fn address(hive: Hive, view: RegistryView) -> (String, bool) {
    let suffix = if view == RegistryView::Wow64_32 { RUN_WOW } else { RUN };
    (format!("{}\\{}", hive.name(), suffix), view == RegistryView::Wow64_64)
}

impl SimHost {
    fn empty() -> SimHost {
        SimHost {
            registry: HashMap::new(),
            files: HashMap::new(),
            broken_exports: Vec::new(),
            unlaunchable_exports: Vec::new(),
            broken_deletes: Vec::new(),
            unwritable_files: Vec::new(),
            exports: Vec::new(),
            deletes: Vec::new(),
            imports: Vec::new(),
            requests: Vec::new(),
        }
    }

    fn populated_64bit() -> SimHost {
        let mut host = SimHost::empty();
        host.registry.insert(
            address(Hive::LocalMachine, RegistryView::Wow64_64),
            values(&[("Defender", "C:\\d.exe"), ("Audio", "C:\\a.exe")]),
        );
        host.registry.insert(
            address(Hive::LocalMachine, RegistryView::Wow64_32),
            values(&[("Updater32", "C:\\u.exe")]),
        );
        host.registry.insert(
            address(Hive::CurrentUser, RegistryView::Wow64_64),
            values(&[("Chat", "C:\\c.exe")]),
        );
        host.registry.insert(
            address(Hive::CurrentUser, RegistryView::Wow64_32),
            values(&[("Tray", "C:\\t.exe")]),
        );
        host
    }

    fn populated_32bit() -> SimHost {
        let mut host = SimHost::empty();
        host.registry.insert(
            address(Hive::LocalMachine, RegistryView::Native),
            values(&[("Defender", "C:\\d.exe")]),
        );
        host.registry.insert(
            address(Hive::CurrentUser, RegistryView::Native),
            values(&[("Chat", "C:\\c.exe")]),
        );
        host
    }

    fn run(&mut self, command: &RegCommand) -> HostReply {
        match command {
            RegCommand::Export { key_path, file_path, is_64bit_view } => {
                let key = (key_path.clone(), *is_64bit_view);
                self.exports.push((key_path.clone(), file_path.clone(), *is_64bit_view));
                if self.unlaunchable_exports.contains(&key) {
                    return HostReply::NotLaunched;
                }
                if self.broken_exports.contains(&key) {
                    return HostReply::Failed;
                }
                match self.registry.get(&key) {
                    Some(found) => {
                        self.files
                            .insert(file_path.clone(), Some((key_path.clone(), found.clone())));
                        HostReply::Completed
                    }
                    None => HostReply::Failed,
                }
            }
            RegCommand::Delete { key_path, is_64bit_view } => {
                let key = (key_path.clone(), *is_64bit_view);
                self.deletes.push(key.clone());
                if self.broken_deletes.contains(&key) {
                    return HostReply::Failed;
                }
                match self.registry.remove(&key) {
                    Some(_) => HostReply::Completed,
                    None => HostReply::Failed,
                }
            }
            RegCommand::Import { file_path, is_64bit_view } => {
                self.imports.push((file_path.clone(), *is_64bit_view));
                match self.files.get(file_path) {
                    Some(Some((key_path, found))) => {
                        self.registry.insert((key_path.clone(), *is_64bit_view), found.clone());
                        HostReply::Completed
                    }
                    _ => HostReply::Failed,
                }
            }
        }
    }

    fn answer(&mut self, action: &CleanupAction) -> HostReply {
        match action {
            CleanupAction::ProbeKey { hive, view, key_path } => {
                assert_eq!(key_path, RUN);
                self.requests.push(format!("probe {:?} {:?}", hive, view));
                if self.registry.contains_key(&address(*hive, *view)) {
                    HostReply::Completed
                } else {
                    HostReply::Failed
                }
            }
            CleanupAction::CreateBackupFile { file_path } => {
                self.requests.push(format!("create {}", file_path));
                if self.unwritable_files.contains(file_path) {
                    HostReply::Failed
                } else {
                    self.files.insert(file_path.clone(), None);
                    HostReply::Completed
                }
            }
            CleanupAction::Run { command } => {
                let verb = command.arguments()[0].clone();
                let target = command.arguments()[1].clone();
                self.requests.push(format!("{} {}", verb, target));
                self.run(command)
            }
            CleanupAction::Finished => unreachable!("no request is made after the end"),
        }
    }
}

fn run_cleanup(host: &mut SimHost, is_64bit: bool) -> Cleanup {
    let (mut run, mut action) = export_and_delete_startup_registry_keys(is_64bit, WORK);
    let mut steps = 0;
    while action != CleanupAction::Finished {
        let reply = host.answer(&action);
        let next = run.advance(reply);
        run = next.0;
        action = next.1;
        steps += 1;
        assert!(steps <= 16, "a run takes four replies per pair at most");
    }
    assert!(run.is_finished());
    run
}

fn backup_names(host: &SimHost) -> Vec<String> {
    let mut names: Vec<String> = host
        .files
        .keys()
        .map(|path| path.rsplit('\\').next().unwrap().to_string())
        .collect();
    names.sort();
    names
}

#[test]
fn cleanup_of_a_64bit_host_with_both_hives_populated() {
    let mut host = SimHost::populated_64bit();
    let run = run_cleanup(&mut host, true);

    assert_eq!(host.exports.len(), 4);
    assert_eq!(host.deletes.len(), 4);
    assert_eq!(
        backup_names(&host),
        vec![
            "hkey_current_userx32.reg".to_string(),
            "hkey_current_userx64.reg".to_string(),
            "hkey_local_machinex32.reg".to_string(),
            "hkey_local_machinex64.reg".to_string(),
        ]
    );
    assert!(host.registry.is_empty());
    assert_eq!(run.report().len(), 4);
    for entry in run.report().iter() {
        assert_eq!(entry.outcome, PairOutcome::Cleaned);
    }
    let order: Vec<(Hive, RegistryView)> =
        run.report().iter().map(|entry| (entry.hive, entry.view)).collect();
    assert_eq!(
        order,
        vec![
            (Hive::LocalMachine, RegistryView::Wow64_64),
            (Hive::LocalMachine, RegistryView::Wow64_32),
            (Hive::CurrentUser, RegistryView::Wow64_64),
            (Hive::CurrentUser, RegistryView::Wow64_32),
        ]
    );
}

#[test]
fn exports_name_the_key_the_file_and_the_view() {
    let mut host = SimHost::populated_64bit();
    run_cleanup(&mut host, true);
    assert_eq!(
        host.exports,
        vec![
            (
                format!("HKEY_LOCAL_MACHINE\\{}", RUN),
                "C:\\work\\data\\hkey_local_machinex64.reg".to_string(),
                true
            ),
            (
                format!("HKEY_LOCAL_MACHINE\\{}", RUN_WOW),
                "C:\\work\\data\\hkey_local_machinex32.reg".to_string(),
                false
            ),
            (
                format!("HKEY_CURRENT_USER\\{}", RUN),
                "C:\\work\\data\\hkey_current_userx64.reg".to_string(),
                true
            ),
            (
                format!("HKEY_CURRENT_USER\\{}", RUN_WOW),
                "C:\\work\\data\\hkey_current_userx32.reg".to_string(),
                false
            ),
        ]
    );
    assert_eq!(
        host.deletes,
        vec![
            (format!("HKEY_LOCAL_MACHINE\\{}", RUN), true),
            (format!("HKEY_LOCAL_MACHINE\\{}", RUN_WOW), false),
            (format!("HKEY_CURRENT_USER\\{}", RUN), true),
            (format!("HKEY_CURRENT_USER\\{}", RUN_WOW), false),
        ]
    );
}

#[test]
fn cleanup_of_a_32bit_host() {
    let mut host = SimHost::populated_32bit();
    let run = run_cleanup(&mut host, false);

    assert_eq!(host.exports.len(), 2);
    assert_eq!(host.deletes.len(), 2);
    assert_eq!(
        backup_names(&host),
        vec!["hkey_current_user.reg".to_string(), "hkey_local_machine.reg".to_string()]
    );
    for (_, _, is_64bit_view) in host.exports.iter() {
        assert!(!is_64bit_view);
    }
    let order: Vec<(Hive, RegistryView)> =
        run.report().iter().map(|entry| (entry.hive, entry.view)).collect();
    assert_eq!(
        order,
        vec![(Hive::LocalMachine, RegistryView::Native), (Hive::CurrentUser, RegistryView::Native)]
    );
    assert!(host.registry.is_empty());
}

#[test]
fn request_order_within_a_pair_is_probe_create_export_delete() {
    let mut host = SimHost::populated_32bit();
    run_cleanup(&mut host, false);
    assert_eq!(
        host.requests,
        vec![
            "probe LocalMachine Native".to_string(),
            "create C:\\work\\data\\hkey_local_machine.reg".to_string(),
            format!("export HKEY_LOCAL_MACHINE\\{}", RUN),
            format!("delete HKEY_LOCAL_MACHINE\\{}", RUN),
            "probe CurrentUser Native".to_string(),
            "create C:\\work\\data\\hkey_current_user.reg".to_string(),
            format!("export HKEY_CURRENT_USER\\{}", RUN),
            format!("delete HKEY_CURRENT_USER\\{}", RUN),
        ]
    );
}

#[test]
fn isolation_failed_export_does_not_stop_the_other_pairs() {
    let mut host = SimHost::populated_64bit();
    let broken = address(Hive::LocalMachine, RegistryView::Wow64_64);
    host.broken_exports.push(broken.clone());
    let run = run_cleanup(&mut host, true);

    assert_eq!(host.exports.len(), 4);
    assert_eq!(host.deletes.len(), 3);
    assert!(!host.deletes.contains(&broken));
    assert!(host.registry.contains_key(&broken));
    assert_eq!(host.registry.len(), 1);

    let report = run.report();
    assert_eq!(report.len(), 4);
    assert_eq!(
        report[0].outcome,
        PairOutcome::Failed {
            failure: Failure::ExportFailure {
                hive: Hive::LocalMachine,
                view: RegistryView::Wow64_64,
                key_path: format!("HKEY_LOCAL_MACHINE\\{}", RUN),
                file_path: "C:\\work\\data\\hkey_local_machinex64.reg".to_string(),
                cause: FailureCause::Refused,
            }
        }
    );
    assert_eq!(report[1].outcome, PairOutcome::Cleaned);
    assert_eq!(report[2].outcome, PairOutcome::Cleaned);
    assert_eq!(report[3].outcome, PairOutcome::Cleaned);
}

#[test]
fn export_that_cannot_be_launched_is_reported_and_skips_the_delete() {
    let mut host = SimHost::populated_32bit();
    let broken = address(Hive::CurrentUser, RegistryView::Native);
    host.unlaunchable_exports.push(broken.clone());
    let run = run_cleanup(&mut host, false);
    assert_eq!(host.deletes, vec![address(Hive::LocalMachine, RegistryView::Native)]);
    match &run.report()[1].outcome {
        PairOutcome::Failed { failure: Failure::ExportFailure { cause, .. } } => {
            assert_eq!(*cause, FailureCause::NotLaunched)
        }
        other => panic!("unexpected outcome {:?}", other),
    }
}

#[test]
fn missing_key_is_skipped_without_export_or_delete() {
    let mut host = SimHost::populated_64bit();
    host.registry.remove(&address(Hive::LocalMachine, RegistryView::Wow64_32));
    let run = run_cleanup(&mut host, true);
    assert_eq!(host.exports.len(), 3);
    assert_eq!(host.deletes.len(), 3);
    assert_eq!(run.report()[1].outcome, PairOutcome::Skipped);
    assert!(!host.files.contains_key("C:\\work\\data\\hkey_local_machinex32.reg"));
    assert_eq!(run.report()[0].outcome, PairOutcome::Cleaned);
    assert_eq!(run.report()[2].outcome, PairOutcome::Cleaned);
    assert_eq!(run.report()[3].outcome, PairOutcome::Cleaned);
}

#[test]
fn host_without_startup_keys_gets_every_pair_skipped() {
    let mut host = SimHost::empty();
    let run = run_cleanup(&mut host, true);
    assert!(host.exports.is_empty());
    assert!(host.deletes.is_empty());
    assert!(host.files.is_empty());
    assert_eq!(run.report().len(), 4);
    for entry in run.report().iter() {
        assert_eq!(entry.outcome, PairOutcome::Skipped);
    }
}

#[test]
fn backup_file_that_cannot_be_created_fails_the_pair_only() {
    let mut host = SimHost::populated_64bit();
    host.unwritable_files.push("C:\\work\\data\\hkey_local_machinex64.reg".to_string());
    let run = run_cleanup(&mut host, true);
    assert_eq!(host.exports.len(), 3);
    assert_eq!(host.deletes.len(), 3);
    assert!(host.registry.contains_key(&address(Hive::LocalMachine, RegistryView::Wow64_64)));
    match &run.report()[0].outcome {
        PairOutcome::Failed { failure: Failure::ExportFailure { cause, file_path, .. } } => {
            assert_eq!(*cause, FailureCause::BackupFileNotCreated);
            assert_eq!(file_path, "C:\\work\\data\\hkey_local_machinex64.reg");
        }
        other => panic!("unexpected outcome {:?}", other),
    }
    assert_eq!(run.report()[1].outcome, PairOutcome::Cleaned);
}

#[test]
fn failed_delete_is_reported_and_the_run_goes_on() {
    let mut host = SimHost::populated_64bit();
    let broken = address(Hive::CurrentUser, RegistryView::Wow64_64);
    host.broken_deletes.push(broken.clone());
    let run = run_cleanup(&mut host, true);
    assert_eq!(host.exports.len(), 4);
    assert_eq!(host.deletes.len(), 4);
    assert_eq!(
        run.report()[2].outcome,
        PairOutcome::Failed {
            failure: Failure::DeleteFailure {
                hive: Hive::CurrentUser,
                view: RegistryView::Wow64_64,
                key_path: format!("HKEY_CURRENT_USER\\{}", RUN),
                cause: FailureCause::Refused,
            }
        }
    );
    assert_eq!(run.report()[3].outcome, PairOutcome::Cleaned);
    assert!(host.files["C:\\work\\data\\hkey_current_userx64.reg"].is_some());
}

#[test]
fn export_always_precedes_the_delete_of_the_same_key() {
    let mut host = SimHost::populated_64bit();
    host.broken_exports.push(address(Hive::CurrentUser, RegistryView::Wow64_32));
    run_cleanup(&mut host, true);
    for (index, request) in host.requests.iter().enumerate() {
        if let Some(key) = request.strip_prefix("delete ") {
            assert!(index > 0);
            assert_eq!(host.requests[index - 1], format!("export {}", key));
        }
    }
    assert_eq!(host.requests.iter().filter(|r| r.starts_with("delete ")).count(), 3);
}

#[test]
fn round_trip_export_delete_import_restores_the_values() {
    let mut host = SimHost::populated_64bit();
    let before = host.registry.clone();
    run_cleanup(&mut host, true);
    assert!(host.registry.is_empty());

    let mut names = backup_names(&host);
    names.push("notes.txt".to_string());
    let listing: Vec<DirectoryEntry> =
        names.into_iter().map(|name| DirectoryEntry { name, is_file: true }).collect();
    let tasks = plan_restore("C:\\work\\data", &listing);
    assert_eq!(tasks.len(), 4);
    for task in tasks.iter() {
        let reply = host.run(&task.command());
        assert_eq!(import_result(task, reply), Ok(()));
    }
    assert_eq!(host.registry, before);
}

#[test]
fn round_trip_on_a_32bit_host() {
    let mut host = SimHost::populated_32bit();
    let before = host.registry.clone();
    run_cleanup(&mut host, false);
    let listing: Vec<DirectoryEntry> = backup_names(&host)
        .into_iter()
        .map(|name| DirectoryEntry { name, is_file: true })
        .collect();
    for task in plan_restore("C:\\work\\data", &listing).iter() {
        assert_eq!(host.run(&task.command()), HostReply::Completed);
    }
    assert_eq!(host.registry, before);
}

#[test]
fn idempotent_export_second_content_supersedes_the_first() {
    let mut host = SimHost::populated_32bit();
    let records = hive_records(Hive::LocalMachine, false, WORK);
    let key = address(Hive::LocalMachine, RegistryView::Native);
    let export = match stage_request(&records[0], Stage::Export) {
        CleanupAction::Run { command } => command,
        other => panic!("unexpected request {:?}", other),
    };

    assert_eq!(host.run(&export), HostReply::Completed);
    let first = host.files[&records[0].backup_file_path].clone();
    assert_eq!(host.run(&export), HostReply::Completed);
    assert_eq!(host.files[&records[0].backup_file_path], first);
    assert_eq!(host.files.len(), 1);

    host.registry.insert(key.clone(), values(&[("Only", "C:\\o.exe")]));
    assert_eq!(host.run(&export), HostReply::Completed);
    assert_eq!(
        host.files[&records[0].backup_file_path],
        Some((key.0.clone(), values(&[("Only", "C:\\o.exe")])))
    );
    assert_eq!(host.files.len(), 1);
    assert!(export.arguments().contains(&"/y".to_string()));
}

#[test]
fn view_independence_delete_of_one_view_leaves_the_other() {
    let wide = address(Hive::LocalMachine, RegistryView::Wow64_64);
    let narrow = address(Hive::LocalMachine, RegistryView::Wow64_32);
    let records = hive_records(Hive::LocalMachine, true, WORK);
    assert_eq!(records[0].view, RegistryView::Wow64_64);
    assert_eq!(records[1].view, RegistryView::Wow64_32);

    for (deleted, kept, index) in [(&wide, &narrow, 0usize), (&narrow, &wide, 1usize)] {
        let mut host = SimHost::populated_64bit();
        let kept_values = host.registry[kept].clone();
        let delete = match stage_request(&records[index], Stage::Delete) {
            CleanupAction::Run { command } => command,
            other => panic!("unexpected request {:?}", other),
        };
        assert_eq!(host.run(&delete), HostReply::Completed);
        assert!(!host.registry.contains_key(deleted));
        assert_eq!(host.registry[kept], kept_values);
        assert_eq!(host.registry.len(), 3);
    }
}

#[test]
fn pair_step_follows_each_reply() {
    let records = hive_records(Hive::CurrentUser, true, WORK);
    let record = &records[0];
    let ok = HostReply::Completed;

    match export_and_delete_registry_key(record, Stage::Probe, ok) {
        PairStep::Continue { stage, action } => {
            assert_eq!(stage, Stage::CreateFile);
            assert_eq!(
                action,
                CleanupAction::CreateBackupFile {
                    file_path: "C:\\work\\data\\hkey_current_userx64.reg".to_string()
                }
            );
        }
        other => panic!("unexpected step {:?}", other),
    }
    match export_and_delete_registry_key(record, Stage::CreateFile, ok) {
        PairStep::Continue { stage, action } => {
            assert_eq!(stage, Stage::Export);
            assert_eq!(
                action,
                CleanupAction::Run {
                    command: RegCommand::Export {
                        key_path: format!("HKEY_CURRENT_USER\\{}", RUN),
                        file_path: "C:\\work\\data\\hkey_current_userx64.reg".to_string(),
                        is_64bit_view: true,
                    }
                }
            );
        }
        other => panic!("unexpected step {:?}", other),
    }
    match export_and_delete_registry_key(record, Stage::Export, ok) {
        PairStep::Continue { stage, action } => {
            assert_eq!(stage, Stage::Delete);
            assert_eq!(
                action,
                CleanupAction::Run {
                    command: RegCommand::Delete {
                        key_path: format!("HKEY_CURRENT_USER\\{}", RUN),
                        is_64bit_view: true,
                    }
                }
            );
        }
        other => panic!("unexpected step {:?}", other),
    }
    assert_eq!(
        export_and_delete_registry_key(record, Stage::Delete, ok),
        PairStep::Finished { outcome: PairOutcome::Cleaned }
    );
    assert_eq!(
        export_and_delete_registry_key(record, Stage::Probe, HostReply::Failed),
        PairStep::Finished { outcome: PairOutcome::Skipped }
    );
    assert_eq!(
        export_and_delete_registry_key(record, Stage::Probe, HostReply::NotLaunched),
        PairStep::Finished { outcome: PairOutcome::Skipped }
    );
    assert_eq!(
        export_and_delete_registry_key(record, Stage::Delete, HostReply::NotLaunched),
        PairStep::Finished {
            outcome: PairOutcome::Failed {
                failure: Failure::DeleteFailure {
                    hive: Hive::CurrentUser,
                    view: RegistryView::Wow64_64,
                    key_path: format!("HKEY_CURRENT_USER\\{}", RUN),
                    cause: FailureCause::NotLaunched,
                }
            }
        }
    );
}

#[test]
fn first_request_is_the_probe_of_the_machine_hive() {
    let (run, action) = export_and_delete_startup_registry_keys(true, WORK);
    assert!(!run.is_finished());
    assert!(run.report().is_empty());
    assert_eq!(run.plan().len(), 4);
    assert_eq!(
        action,
        CleanupAction::ProbeKey {
            hive: Hive::LocalMachine,
            view: RegistryView::Wow64_64,
            key_path: RUN.to_string(),
        }
    );
    assert_eq!(run.pending_request(), action);

    let (run, action) = export_and_delete_startup_registry_keys(false, WORK);
    assert_eq!(run.plan().len(), 2);
    assert_eq!(
        action,
        CleanupAction::ProbeKey {
            hive: Hive::LocalMachine,
            view: RegistryView::Native,
            key_path: RUN.to_string(),
        }
    );
}

#[test]
fn probe_of_the_32bit_view_names_the_nominal_path() {
    let (run, _) = export_and_delete_startup_registry_keys(true, WORK);
    let (run, action) = run.advance(HostReply::Failed);
    assert_eq!(
        action,
        CleanupAction::ProbeKey {
            hive: Hive::LocalMachine,
            view: RegistryView::Wow64_32,
            key_path: RUN.to_string(),
        }
    );
    assert_eq!(run.plan()[1].source_key_path, format!("HKEY_LOCAL_MACHINE\\{}", RUN_WOW));
}

#[test]
fn finished_run_stays_finished() {
    let mut host = SimHost::empty();
    let run = run_cleanup(&mut host, false);
    let (run, action) = run.advance(HostReply::Completed);
    assert_eq!(action, CleanupAction::Finished);
    assert!(run.is_finished());
    assert_eq!(run.report().len(), 2);
    let (run, action) = run.advance(HostReply::Failed);
    assert_eq!(action, CleanupAction::Finished);
    assert_eq!(run.report().len(), 2);
    assert_eq!(run.pending_request(), CleanupAction::Finished);
}
