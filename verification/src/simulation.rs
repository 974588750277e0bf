//! Whole cleanup runs on the abstract host: the orchestrator is driven by the
//! answers of the model, and what the run leaves behind is stated in terms of
//! the host it started on.

use vstd::prelude::*;
use crate::backup::{
    BackupRecordModel, backup_file_name_spec, backup_record_spec, full_key_path_spec,
    lemma_backup_file_name_injective, lemma_key_address_injective,
};
use crate::cleanup::{
    CleanupActionModel, CleanupModel, PairOutcomeModel, PairReportModel, Stage,
    cleanup_plan_spec,
};
use crate::constants::{DATA_FOLDER_NAME, REGISTRY_STARTUP_PATH, REGISTRY_STARTUP_PATH_WOW};
use crate::failure::HostReply;
use crate::hive::{Hive, RegistryView};
use crate::host_model::{
    HostModel, KeyAddress, Snapshot, lemma_backup_name_is_recognised, record_address,
};
use crate::paths::{child_path_spec, data_path_spec};
use crate::restore::{
    DirectoryEntryModel, ImportTaskModel, import_task_spec, is_backup_entry, restore_plan_spec,
};
use crate::views::host_views;

verus! {

/// The key that a probe opens. Through the 32-bit view of a 64-bit host the
/// startup path leads to the redirected subtree.
pub open spec fn probe_address(hive: Hive, view: RegistryView, key_path: Seq<char>) -> KeyAddress {
    KeyAddress {
        key_path: full_key_path_spec(
            hive,
            if view == RegistryView::Wow64_32 && key_path == REGISTRY_STARTUP_PATH@ {
                REGISTRY_STARTUP_PATH_WOW@
            } else {
                key_path
            },
        ),
        is_64bit_view: view.targets_64bit(),
    }
}

impl HostModel {
    /// The host after a request of the cleanup, and its answer.
    pub open spec fn answer(self, action: CleanupActionModel) -> (HostModel, HostReply) {
        match action {
            CleanupActionModel::ProbeKey { hive, view, key_path } => (
                self,
                if self.registry.dom().contains(probe_address(hive, view, key_path)) {
                    HostReply::Completed
                } else {
                    HostReply::Failed
                },
            ),
            CleanupActionModel::CreateBackupFile { file_path } => (
                self.create_file(file_path),
                HostReply::Completed,
            ),
            CleanupActionModel::Run { command } => self.run(command),
            CleanupActionModel::Finished => (self, HostReply::Completed),
        }
    }

    /// The host after one pair was processed: where the key exists, its
    /// snapshot is in the backup file and the key is gone; where it does
    /// not, nothing has changed.
    pub open spec fn after_pair(self, record: BackupRecordModel) -> HostModel {
        let address = record_address(record);
        if self.registry.dom().contains(address) {
            HostModel {
                registry: self.registry.remove(address),
                files: self.files.insert(
                    record.backup_file_path,
                    Some(
                        Snapshot {
                            key_path: record.source_key_path,
                            values: self.registry[address],
                        },
                    ),
                ),
            }
        } else {
            self
        }
    }

    /// How the processing of one pair ends on this host.
    pub open spec fn pair_report(self, record: BackupRecordModel) -> PairReportModel {
        PairReportModel {
            hive: record.hive,
            view: record.view,
            outcome: if self.registry.dom().contains(record_address(record)) {
                PairOutcomeModel::Cleaned
            } else {
                PairOutcomeModel::Skipped
            },
        }
    }

    /// The host after the pairs of `plan` from index `from` on were
    /// processed in order.
    pub open spec fn after_pairs(self, plan: Seq<BackupRecordModel>, from: nat) -> HostModel
        decreases plan.len() - from,
    {
        if from >= plan.len() {
            self
        } else {
            self.after_pair(plan[from as int]).after_pairs(plan, from + 1)
        }
    }

    /// `report`, extended by the reports of the pairs of `plan` from index
    /// `from` on, processed in order on this host.
    pub open spec fn reports_after(
        self,
        plan: Seq<BackupRecordModel>,
        from: nat,
        report: Seq<PairReportModel>,
    ) -> Seq<PairReportModel>
        decreases plan.len() - from,
    {
        if from >= plan.len() {
            report
        } else {
            self.after_pair(plan[from as int]).reports_after(
                plan,
                from + 1,
                report.push(self.pair_report(plan[from as int])),
            )
        }
    }
}

/// The host and the run after at most `fuel` requests, each answered by the
/// host as the model says.
pub open spec fn drive(host: HostModel, state: CleanupModel, fuel: nat) -> (HostModel, CleanupModel)
    decreases fuel,
{
    if fuel == 0 || state.finished() {
        (host, state)
    } else {
        let answered = host.answer(state.pending_action());
        drive(answered.0, state.step(answered.1), (fuel - 1) as nat)
    }
}

/// Every record of the plan is probed at the key its commands address.
pub open spec fn probes_match_commands(plan: Seq<BackupRecordModel>) -> bool {
    forall|i: int|
        0 <= i < plan.len() ==> probe_address(plan[i].hive, plan[i].view, REGISTRY_STARTUP_PATH@)
            == record_address(#[trigger] plan[i])
}

/// One pair on the model host: from the probe on, the run takes four
/// requests where the key exists and one where it does not, and leaves the
/// host as `after_pair` says, with the pair reported.
proof fn lemma_drive_one_pair(host: HostModel, state: CleanupModel, fuel: nat)
    requires
        state.wf(),
        !state.finished(),
        state.stage == Stage::Probe,
        probes_match_commands(state.plan),
        fuel >= 4,
    ensures
        ({
            let record = state.plan[state.cursor as int];
            let next = CleanupModel {
                cursor: state.cursor + 1,
                stage: Stage::Probe,
                report: state.report.push(host.pair_report(record)),
                ..state
            };
            let used: nat = if host.registry.dom().contains(record_address(record)) {
                4
            } else {
                1
            };
            &&& next.wf()
            &&& drive(host, state, fuel) == drive(
                host.after_pair(record),
                next,
                (fuel - used) as nat,
            )
        }),
{
    let record = state.plan[state.cursor as int];
    let address = record_address(record);
    let probed = host.answer(state.pending_action());
    let s1 = state.step(probed.1);
    if host.registry.dom().contains(address) {
        let created = host.answer(s1.pending_action());
        let s2 = s1.step(created.1);
        assert(drive(host, s1, (fuel - 1) as nat) == drive(created.0, s2, (fuel - 2) as nat));
        let exported = created.0.answer(s2.pending_action());
        let s3 = s2.step(exported.1);
        let deleted = exported.0.answer(s3.pending_action());
        let s4 = s3.step(deleted.1);
        assert(drive(exported.0, s3, (fuel - 3) as nat) == drive(
            deleted.0,
            s4,
            (fuel - 4) as nat,
        ));
        assert(deleted.0.files =~= host.after_pair(record).files);
    }
}

/// A whole run on the model host processes the remaining pairs one after
/// the other and ends with one report for each.
pub proof fn lemma_drive_processes_pairs_in_order(host: HostModel, state: CleanupModel, fuel: nat)
    requires
        state.wf(),
        state.stage == Stage::Probe,
        probes_match_commands(state.plan),
        fuel >= 4 * (state.plan.len() - state.cursor),
    ensures
        drive(host, state, fuel) == (
            host.after_pairs(state.plan, state.cursor),
            CleanupModel {
                cursor: state.plan.len(),
                stage: Stage::Probe,
                report: host.reports_after(state.plan, state.cursor, state.report),
                ..state
            },
        ),
    decreases state.plan.len() - state.cursor,
{
    if !state.finished() {
        let record = state.plan[state.cursor as int];
        lemma_drive_one_pair(host, state, fuel);
        let next = CleanupModel {
            cursor: state.cursor + 1,
            stage: Stage::Probe,
            report: state.report.push(host.pair_report(record)),
            ..state
        };
        let used: nat = if host.registry.dom().contains(record_address(record)) {
            4
        } else {
            1
        };
        lemma_drive_processes_pairs_in_order(host.after_pair(record), next, (fuel - used) as nat);
    }
}

/// The paths of two files in the data folder are the same only if their
/// names are.
pub proof fn lemma_data_path_injective(current_path: Seq<char>, a: Seq<char>, b: Seq<char>)
    ensures
        data_path_spec(current_path, a) == data_path_spec(current_path, b) ==> a == b,
{
    let folder = child_path_spec(current_path, DATA_FOLDER_NAME@);
    let pa = child_path_spec(folder, a);
    let pb = child_path_spec(folder, b);
    if pa == pb {
        let prefix = pa.len() - a.len();
        assert(pb.subrange(prefix, pb.len() as int) =~= b);
    }
}

/// The cleanup plan probes every record at the key its commands address,
/// and no two of its records share a key or a backup file.
pub proof fn lemma_plan_records_distinct(is_64bit: bool, current_path: Seq<char>)
    ensures
        probes_match_commands(cleanup_plan_spec(is_64bit, current_path)),
        cleanup_plan_spec(is_64bit, current_path).len() == 2 * host_views(is_64bit).len(),
        forall|i: int|
            0 <= i < cleanup_plan_spec(is_64bit, current_path).len() ==> #[trigger] cleanup_plan_spec(
                is_64bit,
                current_path,
            )[i] == plan_record(is_64bit, current_path, i),
        records_distinct(cleanup_plan_spec(is_64bit, current_path)),
{
    let plan = cleanup_plan_spec(is_64bit, current_path);
    assert forall|i: int, j: int| 0 <= i < j < plan.len() implies record_address(
        #[trigger] plan[i],
    ) != record_address(#[trigger] plan[j]) && plan[i].backup_file_path
        != plan[j].backup_file_path by {
        let a = plan_record(is_64bit, current_path, i);
        let b = plan_record(is_64bit, current_path, j);
        lemma_key_address_injective(a.hive, a.view, b.hive, b.view);
        lemma_backup_file_name_injective(a.hive, a.view, b.hive, b.view);
        lemma_data_path_injective(
            current_path,
            backup_file_name_spec(a.hive, a.view),
            backup_file_name_spec(b.hive, b.view),
        );
    }
}

/// The hive of the pair at `index` of the cleanup plan.
pub open spec fn plan_hive(is_64bit: bool, index: int) -> Hive {
    if index < host_views(is_64bit).len() {
        Hive::LocalMachine
    } else {
        Hive::CurrentUser
    }
}

/// The view of the pair at `index` of the cleanup plan.
pub open spec fn plan_view(is_64bit: bool, index: int) -> RegistryView {
    if index < host_views(is_64bit).len() {
        host_views(is_64bit)[index]
    } else {
        host_views(is_64bit)[index - host_views(is_64bit).len()]
    }
}

/// The record at `index` of the cleanup plan.
pub open spec fn plan_record(is_64bit: bool, current_path: Seq<char>, index: int) -> BackupRecordModel {
    backup_record_spec(plan_hive(is_64bit, index), plan_view(is_64bit, index), current_path)
}

/// No two records of the plan share a key or a backup file.
pub open spec fn records_distinct(plan: Seq<BackupRecordModel>) -> bool {
    forall|i: int, j: int|
        0 <= i < j < plan.len() ==> record_address(#[trigger] plan[i]) != record_address(
            #[trigger] plan[j],
        ) && plan[i].backup_file_path != plan[j].backup_file_path
}

/// The keys that the records of a plan address.
pub open spec fn plan_addresses(plan: Seq<BackupRecordModel>) -> Set<KeyAddress> {
    Set::new(
        |address: KeyAddress|
            exists|i: int| 0 <= i < plan.len() && record_address(#[trigger] plan[i]) == address,
    )
}

/// A key that none of the remaining records addresses is as it was.
pub proof fn lemma_other_keys_untouched(
    host: HostModel,
    plan: Seq<BackupRecordModel>,
    from: nat,
    address: KeyAddress,
)
    requires
        forall|i: int| from <= i < plan.len() ==> record_address(#[trigger] plan[i]) != address,
    ensures
        host.after_pairs(plan, from).registry.dom().contains(address)
            == host.registry.dom().contains(address),
        host.registry.dom().contains(address) ==> host.after_pairs(plan, from).registry[address]
            == host.registry[address],
    decreases plan.len() - from,
{
    if from < plan.len() {
        lemma_other_keys_untouched(host.after_pair(plan[from as int]), plan, from + 1, address);
    }
}

/// A file that is the backup of none of the remaining records is as it was.
pub proof fn lemma_other_files_untouched(
    host: HostModel,
    plan: Seq<BackupRecordModel>,
    from: nat,
    path: Seq<char>,
)
    requires
        forall|i: int| from <= i < plan.len() ==> (#[trigger] plan[i]).backup_file_path != path,
    ensures
        host.after_pairs(plan, from).files.dom().contains(path) == host.files.dom().contains(path),
        host.files.dom().contains(path) ==> host.after_pairs(plan, from).files[path]
            == host.files[path],
    decreases plan.len() - from,
{
    if from < plan.len() {
        lemma_other_files_untouched(host.after_pair(plan[from as int]), plan, from + 1, path);
    }
}

/// After the remaining pairs were processed, the key of each of them is
/// gone, and the backup of each whose key existed holds the key's values as
/// they were before the run.
pub proof fn lemma_pair_is_cleaned(
    host: HostModel,
    plan: Seq<BackupRecordModel>,
    from: nat,
    index: int,
)
    requires
        records_distinct(plan),
        from <= index < plan.len(),
    ensures
        ({
            let end = host.after_pairs(plan, from);
            let record = plan[index];
            let address = record_address(record);
            &&& !end.registry.dom().contains(address)
            &&& host.registry.dom().contains(address) ==> end.files.dom().contains(
                record.backup_file_path,
            ) && end.files[record.backup_file_path] == Some(
                Snapshot { key_path: record.source_key_path, values: host.registry[address] },
            )
            &&& !host.registry.dom().contains(address) ==> end.files.dom().contains(
                record.backup_file_path,
            ) == host.files.dom().contains(record.backup_file_path) && (host.files.dom().contains(
                record.backup_file_path,
            ) ==> end.files[record.backup_file_path] == host.files[record.backup_file_path])
        }),
    decreases plan.len() - from,
{
    let first = plan[from as int];
    let next = host.after_pair(first);
    let record = plan[index];
    if from == index {
        lemma_other_keys_untouched(next, plan, from + 1, record_address(record));
        lemma_other_files_untouched(next, plan, from + 1, record.backup_file_path);
    } else {
        lemma_pair_is_cleaned(next, plan, from + 1, index);
    }
}

/// The reports of the remaining pairs follow the earlier ones, one for each
/// pair in the order of the plan, and say whether the pair's key existed
/// before the run.
pub proof fn lemma_reports_follow_plan(
    host: HostModel,
    plan: Seq<BackupRecordModel>,
    from: nat,
    report: Seq<PairReportModel>,
)
    requires
        records_distinct(plan),
        from <= plan.len(),
    ensures
        ({
            let end = host.reports_after(plan, from, report);
            &&& end.len() == report.len() + plan.len() - from
            &&& forall|k: int| 0 <= k < report.len() ==> end[k] == report[k]
            &&& forall|i: int|
                from <= i < plan.len() ==> #[trigger] end[report.len() + i - from]
                    == host.pair_report(plan[i])
        }),
    decreases plan.len() - from,
{
    if from < plan.len() {
        let first = plan[from as int];
        let next = host.after_pair(first);
        let extended = report.push(host.pair_report(first));
        lemma_reports_follow_plan(next, plan, from + 1, extended);
        let end = host.reports_after(plan, from, report);
        assert forall|i: int| from <= i < plan.len() implies #[trigger] end[report.len() + i
            - from] == host.pair_report(plan[i]) by {
            if i != from {
                assert(end[extended.len() + i - (from + 1)] == next.pair_report(plan[i]));
            }
        }
    }
}

/// A cleanup run on the model host, given four requests per pair, finishes
/// with one report per pair in plan order. Every startup key of the host's
/// views is gone afterwards; each that existed is reported as cleaned and
/// its backup holds the values it had before the run; each that did not
/// exist is reported as skipped and its backup file is as it was. Every
/// other key of the registry is untouched.
pub proof fn lemma_cleanup_on_model_host(
    host: HostModel,
    is_64bit: bool,
    current_path: Seq<char>,
    fuel: nat,
)
    requires
        fuel >= 4 * cleanup_plan_spec(is_64bit, current_path).len(),
    ensures
        ({
            let plan = cleanup_plan_spec(is_64bit, current_path);
            let end = drive(host, CleanupModel::initial(is_64bit, current_path), fuel);
            &&& end.1.finished()
            &&& end.1.plan == plan
            &&& end.1.report.len() == plan.len()
            &&& forall|i: int|
                0 <= i < plan.len() ==> {
                    let record = #[trigger] plan[i];
                    let address = record_address(record);
                    &&& end.1.report[i] == host.pair_report(record)
                    &&& !end.0.registry.dom().contains(address)
                    &&& host.registry.dom().contains(address) ==> end.0.files.dom().contains(
                        record.backup_file_path,
                    ) && end.0.files[record.backup_file_path] == Some(
                        Snapshot {
                            key_path: record.source_key_path,
                            values: host.registry[address],
                        },
                    )
                    &&& !host.registry.dom().contains(address) ==> end.0.files.dom().contains(
                        record.backup_file_path,
                    ) == host.files.dom().contains(record.backup_file_path)
                }
            &&& end.0.registry == host.registry.remove_keys(plan_addresses(plan))
        }),
{
    let plan = cleanup_plan_spec(is_64bit, current_path);
    let start = CleanupModel::initial(is_64bit, current_path);
    start.lemma_initial_wf(is_64bit, current_path);
    lemma_plan_records_distinct(is_64bit, current_path);
    lemma_drive_processes_pairs_in_order(host, start, fuel);
    let end = drive(host, start, fuel);
    lemma_reports_follow_plan(host, plan, 0, start.report);
    assert forall|i: int| 0 <= i < plan.len() implies {
        let record = #[trigger] plan[i];
        let address = record_address(record);
        &&& end.1.report[i] == host.pair_report(record)
        &&& !end.0.registry.dom().contains(address)
        &&& host.registry.dom().contains(address) ==> end.0.files.dom().contains(
            record.backup_file_path,
        ) && end.0.files[record.backup_file_path] == Some(
            Snapshot { key_path: record.source_key_path, values: host.registry[address] },
        )
        &&& !host.registry.dom().contains(address) ==> end.0.files.dom().contains(
            record.backup_file_path,
        ) == host.files.dom().contains(record.backup_file_path)
    } by {
        lemma_pair_is_cleaned(host, plan, 0, i);
        assert(end.1.report[start.report.len() + i - 0] == host.pair_report(plan[i]));
    }
    let kept = host.registry.remove_keys(plan_addresses(plan));
    assert forall|address: KeyAddress| #[trigger]
        end.0.registry.dom().contains(address) == kept.dom().contains(address) && (
        end.0.registry.dom().contains(address) ==> end.0.registry[address] == kept[address]) by {
        if plan_addresses(plan).contains(address) {
            let i = choose|i: int|
                0 <= i < plan.len() && record_address(#[trigger] plan[i]) == address;
            lemma_pair_is_cleaned(host, plan, 0, i);
        } else {
            lemma_other_keys_untouched(host, plan, 0, address);
        }
    }
}

/// The host after the imports of `tasks` were run in order.
pub open spec fn run_imports(host: HostModel, tasks: Seq<ImportTaskModel>) -> HostModel
    decreases tasks.len(),
{
    if tasks.len() == 0 {
        host
    } else {
        run_imports(host, tasks.drop_last()).run(tasks.last().command()).0
    }
}

/// The data folder below `current_path`.
pub open spec fn data_folder_spec(current_path: Seq<char>) -> Seq<char> {
    child_path_spec(current_path, DATA_FOLDER_NAME@)
}

/// Nothing with a backup's name is listed but backups of startup keys that
/// exist on `host`.
pub open spec fn lists_only_backups(
    listing: Seq<DirectoryEntryModel>,
    host: HostModel,
    plan: Seq<BackupRecordModel>,
) -> bool {
    forall|k: int|
        0 <= k < listing.len() && is_backup_entry(#[trigger] listing[k]) ==> exists|i: int|
            0 <= i < plan.len() && host.registry.dom().contains(
                record_address(#[trigger] plan[i]),
            ) && listing[k].name == backup_file_name_spec(plan[i].hive, plan[i].view)
}

/// The backup of every startup key that exists on `host` is listed.
pub open spec fn lists_every_backup(
    listing: Seq<DirectoryEntryModel>,
    host: HostModel,
    plan: Seq<BackupRecordModel>,
) -> bool {
    forall|i: int|
        0 <= i < plan.len() && host.registry.dom().contains(record_address(#[trigger] plan[i]))
            ==> exists|k: int|
            0 <= k < listing.len() && is_backup_entry(#[trigger] listing[k]) && listing[k].name
                == backup_file_name_spec(plan[i].hive, plan[i].view)
}

/// The backups among the entries of `listing` are those of the startup keys
/// that exist on `host`: each such key has its backup listed, and nothing
/// else with a backup's name is listed.
pub open spec fn lists_backups_of(
    listing: Seq<DirectoryEntryModel>,
    host: HostModel,
    plan: Seq<BackupRecordModel>,
) -> bool {
    lists_only_backups(listing, host, plan) && lists_every_backup(listing, host, plan)
}

/// What a cleanup of `host` leaves: the registry without the keys of the
/// plan, and for every key of the plan that existed a backup with the
/// values it had.
pub open spec fn holds_backups(
    cleaned: HostModel,
    host: HostModel,
    plan: Seq<BackupRecordModel>,
) -> bool {
    &&& cleaned.registry == host.registry.remove_keys(plan_addresses(plan))
    &&& forall|i: int|
        0 <= i < plan.len() && host.registry.dom().contains(record_address(#[trigger] plan[i]))
            ==> cleaned.files.dom().contains(plan[i].backup_file_path)
            && cleaned.files[plan[i].backup_file_path] == Some(
            Snapshot {
                key_path: plan[i].source_key_path,
                values: host.registry[record_address(plan[i])],
            },
        )
}

/// A cleanup run on the model host leaves the backups of the keys it
/// removed.
pub proof fn lemma_cleanup_leaves_backups(
    host: HostModel,
    is_64bit: bool,
    current_path: Seq<char>,
    fuel: nat,
)
    requires
        fuel >= 4 * cleanup_plan_spec(is_64bit, current_path).len(),
    ensures
        holds_backups(
            drive(host, CleanupModel::initial(is_64bit, current_path), fuel).0,
            host,
            cleanup_plan_spec(is_64bit, current_path),
        ),
{
    lemma_cleanup_on_model_host(host, is_64bit, current_path, fuel);
}

/// What the imports of a listing have put back: nothing but what the host
/// held before the cleanup, nothing lost of what the cleanup left, and the
/// key of every backup listed.
pub proof fn lemma_imports_put_back(
    host: HostModel,
    cleaned: HostModel,
    is_64bit: bool,
    current_path: Seq<char>,
    listing: Seq<DirectoryEntryModel>,
)
    requires
        holds_backups(cleaned, host, cleanup_plan_spec(is_64bit, current_path)),
        lists_only_backups(listing, host, cleanup_plan_spec(is_64bit, current_path)),
    ensures
        ({
            let plan = cleanup_plan_spec(is_64bit, current_path);
            let restored = run_imports(
                cleaned,
                restore_plan_spec(data_folder_spec(current_path), listing),
            );
            &&& restored.files == cleaned.files
            &&& forall|address: KeyAddress| #[trigger]
                restored.registry.dom().contains(address) ==> host.registry.dom().contains(address)
                    && restored.registry[address] == host.registry[address]
            &&& forall|address: KeyAddress| #[trigger]
                cleaned.registry.dom().contains(address) ==> restored.registry.dom().contains(
                    address,
                )
            &&& forall|k: int, i: int|
                0 <= k < listing.len() && is_backup_entry(#[trigger] listing[k]) && 0 <= i
                    < plan.len() && listing[k].name == backup_file_name_spec(
                    plan[i].hive,
                    plan[i].view,
                ) ==> restored.registry.dom().contains(record_address(#[trigger] plan[i]))
        }),
    decreases listing.len(),
{
    let plan = cleanup_plan_spec(is_64bit, current_path);
    let folder = data_folder_spec(current_path);
    let restored = run_imports(cleaned, restore_plan_spec(folder, listing));
    if listing.len() > 0 {
        let shorter = listing.drop_last();
        let last = listing.last();
        lemma_imports_put_back(host, cleaned, is_64bit, current_path, shorter);
        lemma_plan_records_distinct(is_64bit, current_path);
        if is_backup_entry(last) {
            let i = choose|i: int|
                0 <= i < plan.len() && host.registry.dom().contains(
                    record_address(#[trigger] plan[i]),
                ) && last.name == backup_file_name_spec(plan[i].hive, plan[i].view);
            let record = plan[i];
            lemma_backup_name_is_recognised(record.hive, record.view);
            let tasks = restore_plan_spec(folder, listing);
            assert(tasks.drop_last() =~= restore_plan_spec(folder, shorter));
            assert forall|k: int, j: int|
                0 <= k < listing.len() && is_backup_entry(#[trigger] listing[k]) && 0 <= j
                    < plan.len() && listing[k].name == backup_file_name_spec(
                    plan[j].hive,
                    plan[j].view,
                ) implies restored.registry.dom().contains(record_address(#[trigger] plan[j])) by {
                if k < shorter.len() {
                    assert(shorter[k] == listing[k]);
                } else {
                    lemma_backup_file_name_injective(
                        plan[j].hive,
                        plan[j].view,
                        record.hive,
                        record.view,
                    );
                }
            }
        } else {
            assert forall|k: int, j: int|
                0 <= k < listing.len() && is_backup_entry(#[trigger] listing[k]) && 0 <= j
                    < plan.len() && listing[k].name == backup_file_name_spec(
                    plan[j].hive,
                    plan[j].view,
                ) implies restored.registry.dom().contains(record_address(#[trigger] plan[j])) by {
                assert(shorter[k] == listing[k]);
            }
        }
    }
}

/// Across the reboot: a cleanup run on the model host, followed by the
/// restore agent importing what it finds in the data folder, leaves the
/// registry as it was before the cleanup, provided that the folder lists
/// the backups of the keys that existed and no other file with a backup's
/// name.
pub proof fn lemma_cleanup_then_restore(
    host: HostModel,
    is_64bit: bool,
    current_path: Seq<char>,
    fuel: nat,
    listing: Seq<DirectoryEntryModel>,
)
    requires
        fuel >= 4 * cleanup_plan_spec(is_64bit, current_path).len(),
        lists_backups_of(listing, host, cleanup_plan_spec(is_64bit, current_path)),
    ensures
        run_imports(
            drive(host, CleanupModel::initial(is_64bit, current_path), fuel).0,
            restore_plan_spec(data_folder_spec(current_path), listing),
        ).registry == host.registry,
{
    let plan = cleanup_plan_spec(is_64bit, current_path);
    let cleaned = drive(host, CleanupModel::initial(is_64bit, current_path), fuel).0;
    lemma_cleanup_leaves_backups(host, is_64bit, current_path, fuel);
    lemma_imports_put_back(host, cleaned, is_64bit, current_path, listing);
    let restored = run_imports(cleaned, restore_plan_spec(data_folder_spec(current_path), listing));
    assert forall|address: KeyAddress| #[trigger]
        host.registry.dom().contains(address) implies restored.registry.dom().contains(
        address,
    ) by {
        if !plan_addresses(plan).contains(address) {
            assert(cleaned.registry.dom().contains(address));
        }
    }
}

} // verus!
