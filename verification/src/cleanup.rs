//! The cleanup orchestrator: for every view of every hive, probe the startup
//! key, create the backup file, export the key and, only after a successful
//! export, delete it. The orchestrator decides; the caller performs each
//! request on the host and hands back the host's reply.

use vstd::prelude::*;
use crate::backup::{
    BackupRecord, BackupRecordModel, backup_record, backup_record_spec, hive_records_spec,
    records_model,
};
use crate::command::{
    RegCommand, RegCommandModel, delete_registry_key, export_registry_key_to_file,
};
use crate::constants::REGISTRY_STARTUP_PATH;
use crate::failure::{
    Failure, FailureCause, FailureModel, HostReply, command_cause, command_cause_spec,
};
use crate::hive::{Hive, RegistryView};
use crate::views::{host_views, resolve_views, target_spec, targets_model};

verus! {

/// What is being waited for while one (hive, view) pair is processed.
#[derive(Clone, Copy, Debug, PartialEq, Eq, Structural)]
pub enum Stage {
    /// Whether the startup key exists in this view.
    Probe,
    /// The creation of the empty backup file.
    CreateFile,
    /// The export of the key to the backup file.
    Export,
    /// The deletion of the key.
    Delete,
}

/// A request to the host.
#[derive(Debug, PartialEq, Eq)]
pub enum CleanupAction {
    /// Open the key at `key_path` below `hive`, through `view`.
    ProbeKey { hive: Hive, view: RegistryView, key_path: String },
    /// Create the file at `file_path`, emptying it if it exists.
    CreateBackupFile { file_path: String },
    /// Run the registry tool.
    Run { command: RegCommand },
    /// Nothing is left to do.
    Finished,
}

/// What a `CleanupAction` stands for.
pub enum CleanupActionModel {
    ProbeKey { hive: Hive, view: RegistryView, key_path: Seq<char> },
    CreateBackupFile { file_path: Seq<char> },
    Run { command: RegCommandModel },
    Finished,
}

impl View for CleanupAction {
    type V = CleanupActionModel;

    open spec fn view(&self) -> CleanupActionModel {
        match self {
            CleanupAction::ProbeKey { hive, view, key_path } => CleanupActionModel::ProbeKey {
                hive: *hive,
                view: *view,
                key_path: key_path@,
            },
            CleanupAction::CreateBackupFile { file_path } => CleanupActionModel::CreateBackupFile {
                file_path: file_path@,
            },
            CleanupAction::Run { command } => CleanupActionModel::Run { command: command@ },
            CleanupAction::Finished => CleanupActionModel::Finished,
        }
    }
}

/// How the processing of one pair ended.
#[derive(Debug, PartialEq, Eq)]
pub enum PairOutcome {
    /// The key does not exist in this view: nothing was exported or deleted.
    Skipped,
    /// The export or the deletion failed.
    Failed { failure: Failure },
    /// The key was exported and then deleted.
    Cleaned,
}

/// What a `PairOutcome` stands for.
pub enum PairOutcomeModel {
    Skipped,
    Failed { failure: FailureModel },
    Cleaned,
}

impl View for PairOutcome {
    type V = PairOutcomeModel;

    open spec fn view(&self) -> PairOutcomeModel {
        match self {
            PairOutcome::Skipped => PairOutcomeModel::Skipped,
            PairOutcome::Failed { failure } => PairOutcomeModel::Failed { failure: failure@ },
            PairOutcome::Cleaned => PairOutcomeModel::Cleaned,
        }
    }
}

/// The outcome of one pair, with the pair it belongs to.
#[derive(Debug, PartialEq, Eq)]
pub struct PairReport {
    pub hive: Hive,
    pub view: RegistryView,
    pub outcome: PairOutcome,
}

/// What a `PairReport` stands for.
pub struct PairReportModel {
    pub hive: Hive,
    pub view: RegistryView,
    pub outcome: PairOutcomeModel,
}

impl View for PairReport {
    type V = PairReportModel;

    open spec fn view(&self) -> PairReportModel {
        PairReportModel { hive: self.hive, view: self.view, outcome: self.outcome@ }
    }
}

/// What a list of reports stands for.
pub open spec fn reports_model(reports: Seq<PairReport>) -> Seq<PairReportModel> {
    reports.map_values(|r: PairReport| r@)
}

/// What follows a reply while one pair is processed.
#[derive(Debug, PartialEq, Eq)]
pub enum PairStep {
    /// The pair moves on to `stage`, and `action` is requested.
    Continue { stage: Stage, action: CleanupAction },
    /// The pair is done.
    Finished { outcome: PairOutcome },
}

/// What a `PairStep` stands for.
pub enum PairStepModel {
    Continue { stage: Stage, action: CleanupActionModel },
    Finished { outcome: PairOutcomeModel },
}

impl View for PairStep {
    type V = PairStepModel;

    open spec fn view(&self) -> PairStepModel {
        match self {
            PairStep::Continue { stage, action } => PairStepModel::Continue {
                stage: *stage,
                action: action@,
            },
            PairStep::Finished { outcome } => PairStepModel::Finished { outcome: outcome@ },
        }
    }
}

/// The export command of a record.
pub open spec fn export_command_spec(record: BackupRecordModel) -> RegCommandModel {
    RegCommandModel::Export {
        key_path: record.source_key_path,
        file_path: record.backup_file_path,
        is_64bit_view: record.view.targets_64bit(),
    }
}

/// The delete command of a record: the key and the scope of its export.
pub open spec fn delete_command_spec(record: BackupRecordModel) -> RegCommandModel {
    RegCommandModel::Delete {
        key_path: record.source_key_path,
        is_64bit_view: record.view.targets_64bit(),
    }
}

/// The request that a stage of a pair makes to the host.
pub open spec fn stage_action(record: BackupRecordModel, stage: Stage) -> CleanupActionModel {
    match stage {
        Stage::Probe => CleanupActionModel::ProbeKey {
            hive: record.hive,
            view: record.view,
            key_path: REGISTRY_STARTUP_PATH@,
        },
        Stage::CreateFile => CleanupActionModel::CreateBackupFile {
            file_path: record.backup_file_path,
        },
        Stage::Export => CleanupActionModel::Run { command: export_command_spec(record) },
        Stage::Delete => CleanupActionModel::Run { command: delete_command_spec(record) },
    }
}

/// The failure recorded when the export of a record does not succeed.
pub open spec fn export_failure_spec(
    record: BackupRecordModel,
    cause: FailureCause,
) -> PairOutcomeModel {
    PairOutcomeModel::Failed {
        failure: FailureModel::ExportFailure {
            hive: record.hive,
            view: record.view,
            key_path: record.source_key_path,
            file_path: record.backup_file_path,
            cause,
        },
    }
}

/// The failure recorded when the deletion of a record's key does not succeed.
pub open spec fn delete_failure_spec(
    record: BackupRecordModel,
    cause: FailureCause,
) -> PairOutcomeModel {
    PairOutcomeModel::Failed {
        failure: FailureModel::DeleteFailure {
            hive: record.hive,
            view: record.view,
            key_path: record.source_key_path,
            cause,
        },
    }
}

/// The pair moves on to `stage`.
pub open spec fn continue_with(record: BackupRecordModel, stage: Stage) -> PairStepModel {
    PairStepModel::Continue { stage, action: stage_action(record, stage) }
}

/// What follows the host's reply to the request of `stage`. A missing key
/// skips the pair. The key is deleted only after its export has succeeded;
/// every failure ends the pair and is recorded with it.
pub open spec fn pair_step_spec(
    record: BackupRecordModel,
    stage: Stage,
    reply: HostReply,
) -> PairStepModel {
    match stage {
        Stage::Probe => if reply == HostReply::Completed {
            continue_with(record, Stage::CreateFile)
        } else {
            PairStepModel::Finished { outcome: PairOutcomeModel::Skipped }
        },
        Stage::CreateFile => if reply == HostReply::Completed {
            continue_with(record, Stage::Export)
        } else {
            PairStepModel::Finished {
                outcome: export_failure_spec(record, FailureCause::BackupFileNotCreated),
            }
        },
        Stage::Export => if reply == HostReply::Completed {
            continue_with(record, Stage::Delete)
        } else {
            PairStepModel::Finished {
                outcome: export_failure_spec(record, command_cause_spec(reply)),
            }
        },
        Stage::Delete => if reply == HostReply::Completed {
            PairStepModel::Finished { outcome: PairOutcomeModel::Cleaned }
        } else {
            PairStepModel::Finished {
                outcome: delete_failure_spec(record, command_cause_spec(reply)),
            }
        },
    }
}

/// The records of a whole run, in processing order: every view of the machine
/// hive, then every view of the user hive.
pub open spec fn cleanup_plan_spec(is_64bit: bool, current_path: Seq<char>) -> Seq<
    BackupRecordModel,
> {
    hive_records_spec(Hive::LocalMachine, is_64bit, current_path) + hive_records_spec(
        Hive::CurrentUser,
        is_64bit,
        current_path,
    )
}

/// The state of a cleanup run.
pub struct CleanupModel {
    /// The pairs to process, in order.
    pub plan: Seq<BackupRecordModel>,
    /// The index of the pair that is being processed.
    pub cursor: nat,
    /// What is being waited for.
    pub stage: Stage,
    /// The outcomes of the pairs already processed.
    pub report: Seq<PairReportModel>,
}

/// The number of replies a pair still takes at most from `stage` on.
pub open spec fn stage_budget(stage: Stage) -> nat {
    match stage {
        Stage::Probe => 4,
        Stage::CreateFile => 3,
        Stage::Export => 2,
        Stage::Delete => 1,
    }
}

impl CleanupModel {
    /// The state before the first request.
    pub open spec fn initial(is_64bit: bool, current_path: Seq<char>) -> CleanupModel {
        CleanupModel {
            plan: cleanup_plan_spec(is_64bit, current_path),
            cursor: 0,
            stage: Stage::Probe,
            report: seq![],
        }
    }

    /// One report for every pair already processed, in the order of the
    /// plan; a finished run rests in its first stage.
    pub open spec fn wf(self) -> bool {
        &&& self.cursor <= self.plan.len()
        &&& self.report.len() == self.cursor
        &&& forall|i: int|
            0 <= i < self.cursor ==> (#[trigger] self.report[i]).hive == self.plan[i].hive
                && self.report[i].view == self.plan[i].view
        &&& self.cursor == self.plan.len() ==> self.stage == Stage::Probe
    }

    /// Whether every pair has been processed.
    pub open spec fn finished(self) -> bool {
        self.cursor >= self.plan.len()
    }

    /// The request that is waiting for the host's reply.
    pub open spec fn pending_action(self) -> CleanupActionModel {
        if self.finished() {
            CleanupActionModel::Finished
        } else {
            stage_action(self.plan[self.cursor as int], self.stage)
        }
    }

    /// The state after the host's reply to the pending request. A pair that
    /// ends, however it ends, is reported and the next pair begins.
    pub open spec fn step(self, reply: HostReply) -> CleanupModel {
        if self.finished() {
            self
        } else {
            let record = self.plan[self.cursor as int];
            match pair_step_spec(record, self.stage, reply) {
                PairStepModel::Continue { stage, .. } => CleanupModel { stage, ..self },
                PairStepModel::Finished { outcome } => CleanupModel {
                    cursor: self.cursor + 1,
                    stage: Stage::Probe,
                    report: self.report.push(
                        PairReportModel { hive: record.hive, view: record.view, outcome },
                    ),
                    ..self
                },
            }
        }
    }

    /// An upper bound on the replies the run still takes.
    pub open spec fn remaining_steps(self) -> nat {
        if self.finished() {
            0
        } else {
            (4 * (self.plan.len() - self.cursor - 1) + stage_budget(self.stage)) as nat
        }
    }
}

/// The request that a stage of a pair makes to the host.
pub fn stage_request(record: &BackupRecord, stage: Stage) -> (action: CleanupAction)
    ensures
        action@ == stage_action(record@, stage),
{
    match stage {
        Stage::Probe => CleanupAction::ProbeKey {
            hive: record.hive,
            view: record.view,
            key_path: String::from_str(REGISTRY_STARTUP_PATH),
        },
        Stage::CreateFile => CleanupAction::CreateBackupFile {
            file_path: record.backup_file_path.clone(),
        },
        Stage::Export => CleanupAction::Run {
            command: export_registry_key_to_file(
                record.backup_file_path.as_str(),
                record.source_key_path.as_str(),
                record.view.is_64bit_view(),
            ),
        },
        Stage::Delete => CleanupAction::Run {
            command: delete_registry_key(
                record.source_key_path.as_str(),
                record.view.is_64bit_view(),
            ),
        },
    }
}

/// The failure recorded when the export of a record does not succeed.
fn export_failure(record: &BackupRecord, cause: FailureCause) -> (outcome: PairOutcome)
    ensures
        outcome@ == export_failure_spec(record@, cause),
{
    PairOutcome::Failed {
        failure: Failure::ExportFailure {
            hive: record.hive,
            view: record.view,
            key_path: record.source_key_path.clone(),
            file_path: record.backup_file_path.clone(),
            cause,
        },
    }
}

/// The failure recorded when the deletion of a record's key does not succeed.
fn delete_failure(record: &BackupRecord, cause: FailureCause) -> (outcome: PairOutcome)
    ensures
        outcome@ == delete_failure_spec(record@, cause),
{
    PairOutcome::Failed {
        failure: Failure::DeleteFailure {
            hive: record.hive,
            view: record.view,
            key_path: record.source_key_path.clone(),
            cause,
        },
    }
}

/// Decides what follows the host's reply while the pair of `record` is at
/// `stage`: the next request for the same pair, or the pair's outcome.
pub fn export_and_delete_registry_key(record: &BackupRecord, stage: Stage, reply: HostReply) -> (step:
    PairStep)
    ensures
        step@ == pair_step_spec(record@, stage, reply),
{
    let completed = reply.is_completed();
    match stage {
        Stage::Probe => if completed {
            PairStep::Continue {
                stage: Stage::CreateFile,
                action: stage_request(record, Stage::CreateFile),
            }
        } else {
            PairStep::Finished { outcome: PairOutcome::Skipped }
        },
        Stage::CreateFile => if completed {
            PairStep::Continue {
                stage: Stage::Export,
                action: stage_request(record, Stage::Export),
            }
        } else {
            PairStep::Finished {
                outcome: export_failure(record, FailureCause::BackupFileNotCreated),
            }
        },
        Stage::Export => if completed {
            PairStep::Continue {
                stage: Stage::Delete,
                action: stage_request(record, Stage::Delete),
            }
        } else {
            PairStep::Finished { outcome: export_failure(record, command_cause(reply)) }
        },
        Stage::Delete => if completed {
            PairStep::Finished { outcome: PairOutcome::Cleaned }
        } else {
            PairStep::Finished { outcome: delete_failure(record, command_cause(reply)) }
        },
    }
}

/// The records of one hive, from the view resolver's answer for that hive.
pub fn hive_records(hive: Hive, is_64bit: bool, current_path: &str) -> (records: Vec<BackupRecord>)
    ensures
        records_model(records@) == hive_records_spec(hive, is_64bit, current_path@),
        records.len() == host_views(is_64bit).len(),
        forall|i: int|
            0 <= i < records.len() ==> (#[trigger] records[i])@ == backup_record_spec(
                hive,
                host_views(is_64bit)[i],
                current_path@,
            ),
{
    let targets = resolve_views(hive, is_64bit);
    let mut records: Vec<BackupRecord> = Vec::new();
    let mut i: usize = 0;
    while i < targets.len()
        invariant
            i <= targets.len(),
            records.len() == i,
            targets.len() == host_views(is_64bit).len(),
            targets_model(targets@) == host_views(is_64bit).map_values(
                |view: RegistryView| target_spec(view),
            ),
            forall|j: int|
                0 <= j < i ==> (#[trigger] records[j])@ == backup_record_spec(
                    hive,
                    host_views(is_64bit)[j],
                    current_path@,
                ),
        decreases targets.len() - i,
    {
        assert(targets_model(targets@)[i as int] == targets[i as int]@);
        let record = backup_record(hive, &targets[i], current_path);
        records.push(record);
        i += 1;
    }
    records
}

/// A cleanup run in progress.
#[derive(Debug)]
pub struct Cleanup {
    plan: Vec<BackupRecord>,
    cursor: usize,
    stage: Stage,
    report: Vec<PairReport>,
}

impl View for Cleanup {
    type V = CleanupModel;

    closed spec fn view(&self) -> CleanupModel {
        CleanupModel {
            plan: records_model(self.plan@),
            cursor: self.cursor as nat,
            stage: self.stage,
            report: reports_model(self.report@),
        }
    }
}

impl Cleanup {
    #[verifier::type_invariant]
    spec fn inv(self) -> bool {
        self@.wf()
    }

    /// Whether every pair has been processed.
    pub fn is_finished(&self) -> (b: bool)
        ensures
            b == self@.finished(),
    {
        self.cursor >= self.plan.len()
    }

    /// The pairs of the run, in processing order.
    pub fn plan(&self) -> (plan: &Vec<BackupRecord>)
        ensures
            records_model(plan@) == self@.plan,
    {
        &self.plan
    }

    /// The outcomes of the pairs processed so far, in processing order.
    pub fn report(&self) -> (report: &Vec<PairReport>)
        ensures
            reports_model(report@) == self@.report,
    {
        &self.report
    }

    /// The request that is waiting for the host's reply.
    pub fn pending_request(&self) -> (action: CleanupAction)
        ensures
            action@ == self@.pending_action(),
    {
        if self.cursor >= self.plan.len() {
            CleanupAction::Finished
        } else {
            stage_request(&self.plan[self.cursor], self.stage)
        }
    }

    /// Takes the host's reply to the pending request and returns the run in
    /// its next state together with the next request. A failure ends the
    /// pair it belongs to and nothing else.
    pub fn advance(self, reply: HostReply) -> (next: (Cleanup, CleanupAction))
        ensures
            next.0@ == self@.step(reply),
            next.0@.wf(),
            next.1@ == next.0@.pending_action(),
            next.0@.remaining_steps() < self@.remaining_steps() || self@.finished(),
    {
        proof {
            use_type_invariant(&self);
            self@.lemma_step_preserves_wf(reply);
            if !self@.finished() {
                self@.lemma_step_decreases(reply);
            }
        }
        if self.cursor >= self.plan.len() {
            return (self, CleanupAction::Finished);
        }
        let ghost before = self@;
        let Cleanup { plan, cursor, stage, report } = self;
        let step = export_and_delete_registry_key(&plan[cursor], stage, reply);
        match step {
            PairStep::Continue { stage: next_stage, action } => {
                let next = Cleanup { plan, cursor, stage: next_stage, report };
                (next, action)
            },
            PairStep::Finished { outcome } => {
                let mut report = report;
                let ghost earlier = report@;
                let entry = PairReport { hive: plan[cursor].hive, view: plan[cursor].view, outcome };
                report.push(entry);
                assert(reports_model(report@) =~= reports_model(earlier).push(entry@));
                let next = Cleanup { plan, cursor: cursor + 1, stage: Stage::Probe, report };
                let action = next.pending_request();
                (next, action)
            },
        }
    }
}

/// Starts a cleanup run on a host of the given bitness, with the backups in
/// the data folder below `current_path`. The machine hive is processed
/// before the user hive; within a hive the views come in the resolver's
/// order. Returns the run and its first request.
pub fn export_and_delete_startup_registry_keys(is_64bit: bool, current_path: &str) -> (start: (
    Cleanup,
    CleanupAction,
))
    ensures
        start.0@ == CleanupModel::initial(is_64bit, current_path@),
        start.0@.wf(),
        start.1@ == start.0@.pending_action(),
{
    let mut plan = hive_records(Hive::LocalMachine, is_64bit, current_path);
    let mut user = hive_records(Hive::CurrentUser, is_64bit, current_path);
    let ghost machine = plan@;
    let ghost user_records = user@;
    plan.append(&mut user);
    assert(records_model(plan@) =~= records_model(machine) + records_model(user_records));
    let report: Vec<PairReport> = Vec::new();
    assert(reports_model(report@) =~= seq![]);
    proof {
        CleanupModel::initial(is_64bit, current_path@).lemma_initial_wf(is_64bit, current_path@);
    }
    let run = Cleanup { plan, cursor: 0, stage: Stage::Probe, report };
    let action = run.pending_request();
    (run, action)
}

impl CleanupModel {
    /// The initial state is well formed and its plan holds every view of
    /// both hives.
    pub proof fn lemma_initial_wf(self, is_64bit: bool, current_path: Seq<char>)
        requires
            self == CleanupModel::initial(is_64bit, current_path),
        ensures
            self.wf(),
            self.plan.len() == 2 * host_views(is_64bit).len(),
            self.plan.len() >= 2,
    {
    }

    /// A step keeps the state well formed, never changes the plan, and only
    /// adds to the report.
    pub proof fn lemma_step_preserves_wf(self, reply: HostReply)
        requires
            self.wf(),
        ensures
            self.step(reply).wf(),
            self.step(reply).plan == self.plan,
            self.report.is_prefix_of(self.step(reply).report),
    {
    }

    /// Every step of an unfinished run brings the end nearer.
    pub proof fn lemma_step_decreases(self, reply: HostReply)
        requires
            self.wf(),
            !self.finished(),
        ensures
            self.step(reply).remaining_steps() < self.remaining_steps(),
    {
    }
}

} // verus!
