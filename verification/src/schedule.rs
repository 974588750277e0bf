//! The resume scheduler: what is written to the registry before the reboot
//! so that the work goes on afterwards. Two run-once entries name the
//! executables to launch, by absolute paths fixed when scheduling starts; a
//! marker under the vendor key says that the reboot was issued.

use vstd::prelude::*;
use crate::constants::{
    REBOOTED_KEY_NAME, REBOOTED_KEY_VALUE, REBOOT_REGISTRY_PATH, REGISTRY_RESTORE_EXECUTABLE,
    REGISTRY_RUNONCE_PATH, RESTORE_TASK_NAME, SETUP_EXE_NAME, SETUP_TASK_NAME,
};
use crate::failure::{Failure, FailureModel, HostReply, ScheduleStep};
use crate::hive::{Hive, RegistryView};
use crate::paths::{data_path, data_path_spec};
use crate::text::{decimal_spec, same_text, signed_decimal, signed_decimal_spec};

verus! {

/// A named value of the run-once key: the command the system launches once
/// after the next boot. Writing a name again replaces its command.
#[derive(Debug, PartialEq, Eq)]
pub struct RunOnceEntry {
    pub name: String,
    pub command_path: String,
}

/// What a `RunOnceEntry` stands for.
pub struct RunOnceEntryModel {
    pub name: Seq<char>,
    pub command_path: Seq<char>,
}

impl View for RunOnceEntry {
    type V = RunOnceEntryModel;

    open spec fn view(&self) -> RunOnceEntryModel {
        RunOnceEntryModel { name: self.name@, command_path: self.command_path@ }
    }
}

/// How far scheduling has come.
#[derive(Clone, Copy, Debug, PartialEq, Eq, Structural)]
pub enum ScheduleState {
    /// Waiting for the run-once key to be opened.
    OpeningKey,
    /// Waiting for the entry of the setup continuation to be written.
    WritingSetup,
    /// Waiting for the entry of the restore agent to be written.
    WritingRestore,
    /// Both entries are written.
    Scheduled,
    /// A step did not succeed; what was written before it stays written.
    Failed { step: ScheduleStep },
}

/// A request to the host.
#[derive(Debug, PartialEq, Eq)]
pub enum ScheduleAction {
    /// Open the key at `key_path` below `hive` for writing, through `view`.
    OpenRunOnceKey { hive: Hive, view: RegistryView, key_path: String },
    /// Write the entry into the opened key.
    WriteValue { entry: RunOnceEntry },
    /// Nothing is left to do.
    Finished,
}

/// What a `ScheduleAction` stands for.
pub enum ScheduleActionModel {
    OpenRunOnceKey { hive: Hive, view: RegistryView, key_path: Seq<char> },
    WriteValue { entry: RunOnceEntryModel },
    Finished,
}

impl View for ScheduleAction {
    type V = ScheduleActionModel;

    open spec fn view(&self) -> ScheduleActionModel {
        match self {
            ScheduleAction::OpenRunOnceKey { hive, view, key_path } => {
                ScheduleActionModel::OpenRunOnceKey {
                    hive: *hive,
                    view: *view,
                    key_path: key_path@,
                }
            },
            ScheduleAction::WriteValue { entry } => ScheduleActionModel::WriteValue {
                entry: entry@,
            },
            ScheduleAction::Finished => ScheduleActionModel::Finished,
        }
    }
}

/// The entry that launches the setup continuation from the data folder below
/// `current_path`.
pub open spec fn setup_entry_spec(current_path: Seq<char>) -> RunOnceEntryModel {
    RunOnceEntryModel {
        name: SETUP_TASK_NAME@,
        command_path: data_path_spec(current_path, SETUP_EXE_NAME@),
    }
}

/// The entry that launches the restore agent from the data folder below
/// `current_path`.
pub open spec fn restore_entry_spec(current_path: Seq<char>) -> RunOnceEntryModel {
    RunOnceEntryModel {
        name: RESTORE_TASK_NAME@,
        command_path: data_path_spec(current_path, REGISTRY_RESTORE_EXECUTABLE@),
    }
}

/// The state after the host's reply. Each step is tried once; the first one
/// that does not succeed ends scheduling, and nothing undoes an earlier one.
pub open spec fn schedule_step_spec(state: ScheduleState, reply: HostReply) -> ScheduleState {
    match state {
        ScheduleState::OpeningKey => if reply == HostReply::Completed {
            ScheduleState::WritingSetup
        } else {
            ScheduleState::Failed { step: ScheduleStep::OpenRunOnceKey }
        },
        ScheduleState::WritingSetup => if reply == HostReply::Completed {
            ScheduleState::WritingRestore
        } else {
            ScheduleState::Failed { step: ScheduleStep::WriteSetupEntry }
        },
        ScheduleState::WritingRestore => if reply == HostReply::Completed {
            ScheduleState::Scheduled
        } else {
            ScheduleState::Failed { step: ScheduleStep::WriteRestoreEntry }
        },
        ScheduleState::Scheduled => state,
        ScheduleState::Failed { .. } => state,
    }
}

/// The failure of a scheduling step, with the key it concerns.
pub open spec fn schedule_failure_spec(step: ScheduleStep) -> FailureModel {
    FailureModel::ScheduleFailure {
        hive: Hive::LocalMachine,
        view: RegistryView::Wow64_64,
        key_path: REGISTRY_RUNONCE_PATH@,
        step,
    }
}

/// The state of scheduling.
pub struct SchedulerModel {
    pub setup: RunOnceEntryModel,
    pub restore: RunOnceEntryModel,
    pub state: ScheduleState,
}

impl SchedulerModel {
    /// The state before the first request.
    pub open spec fn initial(current_path: Seq<char>) -> SchedulerModel {
        SchedulerModel {
            setup: setup_entry_spec(current_path),
            restore: restore_entry_spec(current_path),
            state: ScheduleState::OpeningKey,
        }
    }

    /// Whether scheduling has ended, well or not.
    pub open spec fn finished(self) -> bool {
        self.state is Scheduled || self.state is Failed
    }

    /// The request that is waiting for the host's reply.
    pub open spec fn pending_action(self) -> ScheduleActionModel {
        match self.state {
            ScheduleState::OpeningKey => ScheduleActionModel::OpenRunOnceKey {
                hive: Hive::LocalMachine,
                view: RegistryView::Wow64_64,
                key_path: REGISTRY_RUNONCE_PATH@,
            },
            ScheduleState::WritingSetup => ScheduleActionModel::WriteValue { entry: self.setup },
            ScheduleState::WritingRestore => ScheduleActionModel::WriteValue {
                entry: self.restore,
            },
            _ => ScheduleActionModel::Finished,
        }
    }

    /// The state after the host's reply to the pending request.
    pub open spec fn step(self, reply: HostReply) -> SchedulerModel {
        SchedulerModel { state: schedule_step_spec(self.state, reply), ..self }
    }

    /// What scheduling came to: nothing while it is under way, then success
    /// or the failure of the step that did not succeed.
    pub open spec fn result(self) -> Option<Result<(), FailureModel>> {
        match self.state {
            ScheduleState::Scheduled => Some(Ok(())),
            ScheduleState::Failed { step } => Some(Err(schedule_failure_spec(step))),
            _ => None,
        }
    }
}

/// What a scheduling result stands for.
pub open spec fn result_model(result: Option<Result<(), Failure>>) -> Option<
    Result<(), FailureModel>,
> {
    match result {
        None => None,
        Some(Ok(_)) => Some(Ok(())),
        Some(Err(failure)) => Some(Err(failure@)),
    }
}

/// The state after the host's reply.
pub fn schedule_step(state: ScheduleState, reply: HostReply) -> (next: ScheduleState)
    ensures
        next == schedule_step_spec(state, reply),
{
    let completed = reply.is_completed();
    match state {
        ScheduleState::OpeningKey => if completed {
            ScheduleState::WritingSetup
        } else {
            ScheduleState::Failed { step: ScheduleStep::OpenRunOnceKey }
        },
        ScheduleState::WritingSetup => if completed {
            ScheduleState::WritingRestore
        } else {
            ScheduleState::Failed { step: ScheduleStep::WriteSetupEntry }
        },
        ScheduleState::WritingRestore => if completed {
            ScheduleState::Scheduled
        } else {
            ScheduleState::Failed { step: ScheduleStep::WriteRestoreEntry }
        },
        ScheduleState::Scheduled => state,
        ScheduleState::Failed { .. } => state,
    }
}

/// Scheduling in progress.
#[derive(Debug, PartialEq, Eq)]
pub struct Scheduler {
    setup: RunOnceEntry,
    restore: RunOnceEntry,
    state: ScheduleState,
}

impl View for Scheduler {
    type V = SchedulerModel;

    closed spec fn view(&self) -> SchedulerModel {
        SchedulerModel { setup: self.setup@, restore: self.restore@, state: self.state }
    }
}

impl Scheduler {
    /// How far scheduling has come.
    pub fn state(&self) -> (state: ScheduleState)
        ensures
            state == self@.state,
    {
        self.state
    }

    /// Whether scheduling has ended, well or not.
    pub fn is_finished(&self) -> (b: bool)
        ensures
            b == self@.finished(),
    {
        match self.state {
            ScheduleState::Scheduled => true,
            ScheduleState::Failed { .. } => true,
            _ => false,
        }
    }

    /// The entry of the setup continuation.
    pub fn setup_entry(&self) -> (entry: &RunOnceEntry)
        ensures
            entry@ == self@.setup,
    {
        &self.setup
    }

    /// The entry of the restore agent.
    pub fn restore_entry(&self) -> (entry: &RunOnceEntry)
        ensures
            entry@ == self@.restore,
    {
        &self.restore
    }

    /// The request that is waiting for the host's reply.
    pub fn pending_request(&self) -> (action: ScheduleAction)
        ensures
            action@ == self@.pending_action(),
    {
        match self.state {
            ScheduleState::OpeningKey => ScheduleAction::OpenRunOnceKey {
                hive: Hive::LocalMachine,
                view: RegistryView::Wow64_64,
                key_path: String::from_str(REGISTRY_RUNONCE_PATH),
            },
            ScheduleState::WritingSetup => ScheduleAction::WriteValue {
                entry: RunOnceEntry {
                    name: self.setup.name.clone(),
                    command_path: self.setup.command_path.clone(),
                },
            },
            ScheduleState::WritingRestore => ScheduleAction::WriteValue {
                entry: RunOnceEntry {
                    name: self.restore.name.clone(),
                    command_path: self.restore.command_path.clone(),
                },
            },
            _ => ScheduleAction::Finished,
        }
    }

    /// What scheduling came to: nothing while it is under way, then success
    /// or the failure of the step that did not succeed.
    pub fn result(&self) -> (result: Option<Result<(), Failure>>)
        ensures
            result_model(result) == self@.result(),
    {
        match self.state {
            ScheduleState::Scheduled => Some(Ok(())),
            ScheduleState::Failed { step } => Some(
                Err(
                    Failure::ScheduleFailure {
                        hive: Hive::LocalMachine,
                        view: RegistryView::Wow64_64,
                        key_path: String::from_str(REGISTRY_RUNONCE_PATH),
                        step,
                    },
                ),
            ),
            _ => None,
        }
    }

    /// Takes the host's reply to the pending request and returns scheduling
    /// in its next state together with the next request.
    pub fn advance(self, reply: HostReply) -> (next: (Scheduler, ScheduleAction))
        ensures
            next.0@ == self@.step(reply),
            next.1@ == next.0@.pending_action(),
    {
        let Scheduler { setup, restore, state } = self;
        let next = Scheduler { setup, restore, state: schedule_step(state, reply) };
        let action = next.pending_request();
        (next, action)
    }
}

/// Starts scheduling the work that follows the reboot: the setup
/// continuation and the restore agent, both in the data folder below
/// `current_path`. The paths are fixed here, from the working directory of
/// the caller, because the working directory after the reboot is another.
/// Returns the scheduler and its first request.
pub fn schedule_setup_task(current_path: &str) -> (start: (Scheduler, ScheduleAction))
    ensures
        start.0@ == SchedulerModel::initial(current_path@),
        start.1@ == start.0@.pending_action(),
{
    let scheduler = Scheduler {
        setup: RunOnceEntry {
            name: String::from_str(SETUP_TASK_NAME),
            command_path: data_path(current_path, SETUP_EXE_NAME),
        },
        restore: RunOnceEntry {
            name: String::from_str(RESTORE_TASK_NAME),
            command_path: data_path(current_path, REGISTRY_RESTORE_EXECUTABLE),
        },
        state: ScheduleState::OpeningKey,
    };
    let action = scheduler.pending_request();
    (scheduler, action)
}

/// The value that marks the reboot as issued.
#[derive(Debug, PartialEq, Eq)]
pub struct RebootMarker {
    pub hive: Hive,
    pub view: RegistryView,
    pub key_path: String,
    pub name: String,
    pub data: String,
}

/// What a `RebootMarker` stands for.
pub struct RebootMarkerModel {
    pub hive: Hive,
    pub view: RegistryView,
    pub key_path: Seq<char>,
    pub name: Seq<char>,
    pub data: Seq<char>,
}

impl View for RebootMarker {
    type V = RebootMarkerModel;

    open spec fn view(&self) -> RebootMarkerModel {
        RebootMarkerModel {
            hive: self.hive,
            view: self.view,
            key_path: self.key_path@,
            name: self.name@,
            data: self.data@,
        }
    }
}

/// The marker for `value`.
pub open spec fn reboot_marker_spec(value: int) -> RebootMarkerModel {
    RebootMarkerModel {
        hive: Hive::LocalMachine,
        view: RegistryView::Wow64_64,
        key_path: REBOOT_REGISTRY_PATH@,
        name: REBOOTED_KEY_NAME@,
        data: signed_decimal_spec(value),
    }
}

/// Whether what is stored under the marker's name says that the reboot was
/// issued. A missing key or value says that it was not.
pub open spec fn is_reboot_performed_spec(stored: Option<Seq<char>>) -> bool {
    stored == Some(REBOOTED_KEY_VALUE@)
}

/// The marker to write under the vendor key of the machine hive: the value's
/// decimal numeral under the marker's name.
pub fn set_rebooted_key(value: i8) -> (marker: RebootMarker)
    ensures
        marker@ == reboot_marker_spec(value as int),
{
    RebootMarker {
        hive: Hive::LocalMachine,
        view: RegistryView::Wow64_64,
        key_path: String::from_str(REBOOT_REGISTRY_PATH),
        name: String::from_str(REBOOTED_KEY_NAME),
        data: signed_decimal(value),
    }
}

/// Whether what was read under the marker's name says that the reboot was
/// issued; `None` stands for a key or value that could not be read.
pub fn is_reboot_performed(stored: Option<&str>) -> (performed: bool)
    ensures
        performed == is_reboot_performed_spec(
            match stored {
                Some(text) => Some(text@),
                None => None,
            },
        ),
{
    match stored {
        Some(text) => same_text(text, REBOOTED_KEY_VALUE),
        None => false,
    }
}

/// Scheduling ends after three replies at most. It succeeds exactly when the
/// key was opened and both entries were written; otherwise it fails at the
/// first step that did not succeed, and the steps before it are not undone:
/// the requests made are the opening and the writes up to the failing step,
/// and nothing else.
pub proof fn lemma_schedule_outcome(
    current_path: Seq<char>,
    opened: HostReply,
    setup_written: HostReply,
    restore_written: HostReply,
)
    ensures
        ({
            let s0 = SchedulerModel::initial(current_path);
            let s1 = s0.step(opened);
            let s2 = s1.step(setup_written);
            let s3 = s2.step(restore_written);
            let ok = HostReply::Completed;
            &&& s3.finished()
            &&& s3.pending_action() is Finished
            &&& s3.setup == s0.setup && s3.restore == s0.restore
            &&& s0.pending_action() is OpenRunOnceKey
            &&& s1.pending_action() == (if opened == ok {
                ScheduleActionModel::WriteValue { entry: setup_entry_spec(current_path) }
            } else {
                ScheduleActionModel::Finished
            })
            &&& s2.pending_action() == (if opened == ok && setup_written == ok {
                ScheduleActionModel::WriteValue { entry: restore_entry_spec(current_path) }
            } else {
                ScheduleActionModel::Finished
            })
            &&& s3.result() == Some(
                if opened != ok {
                    Err::<(), FailureModel>(schedule_failure_spec(ScheduleStep::OpenRunOnceKey))
                } else if setup_written != ok {
                    Err(schedule_failure_spec(ScheduleStep::WriteSetupEntry))
                } else if restore_written != ok {
                    Err(schedule_failure_spec(ScheduleStep::WriteRestoreEntry))
                } else {
                    Ok(())
                },
            )
        }),
{
}

/// A scheduler that has finished stays as it is, whatever it is told.
pub proof fn lemma_finished_schedule_is_stable(state: SchedulerModel, reply: HostReply)
    requires
        state.finished(),
    ensures
        state.step(reply) == state,
{
}

/// The marker written for a value is read back as "reboot performed" exactly
/// when the value is one.
pub proof fn lemma_marker_round_trip(value: i8)
    ensures
        is_reboot_performed_spec(Some(reboot_marker_spec(value as int).data)) <==> value == 1,
{
    reveal_strlit("1");
    let data = signed_decimal_spec(value as int);
    reveal_with_fuel(decimal_spec, 3);
    if value == 1 {
        assert(data =~= "1"@);
    } else if value < 0 {
        assert(data[0] == '-');
    } else if value >= 10 {
        assert(data.len() >= 2);
    }
}

} // verus!
