//! What the host answers to a request, and the failures of the workflow.
//! Every failure is local to the step that met it: it is recorded with its
//! context and the workflow goes on.

use vstd::prelude::*;
use crate::hive::{Hive, RegistryView};

verus! {

/// The host's answer to one request of the workflow.
#[derive(Clone, Copy, Debug, PartialEq, Eq, Structural)]
pub enum HostReply {
    /// The request was carried out: the key is there, the file was created,
    /// the value was written, the command exited with success.
    Completed,
    /// The request was tried and was not carried out: the key could not be
    /// opened, the file or the value could not be written, the command
    /// exited with an error.
    Failed,
    /// The command could not be started at all.
    NotLaunched,
}

/// Why a step did not succeed.
#[derive(Clone, Copy, Debug, PartialEq, Eq, Structural)]
pub enum FailureCause {
    /// The backup file could not be created.
    BackupFileNotCreated,
    /// The request was tried and reported an error.
    Refused,
    /// The helper command could not be started.
    NotLaunched,
}

/// The step of scheduling that did not succeed.
#[derive(Clone, Copy, Debug, PartialEq, Eq, Structural)]
pub enum ScheduleStep {
    /// Opening the run-once key.
    OpenRunOnceKey,
    /// Writing the entry of the setup continuation.
    WriteSetupEntry,
    /// Writing the entry of the restore agent.
    WriteRestoreEntry,
}

/// A failure, with the hive, view and paths of the step that met it.
#[derive(Debug, PartialEq, Eq)]
pub enum Failure {
    /// A key could not be exported to its backup file.
    ExportFailure {
        hive: Hive,
        view: RegistryView,
        key_path: String,
        file_path: String,
        cause: FailureCause,
    },
    /// A key could not be deleted after its export.
    DeleteFailure { hive: Hive, view: RegistryView, key_path: String, cause: FailureCause },
    /// The continuation after the reboot could not be recorded.
    ScheduleFailure { hive: Hive, view: RegistryView, key_path: String, step: ScheduleStep },
    /// A backup file could not be imported.
    ImportFailure { view: RegistryView, file_path: String, cause: FailureCause },
}

/// What a `Failure` stands for.
pub enum FailureModel {
    ExportFailure {
        hive: Hive,
        view: RegistryView,
        key_path: Seq<char>,
        file_path: Seq<char>,
        cause: FailureCause,
    },
    DeleteFailure { hive: Hive, view: RegistryView, key_path: Seq<char>, cause: FailureCause },
    ScheduleFailure { hive: Hive, view: RegistryView, key_path: Seq<char>, step: ScheduleStep },
    ImportFailure { view: RegistryView, file_path: Seq<char>, cause: FailureCause },
}

impl View for Failure {
    type V = FailureModel;

    open spec fn view(&self) -> FailureModel {
        match self {
            Failure::ExportFailure { hive, view, key_path, file_path, cause } => {
                FailureModel::ExportFailure {
                    hive: *hive,
                    view: *view,
                    key_path: key_path@,
                    file_path: file_path@,
                    cause: *cause,
                }
            },
            Failure::DeleteFailure { hive, view, key_path, cause } => FailureModel::DeleteFailure {
                hive: *hive,
                view: *view,
                key_path: key_path@,
                cause: *cause,
            },
            Failure::ScheduleFailure { hive, view, key_path, step } => {
                FailureModel::ScheduleFailure {
                    hive: *hive,
                    view: *view,
                    key_path: key_path@,
                    step: *step,
                }
            },
            Failure::ImportFailure { view, file_path, cause } => FailureModel::ImportFailure {
                view: *view,
                file_path: file_path@,
                cause: *cause,
            },
        }
    }
}

/// The cause recorded for a command that did not succeed.
pub open spec fn command_cause_spec(reply: HostReply) -> FailureCause {
    match reply {
        HostReply::NotLaunched => FailureCause::NotLaunched,
        _ => FailureCause::Refused,
    }
}

impl FailureModel {
    /// The line that describes the failure in the log.
    pub open spec fn message(self) -> Seq<char> {
        match self {
            FailureModel::ExportFailure { key_path, file_path, cause, .. } => match cause {
                FailureCause::BackupFileNotCreated => "Error creating backup file: "@ + file_path,
                FailureCause::Refused => "Failed to export registry key "@ + key_path
                    + " to file "@ + file_path,
                FailureCause::NotLaunched => "Exporting "@ + key_path + " to "@ + file_path
                    + " completely failed."@,
            },
            FailureModel::DeleteFailure { key_path, cause, .. } => match cause {
                FailureCause::NotLaunched => "Deleting "@ + key_path + " completely failed."@,
                _ => "Failed to delete registry key "@ + key_path,
            },
            FailureModel::ScheduleFailure { step, .. } => match step {
                ScheduleStep::OpenRunOnceKey => "failed to open run once key"@,
                ScheduleStep::WriteSetupEntry =>
                    "failed setting value for setup task schedule probably due to permissions"@,
                ScheduleStep::WriteRestoreEntry =>
                    "failed setting value for registry restore task schedule probably due to permissions"@,
            },
            FailureModel::ImportFailure { file_path, cause, .. } => match cause {
                FailureCause::NotLaunched => "Importing "@ + file_path + " completely failed."@,
                _ => "Failed to import registry file "@ + file_path,
            },
        }
    }
}

/// The cause recorded for a command that did not succeed.
pub fn command_cause(reply: HostReply) -> (cause: FailureCause)
    ensures
        cause == command_cause_spec(reply),
{
    match reply {
        HostReply::NotLaunched => FailureCause::NotLaunched,
        _ => FailureCause::Refused,
    }
}

impl HostReply {
    /// Whether the request was carried out.
    pub fn is_completed(self) -> (b: bool)
        ensures
            b == (self == HostReply::Completed),
    {
        match self {
            HostReply::Completed => true,
            _ => false,
        }
    }
}

impl Failure {
    /// The line that describes the failure in the log.
    pub fn message(&self) -> (text: String)
        ensures
            text@ == self@.message(),
    {
        match self {
            Failure::ExportFailure { key_path, file_path, cause, .. } => match cause {
                FailureCause::BackupFileNotCreated => {
                    let mut text = String::from_str("Error creating backup file: ");
                    text.append(file_path.as_str());
                    text
                },
                FailureCause::Refused => {
                    let mut text = String::from_str("Failed to export registry key ");
                    text.append(key_path.as_str());
                    text.append(" to file ");
                    text.append(file_path.as_str());
                    text
                },
                FailureCause::NotLaunched => {
                    let mut text = String::from_str("Exporting ");
                    text.append(key_path.as_str());
                    text.append(" to ");
                    text.append(file_path.as_str());
                    text.append(" completely failed.");
                    text
                },
            },
            Failure::DeleteFailure { key_path, cause, .. } => match cause {
                FailureCause::NotLaunched => {
                    let mut text = String::from_str("Deleting ");
                    text.append(key_path.as_str());
                    text.append(" completely failed.");
                    text
                },
                _ => {
                    let mut text = String::from_str("Failed to delete registry key ");
                    text.append(key_path.as_str());
                    text
                },
            },
            Failure::ScheduleFailure { step, .. } => match step {
                ScheduleStep::OpenRunOnceKey => String::from_str("failed to open run once key"),
                ScheduleStep::WriteSetupEntry => String::from_str(
                    "failed setting value for setup task schedule probably due to permissions",
                ),
                ScheduleStep::WriteRestoreEntry => String::from_str(
                    "failed setting value for registry restore task schedule probably due to permissions",
                ),
            },
            Failure::ImportFailure { file_path, cause, .. } => match cause {
                FailureCause::NotLaunched => {
                    let mut text = String::from_str("Importing ");
                    text.append(file_path.as_str());
                    text.append(" completely failed.");
                    text
                },
                _ => {
                    let mut text = String::from_str("Failed to import registry file ");
                    text.append(file_path.as_str());
                    text
                },
            },
        }
    }
}

} // verus!
