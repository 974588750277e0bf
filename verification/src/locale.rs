//! The locale change: the preferences file and the script that applies it,
//! and the order in which they are written, run and removed.

use vstd::prelude::*;
use crate::constants::{SCRIPT_PATH, XML_PATH};
use crate::failure::HostReply;
use crate::text::{occurs_at, occurs_in};

verus! {

/// Locale and language preferences, in the form the control panel takes.
pub const XML_CONTENT: &'static str = "<?xml version=\"1.0\"?>
    <gs:GlobalizationServices xmlns:gs=\"urn:longhornGlobalizationUnattend\">
        <gs:UserList>
            <gs:User CopySettingsToSystemAcct=\"true\" CopySettingsToDefaultUserAcct=\"true\"
                UserID=\"Current\" />
        </gs:UserList>

        <!-- MUI language preferences -->
        <gs:MUILanguagePreferences>
            <gs:MUILanguage Value=\"fa-IR\" />
            <gs:MUIFallback Value=\"en-US\" />
        </gs:MUILanguagePreferences>

        <!--User
        Locale-->
        <gs:UserLocale>
            <gs:Locale SetAsCurrent=\"true\" Name=\"fa-IR\" />
        </gs:UserLocale>

        <!-- Non Unicode programs -->
        <gs:SystemLocale Name=\"fa-IR\" />

        <gs:InputPreferences>
            <gs:InputLanguageID Action=\"add\" ID=\"0429:00000429\" />
        </gs:InputPreferences>
    </gs:GlobalizationServices>";

/// The script that hands the preferences file to the control panel.
pub const SCRIPT_CONTENT: &'static str =
    "@echo off\ncontrol.exe intl.cpl,,/f:\"locale.xml\"\n";

/// The command interpreter that runs the script.
pub const SCRIPT_INTERPRETER: &'static str = "cmd";

/// The switch that makes the interpreter run one command and end.
pub const SCRIPT_INTERPRETER_SWITCH: &'static str = "/C";

/// A file to write: where, and what.
#[derive(Clone, Copy, Debug, PartialEq, Eq)]
pub struct FileWrite {
    pub path: &'static str,
    pub content: &'static str,
}

/// The steps of a locale change, in order.
#[derive(Clone, Copy, Debug, PartialEq, Eq, Structural)]
pub enum LocaleStage {
    WriteXml,
    WriteScript,
    RunScript,
    RemoveXml,
    RemoveScript,
}

/// How far a locale change has come.
#[derive(Clone, Copy, Debug, PartialEq, Eq, Structural)]
pub enum LocaleState {
    /// Waiting for the host's reply to the request of `stage`.
    InProgress { stage: LocaleStage },
    /// Every step succeeded.
    Done,
    /// The step `stage` did not succeed; the later steps were not tried.
    Failed { stage: LocaleStage },
}

/// A request to the host.
#[derive(Clone, Copy, Debug, PartialEq, Eq)]
pub enum LocaleAction {
    /// Create the file and write the content to it.
    WriteFile { file: FileWrite },
    /// Launch the interpreter on the script and wait for it to end.
    RunScript { program: &'static str, switch: &'static str, script: &'static str },
    /// Remove the file.
    RemoveFile { path: &'static str },
    /// Nothing is left to do.
    Finished,
}

/// What a `LocaleAction` stands for.
pub enum LocaleActionModel {
    WriteFile { path: Seq<char>, content: Seq<char> },
    RunScript { program: Seq<char>, switch: Seq<char>, script: Seq<char> },
    RemoveFile { path: Seq<char> },
    Finished,
}

impl View for LocaleAction {
    type V = LocaleActionModel;

    open spec fn view(&self) -> LocaleActionModel {
        match self {
            LocaleAction::WriteFile { file } => LocaleActionModel::WriteFile {
                path: file.path@,
                content: file.content@,
            },
            LocaleAction::RunScript { program, switch, script } => LocaleActionModel::RunScript {
                program: program@,
                switch: switch@,
                script: script@,
            },
            LocaleAction::RemoveFile { path } => LocaleActionModel::RemoveFile { path: path@ },
            LocaleAction::Finished => LocaleActionModel::Finished,
        }
    }
}

/// The stage after `stage`, if there is one.
pub open spec fn next_stage_spec(stage: LocaleStage) -> Option<LocaleStage> {
    match stage {
        LocaleStage::WriteXml => Some(LocaleStage::WriteScript),
        LocaleStage::WriteScript => Some(LocaleStage::RunScript),
        LocaleStage::RunScript => Some(LocaleStage::RemoveXml),
        LocaleStage::RemoveXml => Some(LocaleStage::RemoveScript),
        LocaleStage::RemoveScript => None,
    }
}

/// Whether a reply lets the change go on. The script counts as run once it
/// was launched, whatever it exited with; every other step has to complete.
pub open spec fn stage_succeeded(stage: LocaleStage, reply: HostReply) -> bool {
    match stage {
        LocaleStage::RunScript => reply != HostReply::NotLaunched,
        _ => reply == HostReply::Completed,
    }
}

/// The state after the host's reply.
pub open spec fn locale_step_spec(state: LocaleState, reply: HostReply) -> LocaleState {
    match state {
        LocaleState::InProgress { stage } => if stage_succeeded(stage, reply) {
            match next_stage_spec(stage) {
                Some(next) => LocaleState::InProgress { stage: next },
                None => LocaleState::Done,
            }
        } else {
            LocaleState::Failed { stage }
        },
        _ => state,
    }
}

/// The request of a state.
pub open spec fn locale_action_spec(state: LocaleState) -> LocaleActionModel {
    match state {
        LocaleState::InProgress { stage } => match stage {
            LocaleStage::WriteXml => LocaleActionModel::WriteFile {
                path: XML_PATH@,
                content: XML_CONTENT@,
            },
            LocaleStage::WriteScript => LocaleActionModel::WriteFile {
                path: SCRIPT_PATH@,
                content: SCRIPT_CONTENT@,
            },
            LocaleStage::RunScript => LocaleActionModel::RunScript {
                program: SCRIPT_INTERPRETER@,
                switch: SCRIPT_INTERPRETER_SWITCH@,
                script: SCRIPT_PATH@,
            },
            LocaleStage::RemoveXml => LocaleActionModel::RemoveFile { path: XML_PATH@ },
            LocaleStage::RemoveScript => LocaleActionModel::RemoveFile { path: SCRIPT_PATH@ },
        },
        _ => LocaleActionModel::Finished,
    }
}

/// The script file to write.
pub fn write_script_file() -> (file: FileWrite)
    ensures
        file.path@ == SCRIPT_PATH@,
        file.content@ == SCRIPT_CONTENT@,
{
    FileWrite { path: SCRIPT_PATH, content: SCRIPT_CONTENT }
}

/// The files to write for a locale change, in order: the preferences file,
/// then the script.
pub fn write_xml_file() -> (files: Vec<FileWrite>)
    ensures
        files.len() == 2,
        files[0].path@ == XML_PATH@,
        files[0].content@ == XML_CONTENT@,
        files[1].path@ == SCRIPT_PATH@,
        files[1].content@ == SCRIPT_CONTENT@,
{
    let mut files: Vec<FileWrite> = Vec::new();
    files.push(FileWrite { path: XML_PATH, content: XML_CONTENT });
    files.push(write_script_file());
    files
}

/// The files to remove after the script has run, in order.
pub fn remove_files() -> (paths: Vec<&'static str>)
    ensures
        paths.len() == 2,
        paths[0]@ == XML_PATH@,
        paths[1]@ == SCRIPT_PATH@,
{
    let mut paths: Vec<&'static str> = Vec::new();
    paths.push(XML_PATH);
    paths.push(SCRIPT_PATH);
    paths
}

/// The state in which a locale change starts.
pub fn locale_start() -> (state: LocaleState)
    ensures
        state == (LocaleState::InProgress { stage: LocaleStage::WriteXml }),
{
    LocaleState::InProgress { stage: LocaleStage::WriteXml }
}

/// The state after the host's reply: the next step, or the end. A step that
/// does not succeed ends the change; the steps after it are not tried.
pub fn locale_step(state: LocaleState, reply: HostReply) -> (next: LocaleState)
    ensures
        next == locale_step_spec(state, reply),
{
    match state {
        LocaleState::InProgress { stage } => {
            let succeeded = match stage {
                LocaleStage::RunScript => match reply {
                    HostReply::NotLaunched => false,
                    _ => true,
                },
                _ => reply.is_completed(),
            };
            if succeeded {
                match stage {
                    LocaleStage::WriteXml => LocaleState::InProgress {
                        stage: LocaleStage::WriteScript,
                    },
                    LocaleStage::WriteScript => LocaleState::InProgress {
                        stage: LocaleStage::RunScript,
                    },
                    LocaleStage::RunScript => LocaleState::InProgress {
                        stage: LocaleStage::RemoveXml,
                    },
                    LocaleStage::RemoveXml => LocaleState::InProgress {
                        stage: LocaleStage::RemoveScript,
                    },
                    LocaleStage::RemoveScript => LocaleState::Done,
                }
            } else {
                LocaleState::Failed { stage }
            }
        },
        _ => state,
    }
}

/// The request of a state.
pub fn locale_request(state: LocaleState) -> (action: LocaleAction)
    ensures
        action@ == locale_action_spec(state),
{
    match state {
        LocaleState::InProgress { stage } => match stage {
            LocaleStage::WriteXml => LocaleAction::WriteFile {
                file: FileWrite { path: XML_PATH, content: XML_CONTENT },
            },
            LocaleStage::WriteScript => LocaleAction::WriteFile { file: write_script_file() },
            LocaleStage::RunScript => LocaleAction::RunScript {
                program: SCRIPT_INTERPRETER,
                switch: SCRIPT_INTERPRETER_SWITCH,
                script: SCRIPT_PATH,
            },
            LocaleStage::RemoveXml => LocaleAction::RemoveFile { path: XML_PATH },
            LocaleStage::RemoveScript => LocaleAction::RemoveFile { path: SCRIPT_PATH },
        },
        _ => LocaleAction::Finished,
    }
}

/// The script names the preferences file it was written for.
pub proof fn lemma_script_names_preferences_file()
    ensures
        occurs_in(SCRIPT_CONTENT@, XML_PATH@),
{
    reveal_strlit("@echo off\ncontrol.exe intl.cpl,,/f:\"locale.xml\"\n");
    reveal_strlit("locale.xml");
    assert(SCRIPT_CONTENT@.subrange(36, 46) =~= XML_PATH@);
    assert(occurs_at(SCRIPT_CONTENT@, XML_PATH@, 36));
}

} // verus!
