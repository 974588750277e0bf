//! The assistant's settings and the steps of a run that follow from them.

use vstd::prelude::*;
use crate::text::{decimal, decimal_spec};

verus! {

/// The settings of a run.
#[derive(Clone, Copy, Debug, PartialEq, Eq, Structural)]
pub struct Config {
    /// Whether the startup keys are saved and cleaned.
    pub clean_startup_apps: bool,
    /// Whether the startup keys are to be restored after the reboot. It is
    /// kept with the settings; the restore agent is scheduled together with
    /// the setup continuation in every run.
    pub restore_startup_apps: bool,
    /// Whether the run ends with a reboot.
    pub first_time_reboot: bool,
    /// The delay of the reboot, in seconds.
    pub reboot_timer: u32,
    /// Whether the locale is changed.
    pub change_locale: bool,
}

/// The settings used where no settings file can be read.
pub open spec fn default_config() -> Config {
    Config {
        clean_startup_apps: true,
        restore_startup_apps: true,
        first_time_reboot: true,
        reboot_timer: 60,
        change_locale: true,
    }
}

impl Default for Config {
    fn default() -> (config: Config)
        ensures
            config == default_config(),
    {
        Config {
            clean_startup_apps: true,
            restore_startup_apps: true,
            first_time_reboot: true,
            reboot_timer: 60,
            change_locale: true,
        }
    }
}

/// What became of the settings file.
#[derive(Clone, Copy, Debug, PartialEq, Eq, Structural)]
pub enum ConfigSource {
    /// The file was read and holds these settings.
    Parsed { config: Config },
    /// The file was read and does not hold settings.
    Invalid,
    /// The file is missing, unreadable or empty.
    Missing,
}

/// One step of a run.
#[derive(Clone, Copy, Debug, PartialEq, Eq, Structural)]
pub enum WorkflowStep {
    /// Tell the user that the assistant has started.
    Notify,
    /// Save and clean the startup keys.
    CleanStartupKeys,
    /// Change the locale.
    ChangeLocale,
    /// Record what is launched after the reboot.
    ScheduleResume,
    /// Write the marker that says the reboot was issued.
    MarkRebooted,
    /// Reboot the host.
    Reboot,
}

/// The settings a run works with: those of the file, or the defaults.
pub open spec fn effective_config_spec(source: ConfigSource) -> Config {
    match source {
        ConfigSource::Parsed { config } => config,
        _ => default_config(),
    }
}

/// The steps of a run, in order. The cleanup is left out where the marker
/// says that the reboot was already issued: the keys then hold what the
/// restore agent put back, and the backups are left as they are. Whatever
/// is cleaned is cleaned before the resume is scheduled, and the resume is
/// scheduled before the reboot.
pub open spec fn workflow_steps_spec(config: Config, reboot_performed: bool) -> Seq<WorkflowStep> {
    seq![WorkflowStep::Notify] + (if config.clean_startup_apps && !reboot_performed {
        seq![WorkflowStep::CleanStartupKeys]
    } else {
        seq![]
    }) + (if config.change_locale {
        seq![WorkflowStep::ChangeLocale]
    } else {
        seq![]
    }) + seq![WorkflowStep::ScheduleResume] + (if config.first_time_reboot {
        seq![WorkflowStep::MarkRebooted, WorkflowStep::Reboot]
    } else {
        seq![]
    })
}

/// The arguments of the reboot command: restart, after `reboot_timer`
/// seconds.
pub open spec fn reboot_arguments_spec(reboot_timer: u32) -> Seq<Seq<char>> {
    seq!["/r"@, "/t"@, decimal_spec(reboot_timer as nat)]
}

/// The settings a run works with: those of the file, or the defaults where
/// the file is missing or does not hold settings.
pub fn effective_config(source: ConfigSource) -> (config: Config)
    ensures
        config == effective_config_spec(source),
{
    match source {
        ConfigSource::Parsed { config } => config,
        _ => Config::default(),
    }
}

/// The steps of a run, in order, for the given settings and marker.
pub fn workflow_steps(config: &Config, reboot_performed: bool) -> (steps: Vec<WorkflowStep>)
    ensures
        steps@ == workflow_steps_spec(*config, reboot_performed),
{
    let mut steps: Vec<WorkflowStep> = Vec::new();
    steps.push(WorkflowStep::Notify);
    if config.clean_startup_apps && !reboot_performed {
        steps.push(WorkflowStep::CleanStartupKeys);
    }
    if config.change_locale {
        steps.push(WorkflowStep::ChangeLocale);
    }
    steps.push(WorkflowStep::ScheduleResume);
    if config.first_time_reboot {
        steps.push(WorkflowStep::MarkRebooted);
        steps.push(WorkflowStep::Reboot);
    }
    steps
}

/// The arguments of the reboot command.
pub fn reboot_arguments(reboot_timer: u32) -> (arguments: Vec<String>)
    ensures
        arguments.deep_view() == reboot_arguments_spec(reboot_timer),
{
    let mut arguments: Vec<String> = Vec::new();
    arguments.push(String::from_str("/r"));
    arguments.push(String::from_str("/t"));
    arguments.push(decimal(reboot_timer));
    arguments
}

/// In every run the resume is scheduled exactly once; the cleanup, where it
/// runs, comes before it, and the reboot, where it is issued, comes after
/// it, right after the marker. No step occurs twice.
pub proof fn lemma_workflow_order(config: Config, reboot_performed: bool)
    ensures
        ({
            let steps = workflow_steps_spec(config, reboot_performed);
            &&& steps.no_duplicates()
            &&& steps.contains(WorkflowStep::ScheduleResume)
            &&& steps.contains(WorkflowStep::CleanStartupKeys) <==> config.clean_startup_apps
                && !reboot_performed
            &&& steps.contains(WorkflowStep::Reboot) <==> config.first_time_reboot
            &&& forall|i: int, j: int|
                0 <= i < steps.len() && 0 <= j < steps.len() && steps[i]
                    == WorkflowStep::CleanStartupKeys && steps[j] == WorkflowStep::ScheduleResume
                    ==> i < j
            &&& forall|i: int, j: int|
                0 <= i < steps.len() && 0 <= j < steps.len() && steps[i]
                    == WorkflowStep::ScheduleResume && steps[j] == WorkflowStep::Reboot ==> i < j
            &&& forall|j: int|
                0 <= j < steps.len() && #[trigger] steps[j] == WorkflowStep::Reboot ==> j >= 1 && steps[j
                    - 1]
                    == WorkflowStep::MarkRebooted
        }),
{
    let steps = workflow_steps_spec(config, reboot_performed);
    let a: int = if config.clean_startup_apps && !reboot_performed {
        1
    } else {
        0
    };
    let b: int = if config.change_locale {
        1
    } else {
        0
    };
    assert(steps[1 + a + b] == WorkflowStep::ScheduleResume);
    if a == 1 {
        assert(steps[1] == WorkflowStep::CleanStartupKeys);
    }
    if config.first_time_reboot {
        assert(steps[3 + a + b] == WorkflowStep::Reboot);
    }
}

} // verus!
