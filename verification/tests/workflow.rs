use setup_assistant::config::{
    effective_config, reboot_arguments, workflow_steps, Config, ConfigSource, WorkflowStep,
};
use setup_assistant::failure::HostReply;
use setup_assistant::locale::{
    locale_request, locale_start, locale_step, remove_files, write_script_file, write_xml_file,
    FileWrite, LocaleAction, LocaleStage, LocaleState, SCRIPT_CONTENT, XML_CONTENT,
};
use setup_assistant::notify::{message_box, push_utf16, wide_string, WindowType};

fn config(clean: bool, reboot: bool, locale: bool) -> Config {
    Config {
        clean_startup_apps: clean,
        restore_startup_apps: true,
        first_time_reboot: reboot,
        reboot_timer: 60,
        change_locale: locale,
    }
}

#[test]
fn default_config_values() {
    let c = Config::default();
    assert!(c.clean_startup_apps);
    assert!(c.restore_startup_apps);
    assert!(c.first_time_reboot);
    assert_eq!(c.reboot_timer, 60);
    assert!(c.change_locale);
}

#[test]
fn effective_config_falls_back_to_the_defaults() {
    let custom = Config {
        clean_startup_apps: false,
        restore_startup_apps: false,
        first_time_reboot: false,
        reboot_timer: 5,
        change_locale: false,
    };
    assert_eq!(effective_config(ConfigSource::Parsed { config: custom }), custom);
    assert_eq!(effective_config(ConfigSource::Invalid), Config::default());
    assert_eq!(effective_config(ConfigSource::Missing), Config::default());
}

#[test]
fn default_run_does_every_step_in_order() {
    assert_eq!(
        workflow_steps(&Config::default(), false),
        vec![
            WorkflowStep::Notify,
            WorkflowStep::CleanStartupKeys,
            WorkflowStep::ChangeLocale,
            WorkflowStep::ScheduleResume,
            WorkflowStep::MarkRebooted,
            WorkflowStep::Reboot,
        ]
    );
}

#[test]
fn settings_switch_steps_off() {
    assert_eq!(
        workflow_steps(&config(false, false, false), false),
        vec![WorkflowStep::Notify, WorkflowStep::ScheduleResume]
    );
    assert_eq!(
        workflow_steps(&config(true, false, false), false),
        vec![WorkflowStep::Notify, WorkflowStep::CleanStartupKeys, WorkflowStep::ScheduleResume]
    );
    assert_eq!(
        workflow_steps(&config(false, true, false), false),
        vec![
            WorkflowStep::Notify,
            WorkflowStep::ScheduleResume,
            WorkflowStep::MarkRebooted,
            WorkflowStep::Reboot
        ]
    );
    assert_eq!(
        workflow_steps(&config(false, false, true), false),
        vec![WorkflowStep::Notify, WorkflowStep::ChangeLocale, WorkflowStep::ScheduleResume]
    );
}

#[test]
fn marker_keeps_a_second_run_from_cleaning_again() {
    assert_eq!(
        workflow_steps(&Config::default(), true),
        vec![
            WorkflowStep::Notify,
            WorkflowStep::ChangeLocale,
            WorkflowStep::ScheduleResume,
            WorkflowStep::MarkRebooted,
            WorkflowStep::Reboot,
        ]
    );
}

#[test]
fn cleanup_comes_before_schedule_and_schedule_before_reboot() {
    for clean in [true, false] {
        for reboot in [true, false] {
            for locale in [true, false] {
                for marked in [true, false] {
                    let steps = workflow_steps(&config(clean, reboot, locale), marked);
                    let at = |step: WorkflowStep| steps.iter().position(|s| *s == step);
                    let schedule = at(WorkflowStep::ScheduleResume).unwrap();
                    if let Some(cleanup) = at(WorkflowStep::CleanStartupKeys) {
                        assert!(cleanup < schedule);
                    }
                    if let Some(reboot_at) = at(WorkflowStep::Reboot) {
                        assert!(schedule < reboot_at);
                        assert_eq!(steps[reboot_at - 1], WorkflowStep::MarkRebooted);
                        assert_eq!(reboot_at, steps.len() - 1);
                    }
                    assert_eq!(at(WorkflowStep::CleanStartupKeys).is_some(), clean && !marked);
                    assert_eq!(at(WorkflowStep::Reboot).is_some(), reboot);
                }
            }
        }
    }
}

#[test]
fn reboot_command_arguments() {
    assert_eq!(
        reboot_arguments(60),
        vec!["/r".to_string(), "/t".to_string(), "60".to_string()]
    );
    assert_eq!(reboot_arguments(0)[2], "0");
    assert_eq!(reboot_arguments(u32::MAX)[2], "4294967295");
}

#[test]
fn locale_files() {
    let files = write_xml_file();
    assert_eq!(files.len(), 2);
    assert_eq!(files[0].path, "locale.xml");
    assert_eq!(files[0].content, XML_CONTENT);
    assert_eq!(files[1], write_script_file());
    assert_eq!(files[1].path, "locale.bat");
    assert_eq!(files[1].content, "@echo off\ncontrol.exe intl.cpl,,/f:\"locale.xml\"\n");
    assert_eq!(SCRIPT_CONTENT, files[1].content);
    assert_eq!(remove_files(), vec!["locale.xml", "locale.bat"]);
}

#[test]
fn preferences_file_content() {
    assert!(XML_CONTENT.starts_with("<?xml version=\"1.0\"?>\n    <gs:GlobalizationServices "));
    assert!(XML_CONTENT.ends_with("        </gs:InputPreferences>\n    </gs:GlobalizationServices>"));
    assert!(XML_CONTENT.contains("<gs:SystemLocale Name=\"fa-IR\" />"));
    assert!(XML_CONTENT.contains("<gs:InputLanguageID Action=\"add\" ID=\"0429:00000429\" />"));
    assert!(XML_CONTENT.contains("        <!--User\n        Locale-->\n"));
    assert_eq!(XML_CONTENT.lines().count(), 26);
    assert_eq!(XML_CONTENT.len(), 859);
}

#[test]
fn locale_change_runs_its_steps_in_order() {
    let mut state = locale_start();
    let mut requests: Vec<LocaleAction> = Vec::new();
    loop {
        let action = locale_request(state);
        if action == LocaleAction::Finished {
            break;
        }
        requests.push(action);
        state = locale_step(state, HostReply::Completed);
    }
    assert_eq!(state, LocaleState::Done);
    assert_eq!(
        requests,
        vec![
            LocaleAction::WriteFile { file: FileWrite { path: "locale.xml", content: XML_CONTENT } },
            LocaleAction::WriteFile {
                file: FileWrite { path: "locale.bat", content: SCRIPT_CONTENT }
            },
            LocaleAction::RunScript { program: "cmd", switch: "/C", script: "locale.bat" },
            LocaleAction::RemoveFile { path: "locale.xml" },
            LocaleAction::RemoveFile { path: "locale.bat" },
        ]
    );
}

#[test]
fn locale_change_stops_at_the_first_failure() {
    let at = |stage| LocaleState::InProgress { stage };
    assert_eq!(
        locale_step(at(LocaleStage::WriteXml), HostReply::Failed),
        LocaleState::Failed { stage: LocaleStage::WriteXml }
    );
    assert_eq!(
        locale_step(at(LocaleStage::WriteScript), HostReply::Failed),
        LocaleState::Failed { stage: LocaleStage::WriteScript }
    );
    assert_eq!(
        locale_step(at(LocaleStage::RunScript), HostReply::NotLaunched),
        LocaleState::Failed { stage: LocaleStage::RunScript }
    );
    assert_eq!(
        locale_step(at(LocaleStage::RunScript), HostReply::Failed),
        at(LocaleStage::RemoveXml)
    );
    assert_eq!(
        locale_step(at(LocaleStage::RemoveXml), HostReply::Failed),
        LocaleState::Failed { stage: LocaleStage::RemoveXml }
    );
    assert_eq!(locale_step(at(LocaleStage::RemoveScript), HostReply::Completed), LocaleState::Done);
    let failed = LocaleState::Failed { stage: LocaleStage::WriteXml };
    assert_eq!(locale_step(failed, HostReply::Completed), failed);
    assert_eq!(locale_request(failed), LocaleAction::Finished);
    assert_eq!(locale_step(LocaleState::Done, HostReply::Failed), LocaleState::Done);
    assert_eq!(locale_request(LocaleState::Done), LocaleAction::Finished);
}

#[test]
fn wide_strings_are_utf16_with_a_closing_zero() {
    assert_eq!(wide_string(""), vec![0u16]);
    assert_eq!(wide_string("OK"), vec![0x4F, 0x4B, 0]);
    assert_eq!(wide_string("\u{0645}\u{0639}\u{06cc}\u{0646}"), vec![0x0645, 0x0639, 0x06CC, 0x0646, 0]);
    assert_eq!(wide_string("\u{1F600}"), vec![0xD83D, 0xDE00, 0]);
    assert_eq!(wide_string("\u{10000}"), vec![0xD800, 0xDC00, 0]);
    assert_eq!(wide_string("\u{10FFFF}"), vec![0xDBFF, 0xDFFF, 0]);
    assert_eq!(wide_string("\u{FFFF}"), vec![0xFFFF, 0]);
    assert_eq!(wide_string("\u{E000}\u{D7FF}"), vec![0xE000, 0xD7FF, 0]);
    for text in ["", "abc", "\u{0634}\u{0631}\u{0648}\u{0639}", "a\u{1F680}b", "\u{10348}"] {
        let mut expected: Vec<u16> = text.encode_utf16().collect();
        expected.push(0);
        assert_eq!(wide_string(text), expected);
    }
}

#[test]
fn push_utf16_appends() {
    let mut units: Vec<u16> = vec![1, 2];
    push_utf16(&mut units, 'A');
    assert_eq!(units, vec![1, 2, 0x41]);
    push_utf16(&mut units, '\u{1D11E}');
    assert_eq!(units, vec![1, 2, 0x41, 0xD834, 0xDD1E]);
}

#[test]
fn message_box_request() {
    let request = message_box("Title", "Text", WindowType::Information);
    assert_eq!(request.caption, vec![0x54, 0x69, 0x74, 0x6C, 0x65, 0]);
    assert_eq!(request.text, vec![0x54, 0x65, 0x78, 0x74, 0]);
    assert_eq!(request.window_type, WindowType::Information);
    assert_eq!(message_box("", "", WindowType::_Error).window_type, WindowType::_Error);
    assert_eq!(message_box("", "", WindowType::_Warning).window_type, WindowType::_Warning);
}
