//! Starting the program, and what is saved between two starts.

use usage_monitor::cells::CellState;
use usage_monitor::effects::{Effect, TimerKind, ZOrder};
use usage_monitor::settings::{Features, GithubCopilotPlan, LanguageId};
use usage_monitor::settings_file::{load_settings, parse_settings, settings_json, SettingsFile};
use usage_monitor::startup::{
    initial_state, instance_decision, parse_unsigned, preferences_from_settings,
    relaunch_backoff_secs, select_taskbar, settings_from_preferences, startup_effects,
    startup_entry_bytes, startup_entry_matches, takes_over, taskbar_was_replaced,
    InstanceDecision, InstanceLock, WaitOutcome,
};
use usage_monitor::state::InstallChannel;
use usage_monitor::strings::Languages;
use usage_monitor::time::Timestamp;

fn languages() -> Languages {
    let mut languages = Languages::default();
    languages.english.code = "en";
    languages.dutch.code = "nl";
    languages.spanish.code = "es";
    languages.french.code = "fr";
    languages.german.code = "de";
    languages.japanese.code = "ja";
    languages.korean.code = "ko";
    languages.traditional_chinese.code = "zh-TW";
    languages.simplified_chinese.code = "zh-CN";
    languages.russian.code = "ru";
    languages.portuguese_brazil.code = "pt-BR";
    languages
}

fn all_features() -> Features {
    Features { antigravity: true, self_update: true }
}

fn units(text: &str) -> Vec<u16> {
    text.encode_utf16().collect()
}

#[test]
fn a_second_instance_exits_unless_it_is_a_relaunch() {
    assert_eq!(instance_decision(InstanceLock::Acquired, false), InstanceDecision::Run);
    assert_eq!(instance_decision(InstanceLock::HeldByAnother, false), InstanceDecision::Exit);
    assert_eq!(
        instance_decision(InstanceLock::HeldByAnother, true),
        InstanceDecision::WaitForPrevious
    );
    assert_eq!(instance_decision(InstanceLock::Unavailable, true), InstanceDecision::Exit);
    assert!(takes_over(WaitOutcome::Signaled));
    assert!(takes_over(WaitOutcome::Abandoned));
    assert!(!takes_over(WaitOutcome::Other));
}

#[test]
fn relaunches_in_a_storm_wait() {
    assert_eq!(relaunch_backoff_secs(None, 1_000), 0);
    assert_eq!(relaunch_backoff_secs(Some("991"), 1_000), 30);
    assert_eq!(relaunch_backoff_secs(Some("990"), 1_000), 0);
    assert_eq!(relaunch_backoff_secs(Some("2000"), 1_000), 30);
    assert_eq!(relaunch_backoff_secs(Some("0"), 5), 0);
    assert_eq!(relaunch_backoff_secs(Some("soon"), 1_000), 0);
}

#[test]
fn numbers_are_read_as_the_standard_library_reads_them() {
    for text in [
        "0", "7", "+7", "007", "18446744073709551615", "18446744073709551616", "", "+", "-1",
        "1 ", "1a", "++1", "99999999999999999999999",
    ] {
        assert_eq!(parse_unsigned(text), text.parse::<u64>().ok(), "{text:?}");
    }
}

#[test]
fn a_new_taskbar_means_that_the_shell_restarted() {
    assert!(!taskbar_was_replaced(None, &vec![1]));
    assert!(!taskbar_was_replaced(Some(1), &vec![]));
    assert!(!taskbar_was_replaced(Some(1), &vec![2, 1]));
    assert!(taskbar_was_replaced(Some(1), &vec![2, 3]));
}

#[test]
fn the_start_up_entry_is_compared_without_case() {
    let executable = units("C:\\Apps\\Monitor.exe");
    let entry = startup_entry_bytes(&executable);
    assert_eq!(entry.len(), 2 * (executable.len() + 1));
    assert_eq!(entry[0], b'C');
    assert_eq!(entry[1], 0);
    assert!(startup_entry_matches(&entry, &executable));
    assert!(startup_entry_matches(&entry, &units("c:\\apps\\MONITOR.EXE")));
    assert!(!startup_entry_matches(&entry, &units("C:\\Apps\\Other.exe")));
    assert!(!startup_entry_matches(&entry, &units("C:\\Apps\\Monitor.exe2")));
    assert!(!startup_entry_matches(&vec![], &executable));
    assert!(!startup_entry_matches(&entry, &vec![]));
    let wide = units("C:\\使用量\\モニター.exe");
    assert!(startup_entry_matches(&startup_entry_bytes(&wide), &wide));
}

#[test]
fn start_up_entries_are_decoded_as_the_standard_library_decodes() {
    let paths = [
        units("C:\\\u{1F600}\u{10FFFF}\u{FFFF}.exe"),
        vec![0xD83D],
        vec![0xDE00, 0x41],
        vec![0xD83D, 0x41],
        vec![0xD83D, 0xD83D, 0xDE00],
        vec![0xFFFD],
        vec![0xFFFD, 0x61],
        vec![0x41, 0, 0x42],
        vec![0xC4],
        vec![0xE4],
    ];
    for entry in &paths {
        for path in &paths {
            let value = String::from_utf16_lossy(entry);
            let expected = value
                .trim_end_matches('\0')
                .eq_ignore_ascii_case(&String::from_utf16_lossy(path));
            assert_eq!(
                startup_entry_matches(&startup_entry_bytes(entry), path),
                expected,
                "{entry:x?} {path:x?}"
            );
        }
    }
}

#[test]
fn broken_settings_are_the_default_ones() {
    for text in ["", "not json", "[]", "{\"tray_offset\":\"left\"}", "{\"poll_interval_ms\":-1}"] {
        let settings = load_settings(Some(text), all_features());
        assert_eq!(settings.poll_interval_ms, 900_000, "{text:?}");
        assert_eq!(settings.tray_offset, 0, "{text:?}");
        assert!(settings.show_claude_code, "{text:?}");
    }
    for text in [
        "",
        "not json",
        "{\"tray_offset\":\"left\"}",
        "{\"poll_interval_ms\":-1}",
        "{\"tray_offset\":2147483648}",
        "{\"github_copilot_plan\":\"platinum\",\"tray_offset\":3}",
    ] {
        assert!(parse_settings(text).is_none(), "{text:?}");
    }
    assert_eq!(parse_settings("{\"tray_offset\":-3}").unwrap().tray_offset, -3);
}

#[test]
fn loaded_settings_show_a_provider_and_a_usable_width() {
    let text = "{\"show_claude_code\":false,\"widget_width_logical\":9000}";
    let settings = load_settings(Some(text), all_features());
    assert!(settings.show_claude_code);
    assert_eq!(settings.widget_width_logical, Some(1200));
    let text = "{\"show_claude_code\":false,\"show_antigravity\":true}";
    let without = Features { antigravity: false, self_update: false };
    assert!(load_settings(Some(text), without).show_claude_code);
    assert!(!load_settings(Some(text), without).show_antigravity);
    assert!(load_settings(Some(text), all_features()).show_antigravity);
    assert_eq!(load_settings(None, all_features()).poll_interval_ms, 900_000);
}

#[test]
fn written_settings_are_indented_and_in_order() {
    let text = settings_json(&SettingsFile::default()).unwrap();
    assert!(text.starts_with("{\n  \"tray_offset\": 0,\n  \"taskbar_index\": 0,\n"));
    assert!(!text.contains("manual_x"));
    assert!(!text.contains("\"language\""));
}

#[test]
fn preferences_survive_a_restart() {
    let languages = languages();
    let mut prefs = preferences_from_settings(
        &SettingsFile::default(),
        LanguageId::German,
        &languages,
    );
    assert_eq!(prefs.language, LanguageId::German);
    prefs.language_override = Some(LanguageId::SimplifiedChinese);
    prefs.language = LanguageId::SimplifiedChinese;
    prefs.manual_position = Some((-20, 40));
    prefs.widget_width_logical = Some(640);
    prefs.show_github_copilot = true;
    prefs.github_copilot_plan = GithubCopilotPlan::ProPlus;
    prefs.last_update_check_unix = Some(1_700_000_000);
    let text = settings_json(&settings_from_preferences(&prefs, &languages)).unwrap();
    let back = preferences_from_settings(
        &parse_settings(&text).unwrap(),
        LanguageId::German,
        &languages,
    );
    assert_eq!(back, prefs);
}

#[test]
fn a_position_needs_both_coordinates() {
    let settings = parse_settings("{\"manual_x\":5}").unwrap();
    let prefs = preferences_from_settings(&settings, LanguageId::English, &languages());
    assert_eq!(prefs.manual_position, None);
}

#[test]
fn the_first_state_waits_for_data() {
    let state = initial_state(
        &SettingsFile::default(),
        LanguageId::English,
        InstallChannel::Winget,
        false,
        Timestamp { ticks: 0 },
        &languages(),
    );
    assert_eq!(state.states.claude.session, CellState::Loading);
    assert_eq!(state.states.github_copilot, CellState::Loading);
    assert!(state.data.is_none());
    assert!(!state.embedded);
    assert_eq!(state.shown.claude.session.percent, None);
}

#[test]
fn the_steps_of_a_start() {
    let prefs = preferences_from_settings(
        &SettingsFile::default(),
        LanguageId::English,
        &languages(),
    );
    assert_eq!(
        startup_effects(&prefs, all_features(), 5),
        vec![
            Effect::SelectTaskbar(0),
            Effect::SyncTrayIcons,
            Effect::Position,
            Effect::ShowWindowFirst,
            Effect::Render,
            Effect::SetZOrder(ZOrder::NotTopMost),
            Effect::SetTimer(TimerKind::Poll, 900_000),
            Effect::StartWatchdog,
            Effect::StartPoll,
            Effect::ScheduleUpdateCheck,
            Effect::BeginUpdateCheck { interactive: false },
            Effect::CheckTheme,
        ]
    );
}

#[test]
fn a_taskbar_that_is_gone_is_replaced_by_the_last_one() {
    let mut state = Some(initial_state(
        &SettingsFile::default(),
        LanguageId::English,
        InstallChannel::Portable,
        true,
        Timestamp { ticks: 0 },
        &languages(),
    ));
    assert_eq!(select_taskbar(&mut state, 3, 2), Some(1));
    assert_eq!(state.as_ref().unwrap().prefs.taskbar_index, 1);
    assert_eq!(select_taskbar(&mut state, 0, 0), None);
    assert_eq!(state.unwrap().prefs.taskbar_index, 1);
}
