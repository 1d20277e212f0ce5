use keyviewer::config::TargetConfig;
use keyviewer::filter::{
    parse_mode, should_process_event, should_process_event_cached, target_needs_window, TargetMode,
};
use keyviewer::window_info::{get_all_windows, WindowInfo};

fn notepad() -> Option<WindowInfo> {
    Some(WindowInfo {
        hwnd: "0x1A2B".to_string(),
        title: "Untitled - Notepad".to_string(),
        process: "notepad.exe".to_string(),
        class: "Notepad".to_string(),
    })
}

fn check(mode: &str, value: Option<&str>, window: &Option<WindowInfo>) -> bool {
    should_process_event_cached(mode, &value.map(|v| v.to_string()), window)
}

#[test]
fn process_must_equal_whole_name() {
    assert!(!check("process", Some("Notepad"), &notepad()));
    assert!(check("process", Some("notepad.exe"), &notepad()));
    assert!(check("process", Some("NOTEPAD.EXE"), &notepad()));
    assert!(!check("process", Some("notepad.ex"), &notepad()));
}

#[test]
fn class_ignores_case() {
    assert!(check("class", Some("notepad"), &notepad()));
    assert!(check("class", Some("NOTEPAD"), &notepad()));
    assert!(!check("class", Some("Note"), &notepad()));
}

#[test]
fn hwnd_is_exact() {
    assert!(check("hwnd", Some("0x1A2B"), &notepad()));
    assert!(!check("hwnd", Some("0x1a2b"), &notepad()));
}

#[test]
fn title_is_substring_ignoring_case() {
    assert!(check("title", Some("notepad"), &notepad()));
    assert!(check("title", Some("UNTITLED"), &notepad()));
    assert!(check("title", Some("Untitled - Notepad"), &notepad()));
    assert!(check("title", Some(""), &notepad()));
    assert!(!check("title", Some("Notepad++"), &notepad()));
}

#[test]
fn fixed_modes() {
    assert!(!check("disabled", Some("x"), &notepad()));
    assert!(!check("disabled", None, &None));
    assert!(check("all", None, &None));
    assert!(check("all", None, &notepad()));
}

#[test]
fn missing_value_or_window_never_admits() {
    assert!(!check("process", None, &notepad()));
    assert!(!check("title", None, &notepad()));
    assert!(!check("process", Some("notepad.exe"), &None));
    assert!(!check("class", Some("Notepad"), &None));
}

#[test]
fn unknown_mode_never_admits() {
    assert!(!check("window", Some("notepad.exe"), &notepad()));
    assert!(!check("", None, &notepad()));
    assert!(!check("ALL", None, &notepad()));
}

#[test]
fn config_form_agrees() {
    let cfg = TargetConfig { mode: "process".to_string(), value: Some("Notepad.exe".to_string()) };
    assert!(should_process_event(&cfg, &notepad()));
    assert!(!should_process_event(&TargetConfig::default(), &notepad()));
}

#[test]
fn mode_names() {
    assert_eq!(parse_mode("disabled"), TargetMode::Disabled);
    assert_eq!(parse_mode("all"), TargetMode::All);
    assert_eq!(parse_mode("title"), TargetMode::Title);
    assert_eq!(parse_mode("process"), TargetMode::Process);
    assert_eq!(parse_mode("hwnd"), TargetMode::Hwnd);
    assert_eq!(parse_mode("class"), TargetMode::Class);
    assert_eq!(parse_mode("Title"), TargetMode::Unknown);
    assert!(target_needs_window("title"));
    assert!(target_needs_window("hwnd"));
    assert!(!target_needs_window("all"));
    assert!(!target_needs_window("disabled"));
    assert!(!target_needs_window("other"));
}

#[test]
fn window_list_is_empty_here() {
    assert!(get_all_windows().is_empty());
}
