use keyviewer::capture::{handle_tap_event, InputEvent, InputProcessor, KeyPoller, CONFIG_REFRESH_INTERVAL};
use keyviewer::config::TargetConfig;
use keyviewer::keys::{monitored_key, MONITORED_KEY_COUNT};
use keyviewer::state::AppState;
use keyviewer::window_info::WindowInfo;

fn window(process: &str) -> Option<WindowInfo> {
    Some(WindowInfo {
        hwnd: "42".to_string(),
        title: "Game".to_string(),
        process: process.to_string(),
        class: "GameClass".to_string(),
    })
}

fn target(mode: &str, value: Option<&str>) -> TargetConfig {
    TargetConfig { mode: mode.to_string(), value: value.map(|v| v.to_string()) }
}

fn index_of(label: &str) -> usize {
    (0..MONITORED_KEY_COUNT).find(|&i| monitored_key(i).1 == label).unwrap()
}

#[test]
fn release_after_filter_change() {
    let mut state = AppState::new();
    let mut p = InputProcessor::new();
    assert!(p.count_event());
    p.refresh(&target("process", Some("game.exe")));
    let press = InputEvent::KeyPress { code: 9, label: "W".to_string() };
    assert!(p.needs_window(&press));
    p.process(&mut state, press, &window("game.exe"));
    assert_eq!(state.get_keys(), vec!["W".to_string()]);
    for _ in 1..CONFIG_REFRESH_INTERVAL {
        assert!(!p.count_event());
    }
    assert!(p.count_event());
    p.refresh(&target("process", Some("other.exe")));
    let ignored = InputEvent::KeyPress { code: 10, label: "S".to_string() };
    p.process(&mut state, ignored, &window("game.exe"));
    assert_eq!(state.get_keys(), vec!["W".to_string()]);
    let release = InputEvent::KeyRelease { code: 9 };
    assert!(!p.needs_window(&release));
    p.process(&mut state, release, &None);
    assert!(state.get_keys().is_empty());
}

#[test]
fn cached_filter_refreshes_on_interval() {
    let mut state = AppState::new();
    let mut p = InputProcessor::new();
    assert!(p.count_event());
    assert!(p.count_event());
    p.refresh(&target("disabled", None));
    for _ in 1..CONFIG_REFRESH_INTERVAL {
        assert!(!p.count_event());
    }
    p.process(&mut state, InputEvent::ButtonPress { code: 1, label: "LMB".to_string() }, &None);
    assert!(state.get_keys().is_empty());
    assert!(p.count_event());
    p.refresh(&target("all", None));
    p.process(&mut state, InputEvent::ButtonPress { code: 1, label: "LMB".to_string() }, &None);
    assert_eq!(state.get_keys(), vec!["LMB".to_string()]);
    p.process(&mut state, InputEvent::ButtonRelease { code: 1 }, &None);
    assert!(state.get_keys().is_empty());
}

#[test]
fn poller_diffs_samples() {
    let mut state = AppState::new();
    let mut poller = KeyPoller::new();
    let a = index_of("A");
    let lshift = 0xA0_u32 | 0x8000_0000;
    let mut down = vec![false; MONITORED_KEY_COUNT];
    down[a] = true;
    down[index_of("B")] = true;
    poller.poll_tick(&mut state, true, &down);
    assert_eq!(state.get_keys(), vec!["A".to_string(), "B".to_string()]);
    assert!(state.is_key_pressed(0x41 | 0x8000_0000));
    assert!(!state.is_key_pressed(lshift));
    down[a] = false;
    poller.poll_tick(&mut state, true, &down);
    assert_eq!(state.get_keys(), vec!["B".to_string()]);
    down[a] = true;
    poller.poll_tick(&mut state, true, &down);
    assert_eq!(state.get_keys(), vec!["B".to_string(), "A".to_string()]);
}

#[test]
fn poller_shares_labels_of_left_and_right() {
    let mut state = AppState::new();
    let mut poller = KeyPoller::new();
    let mut down = vec![false; MONITORED_KEY_COUNT];
    down[0x00] = false;
    let shifts: Vec<usize> =
        (0..MONITORED_KEY_COUNT).filter(|&i| monitored_key(i).1 == "SHIFT").collect();
    down[shifts[0]] = true;
    down[shifts[1]] = true;
    poller.poll_tick(&mut state, true, &down);
    assert_eq!(state.get_keys(), vec!["SHIFT".to_string()]);
    down[shifts[0]] = false;
    poller.poll_tick(&mut state, true, &down);
    assert_eq!(state.get_keys(), vec!["SHIFT".to_string()]);
    down[shifts[1]] = false;
    poller.poll_tick(&mut state, true, &down);
    assert!(state.get_keys().is_empty());
}

#[test]
fn poller_clears_when_filter_refuses() {
    let mut state = AppState::new();
    let mut poller = KeyPoller::new();
    let mut down = vec![false; MONITORED_KEY_COUNT];
    down[index_of("W")] = true;
    poller.poll_tick(&mut state, true, &down);
    assert_eq!(state.get_keys(), vec!["W".to_string()]);
    poller.poll_tick(&mut state, false, &Vec::new());
    assert!(state.get_keys().is_empty());
    poller.poll_tick(&mut state, true, &down);
    assert_eq!(state.get_keys(), vec!["W".to_string()]);
}

#[test]
fn tap_events() {
    let mut state = AppState::new();
    state.target_config = target("process", Some("Game.exe"));
    handle_tap_event(&mut state, true, 36, &window("game.exe"));
    handle_tap_event(&mut state, true, 76, &window("game.exe"));
    assert_eq!(state.get_keys(), vec!["ENTER".to_string()]);
    handle_tap_event(&mut state, true, 0, &window("browser"));
    assert_eq!(state.get_keys(), vec!["ENTER".to_string()]);
    handle_tap_event(&mut state, false, 36, &window("browser"));
    assert_eq!(state.get_keys(), vec!["ENTER".to_string()]);
    handle_tap_event(&mut state, false, 76, &None);
    assert!(state.get_keys().is_empty());
    state.target_config = target("all", None);
    handle_tap_event(&mut state, true, 300, &None);
    assert_eq!(state.get_keys(), vec!["KEY300".to_string()]);
}
