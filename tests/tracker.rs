use keyviewer::config::TargetConfig;
use keyviewer::state::AppState;

fn keys(state: &AppState) -> Vec<String> {
    state.get_keys()
}

#[test]
fn two_physical_keys_one_label() {
    let mut s = AppState::new();
    s.add_key(1, "SHIFT".to_string());
    s.add_key(2, "SHIFT".to_string());
    assert_eq!(keys(&s), vec!["SHIFT".to_string()]);
    s.remove_key(1);
    assert_eq!(keys(&s), vec!["SHIFT".to_string()]);
    s.remove_key(2);
    assert!(keys(&s).is_empty());
}

#[test]
fn released_label_reenters_at_tail() {
    let mut s = AppState::new();
    s.add_key(10, "A".to_string());
    s.add_key(20, "B".to_string());
    s.remove_key(10);
    s.add_key(10, "A".to_string());
    assert_eq!(keys(&s), vec!["B".to_string(), "A".to_string()]);
}

#[test]
fn repeated_press_counts_once() {
    let mut once = AppState::new();
    once.add_key(5, "CTRL".to_string());
    let mut twice = AppState::new();
    twice.add_key(5, "CTRL".to_string());
    twice.add_key(5, "CTRL".to_string());
    assert_eq!(keys(&once), keys(&twice));
    twice.remove_key(5);
    assert!(keys(&twice).is_empty());
    assert!(!twice.is_key_pressed(5));
}

#[test]
fn clear_empties_everything() {
    let mut s = AppState::new();
    s.add_key(1, "A".to_string());
    s.add_key(2, "B".to_string());
    s.add_key(3, "B".to_string());
    s.remove_key(1);
    s.clear_keys();
    assert!(keys(&s).is_empty());
    assert!(!s.is_key_pressed(2));
    assert!(!s.is_key_pressed(3));
    assert!(!s.keys.any_down());
    s.clear_keys();
    assert!(keys(&s).is_empty());
}

#[test]
fn counts_follow_held_keys() {
    let mut s = AppState::new();
    s.add_key(1, "CTRL".to_string());
    s.add_key(3, "A".to_string());
    s.add_key(2, "CTRL".to_string());
    assert_eq!(keys(&s), vec!["CTRL".to_string(), "A".to_string()]);
    s.remove_key(2);
    assert_eq!(keys(&s), vec!["CTRL".to_string(), "A".to_string()]);
    s.remove_key(1);
    assert_eq!(keys(&s), vec!["A".to_string()]);
    s.remove_key(1);
    assert_eq!(keys(&s), vec!["A".to_string()]);
    assert!(s.is_key_pressed(3));
}

#[test]
fn release_of_unknown_key_is_ignored() {
    let mut s = AppState::new();
    s.add_key(7, "Q".to_string());
    s.remove_key(8);
    assert_eq!(keys(&s), vec!["Q".to_string()]);
}

#[test]
fn extreme_codes_are_distinct_keys() {
    let mut s = AppState::new();
    s.add_key(0, "X".to_string());
    s.add_key(u32::MAX, "X".to_string());
    s.remove_key(0);
    assert_eq!(keys(&s), vec!["X".to_string()]);
    assert!(s.is_key_pressed(u32::MAX));
}

#[test]
fn new_state_defaults() {
    let s = AppState::new();
    assert!(keys(&s).is_empty());
    assert_eq!(s.target_config.mode, "disabled");
    assert!(s.target_config.value.is_none());
    assert_eq!(s.language, "ko");
    assert!(!s.server_alive);
    assert!(s.event_tx.is_none());
    assert_eq!(s.cache_buster, 0);
}

#[test]
fn changes_reach_the_notifier() {
    let (tx, mut rx) = tokio::sync::watch::channel(Vec::<String>::new());
    let mut s = AppState::new();
    s.set_event_tx(tx);
    s.add_key(1, "A".to_string());
    assert!(rx.has_changed().unwrap());
    assert_eq!(*rx.borrow_and_update(), vec!["A".to_string()]);
    s.add_key(2, "B".to_string());
    assert_eq!(*rx.borrow_and_update(), vec!["A".to_string(), "B".to_string()]);
    s.add_key(3, "B".to_string());
    assert!(!rx.has_changed().unwrap());
    s.remove_key(1);
    assert_eq!(*rx.borrow_and_update(), vec!["B".to_string()]);
    s.clear_keys();
    assert!(rx.borrow_and_update().is_empty());
}

#[test]
fn cache_buster_takes_the_clock() {
    let mut s = AppState::new();
    s.add_key(1, "A".to_string());
    s.bump_cache_buster();
    assert!(s.cache_buster > 1_600_000_000_000);
    assert_eq!(keys(&s), vec!["A".to_string()]);
}

#[test]
fn new_target_drops_tracked_keys() {
    let (tx, mut rx) = tokio::sync::watch::channel(vec!["stale".to_string()]);
    let mut s = AppState::new();
    s.set_event_tx(tx);
    s.add_key(1, "A".to_string());
    s.set_target_config(TargetConfig { mode: "title".to_string(), value: Some("Game".to_string()) });
    assert!(keys(&s).is_empty());
    assert!(!s.is_key_pressed(1));
    assert_eq!(s.target_config.mode, "title");
    assert_eq!(s.target_config.value.as_deref(), Some("Game"));
    assert!(rx.borrow_and_update().is_empty());
}
