use keyviewer::keys::{
    button_to_code, button_to_label, key_to_code, key_to_label, keycode_to_label, monitored_key,
    MouseButton, MONITORED_KEY_COUNT, MOUSE_BUTTON_BASE,
};

#[test]
fn tap_table_labels() {
    assert_eq!(keycode_to_label(0), "A");
    assert_eq!(keycode_to_label(36), "ENTER");
    assert_eq!(keycode_to_label(76), "ENTER");
    assert_eq!(keycode_to_label(56), "SHIFT");
    assert_eq!(keycode_to_label(60), "SHIFT");
    assert_eq!(keycode_to_label(42), "\\");
    assert_eq!(keycode_to_label(126), "UP");
}

#[test]
fn tap_unlisted_codes() {
    assert_eq!(keycode_to_label(10), "KEY10");
    assert_eq!(keycode_to_label(200), "KEY200");
    assert_eq!(keycode_to_label(127), "KEY127");
    assert_eq!(keycode_to_label(u16::MAX), "KEY65535");
}

#[test]
fn hook_names_to_labels() {
    assert_eq!(key_to_label("Return"), "ENTER");
    assert_eq!(key_to_label("KpReturn"), "ENTER");
    assert_eq!(key_to_label("ShiftLeft"), "SHIFT");
    assert_eq!(key_to_label("ShiftRight"), "SHIFT");
    assert_eq!(key_to_label("MetaLeft"), "CMD");
    assert_eq!(key_to_label("KpDivide"), "/");
    assert_eq!(key_to_label("Slash"), "/");
    assert_eq!(key_to_label("Num0"), "0");
    assert_eq!(key_to_label("Kp0"), "0");
    assert_eq!(key_to_label("BackSlash"), "\\");
}

#[test]
fn hook_names_without_label_are_upper_cased() {
    assert_eq!(key_to_label("Function"), "FUNCTION");
    assert_eq!(key_to_label("Unknown(42)"), "UNKNOWN(42)");
    assert_eq!(key_to_label("KpEqual"), "KPEQUAL");
}

#[test]
fn hook_codes_are_stable() {
    assert_eq!(key_to_code("ShiftLeft"), key_to_code("ShiftLeft"));
    assert_ne!(key_to_code("ShiftLeft"), key_to_code("ShiftRight"));
}

#[test]
fn mouse_buttons() {
    assert_eq!(button_to_label(MouseButton::Left), "LMB");
    assert_eq!(button_to_label(MouseButton::Right), "RMB");
    assert_eq!(button_to_label(MouseButton::Middle), "MMB");
    assert_eq!(button_to_label(MouseButton::Unknown(7)), "MB7");
    assert_eq!(button_to_label(MouseButton::Unknown(0)), "MB0");
    assert_eq!(button_to_code(MouseButton::Left), 0xFFFF_0001);
    assert_eq!(button_to_code(MouseButton::Right), 0xFFFF_0002);
    assert_eq!(button_to_code(MouseButton::Middle), 0xFFFF_0003);
    assert_eq!(button_to_code(MouseButton::Unknown(8)), 0xFFFF_006C);
    assert_eq!(button_to_code(MouseButton::Unknown(255)), MOUSE_BUTTON_BASE + 355);
}

#[test]
fn monitored_key_set() {
    assert_eq!(MONITORED_KEY_COUNT, 101);
    assert_eq!(monitored_key(0), (0x41, "A"));
    assert_eq!(monitored_key(MONITORED_KEY_COUNT - 1), (0x6F, "/"));
    let mut vks: Vec<i32> = (0..MONITORED_KEY_COUNT).map(|i| monitored_key(i).0).collect();
    vks.sort();
    vks.dedup();
    assert_eq!(vks.len(), MONITORED_KEY_COUNT);
    let shifts: Vec<i32> = (0..MONITORED_KEY_COUNT)
        .map(monitored_key)
        .filter(|e| e.1 == "SHIFT")
        .map(|e| e.0)
        .collect();
    assert_eq!(shifts, vec![0xA0, 0xA1]);
}
