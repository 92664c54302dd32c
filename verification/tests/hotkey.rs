use iuv_windows::hotkey::{
    global_action_label, hotkey_from_id, hotkey_id, register_all, register_one, tally,
    unregister_all,
};
use iuv_windows::ime::{Combo, GlobalAction, Key, Keymap, TwoSlot};

fn unset() -> TwoSlot {
    TwoSlot { primary: None, secondary: None }
}

fn bare_keymap() -> Keymap {
    Keymap {
        page_prev: unset(),
        page_next: unset(),
        candidate_prev: unset(),
        candidate_next: unset(),
        swap_left: unset(),
        swap_right: unset(),
        hide_candidate: unset(),
        toggle_mode: unset(),
        toggle_width: unset(),
        toggle_script: unset(),
        toggle_punct: unset(),
        open_settings: unset(),
        toggle_toolbar: unset(),
    }
}

#[test]
fn hotkey_id_roundtrip() {
    for a in [
        GlobalAction::ToggleMode,
        GlobalAction::ToggleWidth,
        GlobalAction::ToggleScript,
        GlobalAction::TogglePunct,
        GlobalAction::OpenSettings,
        GlobalAction::ToggleToolbar,
    ] {
        for secondary in [false, true] {
            let id = hotkey_id(a, secondary);
            assert_eq!(hotkey_from_id(id as usize), Some((a, secondary)));
        }
    }
    assert_eq!(hotkey_from_id(0xFF), None, "越界 id 防御");
}

#[test]
fn labels_cover_all() {
    for a in [
        GlobalAction::ToggleMode,
        GlobalAction::ToggleWidth,
        GlobalAction::ToggleScript,
        GlobalAction::TogglePunct,
        GlobalAction::OpenSettings,
        GlobalAction::ToggleToolbar,
    ] {
        assert!(!global_action_label(a).is_empty());
    }
}

#[test]
fn ids_past_the_last_are_none() {
    assert!(hotkey_from_id(11).is_some());
    assert_eq!(hotkey_from_id(12), None);
    assert_eq!(hotkey_from_id(usize::MAX), None);
}

#[test]
fn registrations_follow_the_slots() {
    let mut k = bare_keymap();
    assert!(register_all(&k).is_empty());
    k.open_settings = TwoSlot { primary: None, secondary: Some(Combo::shifted(Key::F5)) };
    k.toggle_mode = TwoSlot {
        primary: Some(Combo { ctrl: true, alt: true, shift: false, win: false, base: Key::F1 }),
        secondary: None,
    };
    let b = register_all(&k);
    assert_eq!(b.len(), 2);
    let first = register_one(&b[0], Some(0x70)).unwrap();
    assert_eq!(first.id, hotkey_id(GlobalAction::ToggleMode, false));
    let second = register_one(&b[1], Some(0x74)).unwrap();
    assert_eq!(second.id, hotkey_id(GlobalAction::OpenSettings, true));
    assert!(register_one(&b[1], None).is_none(), "a key without a number cannot be registered");
}

#[test]
fn bare_keys_are_not_registered() {
    let mut k = bare_keymap();
    k.toggle_width = TwoSlot { primary: Some(Combo::plain(Key::F5)), secondary: None };
    let b = register_all(&k);
    assert_eq!(b.len(), 1);
    assert!(register_one(&b[0], Some(0x74)).is_none());
}

#[test]
fn tally_counts_both() {
    assert_eq!(tally(&vec![]), (0, 0));
    assert_eq!(tally(&vec![true, false, true]), (2, 1));
}

#[test]
fn all_numbers_are_unregistered() {
    assert_eq!(unregister_all(), (0..12).collect::<Vec<i32>>());
}
