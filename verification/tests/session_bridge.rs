use iuv_windows::ime::{Combo, Key, Keymap, PunctMode, SessionAction, TwoSlot, WidthMode};
use iuv_windows::session_bridge::{
    apply_effect, caps_passthrough, caret_jumped, composition_call, dispatch_effect, fullwidth,
    fullwidth_pending, is_passthrough_app, is_session_start_key, map_key,
    should_suppress_candidate_window, syncs_element, CaretRect, CompositionCall, CompositionState,
    Dispatched, SessionEnd, UiCall,
};

/// What a keyboard of the American layout gives for a character with Shift as it is.
fn shifted_punct(base: char, shift: bool) -> char {
    if !shift {
        return base;
    }
    let plain = "`1234567890-=[]\\;',./";
    let shifted = "~!@#$%^&*()_+{}|:\"<>?";
    match plain.chars().position(|c| c == base) {
        Some(i) => shifted.chars().nth(i).unwrap(),
        None => base,
    }
}

/// Whether a character has a Chinese form.
fn in_punct_table(c: char) -> bool {
    ",.;:?!()[]{}<>'\"\\^$".contains(c)
}

fn pressed(vk: u16, code: u32, shift: bool, caps: bool, ctrl: bool, alt: bool) -> Option<Key> {
    let shifted = match char::from_u32(code) {
        Some(c) => shifted_punct(c, shift),
        None => ' ',
    };
    map_key(vk, code, shift, caps, ctrl, alt, shifted)
}

fn wide(
    english: bool,
    width: WidthMode,
    punct: PunctMode,
    base: char,
    shift: bool,
    caps: bool,
) -> Option<String> {
    let shifted = shifted_punct(base, shift);
    fullwidth_pending(english, width, punct, base, shift, caps, shifted, in_punct_table(shifted))
}

fn unset() -> TwoSlot {
    TwoSlot { primary: None, secondary: None }
}

fn one(c: Combo) -> TwoSlot {
    TwoSlot { primary: Some(c), secondary: None }
}

/// The shortcuts that come with the input method.
fn default_keymap() -> Keymap {
    Keymap {
        page_prev: TwoSlot {
            primary: Some(Combo::plain(Key::PageUp)),
            secondary: Some(Combo::plain(Key::Char(','))),
        },
        page_next: TwoSlot {
            primary: Some(Combo::plain(Key::PageDown)),
            secondary: Some(Combo::plain(Key::Char('.'))),
        },
        candidate_prev: one(Combo::plain(Key::Left)),
        candidate_next: one(Combo::plain(Key::Right)),
        swap_left: one(Combo::shifted(Key::Left)),
        swap_right: one(Combo::shifted(Key::Right)),
        hide_candidate: one(Combo::shifted(Key::Delete)),
        toggle_mode: unset(),
        toggle_width: unset(),
        toggle_script: unset(),
        toggle_punct: unset(),
        open_settings: unset(),
        toggle_toolbar: unset(),
    }
}

/// The combination that a key of the keyboard makes.
fn combo_from_vk(vk: u16, code: u32, shift: bool, ctrl: bool, alt: bool) -> Option<Combo> {
    let base = match vk {
        0x21 => Key::PageUp,
        0x22 => Key::PageDown,
        0x25 => Key::Left,
        0x27 => Key::Right,
        0x2E => Key::Delete,
        0x74 => Key::F5,
        _ => Key::Char(char::from_u32(code)?),
    };
    Some(Combo { ctrl, alt, shift, win: false, base })
}

#[test]
fn map_key_letters_shift_and_caps_xor() {
    assert_eq!(
        pressed(0x41, 0x61, false, false, false, false),
        Some(Key::Char('a'))
    );
    assert_eq!(
        pressed(0x5A, 0x7A, false, false, false, false),
        Some(Key::Char('z'))
    );
    assert_eq!(
        pressed(0x4B, 0x6B, true, false, false, false),
        Some(Key::ShiftChar('K'))
    );
    assert_eq!(
        pressed(0x41, 0x61, true, false, false, false),
        Some(Key::ShiftChar('A'))
    );
    assert_eq!(
        pressed(0x4B, 0x6B, false, true, false, false),
        Some(Key::ShiftChar('K'))
    );
    assert_eq!(
        pressed(0x4B, 0x6B, true, true, false, false),
        Some(Key::Char('k'))
    );
}

#[test]
fn map_key_capslock_does_not_affect_non_letters() {
    assert_eq!(
        pressed(0x31, 0x31, false, true, false, false),
        Some(Key::Digit(1))
    );
    assert_eq!(
        pressed(0x31, 0x31, true, true, false, false),
        None,
        "Shift+数字放行"
    );
    assert_eq!(
        pressed(0xDE, 0x27, false, true, false, false),
        Some(Key::Char('\''))
    );
}

#[test]
fn map_key_digits_respect_shift() {
    assert_eq!(
        pressed(0x31, 0x31, false, false, false, false),
        Some(Key::Digit(1))
    );
    assert_eq!(
        pressed(0x39, 0x39, false, false, false, false),
        Some(Key::Digit(9))
    );
    assert_eq!(pressed(0x31, 0x31, true, false, false, false), None);
}

#[test]
fn digit_row_of_other_layouts() {
    for (vk, code) in [(0x32, 0xE9), (0x31, 0x26), (0x31, 0x30), (0x34, 0x27), (0x39, 0x3A)] {
        assert_eq!(pressed(vk, code, false, false, false, false), None, "{code:#x}");
        assert_eq!(pressed(vk, code, true, false, false, false), None, "{code:#x}");
    }
    assert_eq!(
        pressed(0x34, 0x37, false, false, false, false),
        Some(Key::Digit(7)),
        "the character counts, not the key"
    );
}

#[test]
fn caps_lock_changes_letters_alone() {
    for vk in 0..=0xFF {
        for code in [0, 0x20, 0x27, 0x2C, 0x31, 0x39, 0x3B, 0xE9] {
            for shift in [false, true] {
                if !(0x41..=0x5A).contains(&vk) {
                    assert_eq!(
                        pressed(vk, code, shift, true, false, false),
                        pressed(vk, code, shift, false, false, false)
                    );
                }
            }
        }
    }
}

#[test]
fn map_key_arrows_released_to_keymap() {
    assert_eq!(pressed(0x25, 0x25, false, false, false, false), None);
    assert_eq!(pressed(0x27, 0x27, false, false, false, false), None);
    assert_eq!(pressed(0x26, 0x26, false, false, false, false), None);
    assert_eq!(pressed(0x28, 0x28, false, false, false, false), None);
    assert_eq!(pressed(0x25, 0x25, false, false, true, false), None);
}

#[test]
fn map_key_paging_released_to_keymap() {
    assert_eq!(pressed(0x21, 0, false, false, false, false), None);
    assert_eq!(pressed(0x22, 0, false, false, false, false), None);
}

#[test]
fn map_key_shift_arrows_released() {
    assert_eq!(pressed(0x25, 0x25, true, false, false, false), None);
    assert_eq!(pressed(0x27, 0x27, true, false, false, false), None);
    assert_eq!(pressed(0x25, 0x25, true, true, false, false), None);
    assert_eq!(pressed(0x26, 0x26, true, false, false, false), None);
    assert_eq!(pressed(0x25, 0x25, true, false, true, false), None);
    assert_eq!(pressed(0x25, 0x25, true, false, false, true), None);
}

#[test]
fn map_key_apostrophe() {
    assert_eq!(
        pressed(0xDE, 0x27, false, false, false, false),
        Some(Key::Char('\''))
    );
    assert_eq!(pressed(0xDE, 0x27, true, false, false, false), None);
    assert_eq!(pressed(0xDE, 0x22, false, false, false, false), None);
}

#[test]
fn map_key_comma_period() {
    assert_eq!(
        pressed(0xBC, 0x2C, false, false, false, false),
        Some(Key::Char(','))
    );
    assert_eq!(
        pressed(0xBE, 0x2E, false, false, false, false),
        Some(Key::Char('.'))
    );
    assert_eq!(pressed(0xBC, 0x2C, true, false, false, false), None);
    assert_eq!(pressed(0xBE, 0x2E, true, false, false, false), None);
}

#[test]
fn keymap_combo_lookup() {
    let keymap = default_keymap();
    assert_eq!(
        keymap.map(&combo_from_vk(0x21, 0, false, false, false).unwrap()),
        Some(SessionAction::PagePrev)
    );
    assert_eq!(
        keymap.map(&combo_from_vk(0xBC, 0x2C, false, false, false).unwrap()),
        Some(SessionAction::PagePrev)
    );
    assert_eq!(
        keymap.map(&combo_from_vk(0x22, 0, false, false, false).unwrap()),
        Some(SessionAction::PageNext)
    );
    assert_eq!(
        keymap.map(&combo_from_vk(0x25, 0, true, false, false).unwrap()),
        Some(SessionAction::SwapLeft)
    );
    assert_eq!(
        keymap.map(&combo_from_vk(0x27, 0, true, false, false).unwrap()),
        Some(SessionAction::SwapRight)
    );
    assert_eq!(
        keymap.map(&combo_from_vk(0x2E, 0, true, false, false).unwrap()),
        Some(SessionAction::HideCandidate)
    );
    assert_eq!(
        keymap.map(&combo_from_vk(0x41, 0x61, false, false, false).unwrap()),
        None
    );
    assert_eq!(keymap.map(&combo_from_vk(0x74, 0, false, false, false).unwrap()), None);
}

#[test]
fn session_start_keys() {
    assert!(is_session_start_key(Key::Char('a')));
    assert!(!is_session_start_key(Key::Char('\'')));
    assert!(is_session_start_key(Key::ShiftChar('A')));
    assert!(!is_session_start_key(Key::Char(',')));
    assert!(!is_session_start_key(Key::Char('.')));
    assert!(!is_session_start_key(Key::Digit(1)));
    assert!(!is_session_start_key(Key::Space));
}

#[test]
fn caps_passthrough_letters() {
    assert!(caps_passthrough(&Key::ShiftChar('H'), true));
    assert!(caps_passthrough(&Key::Char('h'), true));
    assert!(!caps_passthrough(&Key::ShiftChar('H'), false));
    assert!(!caps_passthrough(&Key::Digit(1), true));
    assert!(!caps_passthrough(&Key::Char(','), true));
    assert!(!caps_passthrough(&Key::Space, true));
}

#[test]
fn passthrough_app_match() {
    let list = vec!["cyberpunk2077.exe".to_owned(), "dota2.exe".to_owned()];
    assert!(is_passthrough_app("cyberpunk2077.exe", &list));
    assert!(is_passthrough_app("dota2.exe", &list));
    assert!(is_passthrough_app("Cyberpunk2077.EXE", &list));
    assert!(is_passthrough_app("DOTA2.exe", &list));
    assert!(!is_passthrough_app("notepad.exe", &list));
    assert!(!is_passthrough_app("cyberpunk2077.exe", &[]));
    assert!(!is_passthrough_app("cyberpunk", &list));
    assert!(!is_passthrough_app("xcyberpunk2077.exe", &list));
}

#[test]
fn map_key_control_keys() {
    assert_eq!(
        pressed(0x08, 0, false, false, false, false),
        Some(Key::Backspace)
    );
    assert_eq!(
        pressed(0x20, 0, false, false, false, false),
        Some(Key::Space)
    );
    assert_eq!(
        pressed(0x0D, 0, false, false, false, false),
        Some(Key::Enter)
    );
    assert_eq!(pressed(0x1B, 0, false, false, false, false), Some(Key::Esc));
    assert_eq!(pressed(0x21, 0, false, false, false, false), None);
    assert_eq!(pressed(0x22, 0, false, false, false, false), None);
    assert_eq!(pressed(0x26, 0, false, false, false, false), None);
    assert_eq!(pressed(0x28, 0, false, false, false, false), None);
}

#[test]
fn map_key_shift_delete_release() {
    assert_eq!(pressed(0x2E, 0, true, false, false, false), None);
    assert_eq!(pressed(0x2E, 0, false, false, false, false), None);
    assert_eq!(pressed(0x2E, 0, true, true, false, false), None);
    assert_eq!(pressed(0x2E, 0, true, false, true, false), None);
    assert_eq!(pressed(0x2E, 0, true, false, false, true), None);
}

#[test]
fn map_key_unknown_returns_none() {
    assert_eq!(pressed(0x10, 0, false, false, false, false), None);
    assert_eq!(pressed(0x1B, 0, false, false, false, false), Some(Key::Esc));
    assert_eq!(pressed(0x90, 0, false, false, false, false), None);
    assert_eq!(pressed(0x00, 0, false, false, false, false), None);
}

#[test]
fn map_key_modifiers_always_release() {
    assert_eq!(pressed(0x53, 0x73, false, false, true, false), None);
    assert_eq!(pressed(0x53, 0x73, false, false, false, true), None);
    assert_eq!(pressed(0x31, 0x31, false, false, true, false), None);
    assert_eq!(pressed(0x20, 0, false, false, true, false), None);
    assert_eq!(pressed(0x0D, 0, false, false, false, true), None);
}
#[test]
fn map_key_digit_range_bounds() {
    assert_eq!(pressed(0x30, 0x30, false, false, false, false), None);
    assert_eq!(
        pressed(0x31, 0x31, false, false, false, false),
        Some(Key::Digit(1))
    );
}

#[test]
fn fullwidth_half_mode_release() {
    assert_eq!(
        wide(false, WidthMode::Half, PunctMode::Chinese, '1', false, false),
        None
    );
    assert_eq!(
        wide(true, WidthMode::Half, PunctMode::Chinese, 'a', false, false),
        None
    );
    assert_eq!(
        wide(true, WidthMode::Full, PunctMode::Chinese, '中', false, false),
        None
    );
    assert_eq!(
        wide(true, WidthMode::Full, PunctMode::Chinese, '\t', false, false),
        None
    );
}

#[test]
fn fullwidth_chinese_mode_digits_symbols() {
    let f = PunctMode::Chinese;
    assert_eq!(
        wide(false, WidthMode::Full, f, '1', false, false),
        Some("１".into())
    );
    assert_eq!(
        wide(false, WidthMode::Full, f, '0', false, false),
        Some("０".into())
    );
    assert_eq!(
        wide(false, WidthMode::Full, f, '/', false, false),
        Some("／".into())
    );
    assert_eq!(
        wide(false, WidthMode::Full, f, '-', true, false),
        Some("＿".into())
    );
    assert_eq!(
        wide(false, WidthMode::Full, f, ' ', false, false),
        Some("\u{3000}".into())
    );
}

#[test]
fn fullwidth_chinese_mode_punct_owned_or_release() {
    assert_eq!(
        wide(false, WidthMode::Full, PunctMode::Chinese, ',', false, false),
        None
    );
    assert_eq!(
        wide(false, WidthMode::Full, PunctMode::Chinese, '.', false, false),
        None
    );
    assert_eq!(
        wide(false, WidthMode::Full, PunctMode::Chinese, '[', true, false),
        None,
        "花括号在标点表（『）内，不转全角 ｛"
    );
    assert_eq!(
        wide(false, WidthMode::Full, PunctMode::English, ',', false, false),
        Some("，".into())
    );
    assert_eq!(
        wide(false, WidthMode::Full, PunctMode::Chinese, 'a', false, false),
        None
    );
    assert_eq!(
        wide(false, WidthMode::Full, PunctMode::Chinese, 'a', true, false),
        None
    );
}

#[test]
fn fullwidth_english_mode_letters_digits_symbols() {
    let f = PunctMode::Chinese;
    assert_eq!(
        wide(true, WidthMode::Full, f, 'a', false, false),
        Some("ａ".into())
    );
    assert_eq!(
        wide(true, WidthMode::Full, f, 'a', true, false),
        Some("Ａ".into())
    );
    assert_eq!(
        wide(true, WidthMode::Full, f, 'a', false, true),
        Some("Ａ".into())
    );
    assert_eq!(
        wide(true, WidthMode::Full, f, 'a', true, true),
        Some("ａ".into()),
        "Caps+Shift 反转小写"
    );
    assert_eq!(
        wide(true, WidthMode::Full, f, '3', false, false),
        Some("３".into())
    );
    assert_eq!(
        wide(true, WidthMode::Full, f, '.', false, false),
        Some("．".into())
    );
    assert_eq!(
        wide(true, WidthMode::Full, f, ' ', false, false),
        Some("\u{3000}".into())
    );
    assert_eq!(
        wide(true, WidthMode::Full, PunctMode::English, '.', false, false),
        Some("．".into())
    );
}
#[test]
fn map_key_oem_literal_tail_keys() {
    assert_eq!(
        pressed(0xBA, 0x3B, true, false, false, false),
        Some(Key::Char(':'))
    );
    assert_eq!(
        pressed(0xBA, 0x3B, false, false, false, false),
        Some(Key::Char(';'))
    );
    assert_eq!(
        pressed(0xDC, 0x5C, false, false, false, false),
        Some(Key::Char('\\'))
    );
    assert_eq!(
        pressed(0xBF, 0x2F, true, false, false, false),
        Some(Key::Char('?'))
    );
    assert_eq!(pressed(0xBA, 0, true, false, false, false), None);
}

#[test]
fn suppress_only_for_listed_apps() {
    assert!(!should_suppress_candidate_window(&[], "weixin.exe"));
    assert!(should_suppress_candidate_window(&["wow.exe".into()], "WoW.exe"));
    assert!(!should_suppress_candidate_window(&["wow.exe".into()], "weixin.exe"));
}

#[test]
fn fullwidth_covers_printable_ascii() {
    assert_eq!(fullwidth(' '), Some('\u{3000}'));
    assert_eq!(fullwidth('!'), Some('\u{FF01}'));
    assert_eq!(fullwidth('~'), Some('\u{FF5E}'));
    assert_eq!(fullwidth('\u{7F}'), None);
    assert_eq!(fullwidth('\u{1F}'), None);
}

fn at(x: i32, y: i32) -> CaretRect {
    CaretRect { x, y, w: 1, h: 20 }
}

#[test]
fn caret_jump_threshold() {
    assert!(!caret_jumped(at(0, 0), at(150, 0)), "150 is not further than 150");
    assert!(caret_jumped(at(0, 0), at(151, 0)));
    assert!(!caret_jumped(at(0, 0), at(90, -120)), "a distance of exactly 150");
    assert!(caret_jumped(at(0, 0), at(90, -121)));
    assert!(caret_jumped(at(i32::MIN, i32::MIN), at(i32::MAX, i32::MAX)));
}

#[test]
fn composition_follows_end_of_session() {
    assert_eq!(
        composition_call(&Some(SessionEnd::Commit("你好".into())), "ni'hao"),
        CompositionCall::Commit("你好".into())
    );
    assert_eq!(composition_call(&Some(SessionEnd::Cancel), "ni'hao"), CompositionCall::Cancel);
    assert_eq!(composition_call(&None, "ni'hao"), CompositionCall::SetText("ni'hao".into()));
    assert!(syncs_element(&None));
    assert!(!syncs_element(&Some(SessionEnd::Cancel)));
}

#[test]
fn effects_reach_the_window() {
    let mut caret = at(10, 10);
    assert_eq!(apply_effect(&None, &mut caret, Some(at(25, 10)), false, false), (UiCall::Show, false));
    assert_eq!(caret, at(25, 10));
    assert_eq!(apply_effect(&None, &mut caret, None, false, true), (UiCall::Update, false));
    assert_eq!(caret, at(25, 10), "a caret that was not found stays");
    assert_eq!(apply_effect(&None, &mut caret, Some(at(900, 10)), false, true), (UiCall::Hide, true));
    assert_eq!(apply_effect(&None, &mut caret, None, true, true), (UiCall::Hide, false));
    let end = Some(SessionEnd::Commit("x".into()));
    assert_eq!(apply_effect(&end, &mut caret, Some(at(0, 0)), false, true), (UiCall::Hide, true));
    assert_eq!(caret, at(900, 10));
}

#[test]
fn terminated_composition_drops_session() {
    let mut caret = at(1, 1);
    let r = dispatch_effect(
        CompositionState::Terminated,
        &None,
        &mut caret,
        Some(at(5, 5)),
        false,
        true,
        false,
    );
    assert_eq!(r, Dispatched { ui: None, suppressed: false, ended: true });
    assert_eq!(caret, at(1, 1));
    let r = dispatch_effect(
        CompositionState::Missing,
        &None,
        &mut caret,
        Some(at(500, 5)),
        false,
        true,
        true,
    );
    assert_eq!(r, Dispatched { ui: Some(UiCall::Update), suppressed: true, ended: false });
    assert_eq!(caret, at(1, 1));
    let r = dispatch_effect(
        CompositionState::Live,
        &None,
        &mut caret,
        Some(at(9, 1)),
        false,
        false,
        false,
    );
    assert_eq!(r, Dispatched { ui: Some(UiCall::Show), suppressed: false, ended: false });
    assert_eq!(caret, at(9, 1));
}

#[test]
fn far_caret_ends_the_session() {
    let far = |comp: CompositionState, visible: bool, empty: bool, to: CaretRect| {
        let mut caret = at(0, 0);
        let r = dispatch_effect(comp, &None, &mut caret, Some(to), empty, visible, false);
        (r.ui, r.ended, caret)
    };
    let live = CompositionState::Live;
    assert_eq!(far(live, true, false, at(151, 0)), (Some(UiCall::Hide), true, at(151, 0)));
    assert_eq!(far(live, true, false, at(150, 0)), (Some(UiCall::Update), false, at(150, 0)));
    assert_eq!(far(live, false, false, at(151, 0)), (Some(UiCall::Show), false, at(151, 0)));
    assert_eq!(far(live, true, true, at(151, 0)), (Some(UiCall::Hide), false, at(151, 0)));
    assert_eq!(
        far(CompositionState::Missing, true, false, at(151, 0)),
        (Some(UiCall::Update), false, at(0, 0))
    );
}
