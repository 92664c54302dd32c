use iuv_windows::capture::CaptureOutcome;
use iuv_windows::config::DaemonConfig;
use iuv_windows::ime::{Combo, GlobalAction, Key, Keymap, SessionAction, TwoSlot};
use iuv_windows::settings::{
    dict_line, find_conflict, global_actions, log_clear_text, session_actions, session_label,
    set_target, tabs, target_combo, target_label, validate_combo, CaptureTarget, SettingsApp, Slot,
    Tab,
};
use iuv_windows::text::entries_of;

fn unset() -> TwoSlot {
    TwoSlot { primary: None, secondary: None }
}

fn bare_keymap() -> Keymap {
    Keymap {
        page_prev: unset(),
        page_next: unset(),
        candidate_prev: unset(),
        candidate_next: unset(),
        swap_left: unset(),
        swap_right: unset(),
        hide_candidate: unset(),
        toggle_mode: unset(),
        toggle_width: unset(),
        toggle_script: unset(),
        toggle_punct: unset(),
        open_settings: unset(),
        toggle_toolbar: unset(),
    }
}

fn with_ctrl(base: Key) -> Combo {
    Combo { ctrl: true, alt: false, shift: false, win: false, base }
}

fn window() -> SettingsApp {
    SettingsApp::new(&DaemonConfig::defaults(bare_keymap()))
}

const PAGE: CaptureTarget = CaptureTarget::Session(SessionAction::PagePrev, Slot::Primary);
const MODE: CaptureTarget = CaptureTarget::Global(GlobalAction::ToggleMode, Slot::Secondary);

#[test]
fn tabs_with_and_without_developers() {
    assert_eq!(tabs(true).len(), tabs(false).len() + 1);
    assert!(tabs(true).contains(&Tab::Dev));
    assert!(!tabs(false).contains(&Tab::Dev));
    for t in tabs(true) {
        assert!(!t.title().is_empty());
    }
    assert_ne!(Slot::Primary.name(), Slot::Secondary.name());
}

#[test]
fn targets_are_set_apart() {
    let mut k = bare_keymap();
    set_target(&mut k, PAGE, Some(Combo::plain(Key::PageUp)));
    set_target(&mut k, MODE, Some(with_ctrl(Key::F1)));
    assert_eq!(target_combo(&k, PAGE), Some(Combo::plain(Key::PageUp)));
    assert_eq!(k.toggle_mode.secondary, Some(with_ctrl(Key::F1)));
    assert_eq!(k.toggle_mode.primary, None);
    set_target(&mut k, PAGE, None);
    assert_eq!(target_combo(&k, PAGE), None);
    assert_eq!(session_actions().len(), 7);
    assert_eq!(global_actions().len(), 6);
    for a in session_actions() {
        assert!(!session_label(a).is_empty());
    }
}

#[test]
fn refused_combinations() {
    let mut k = bare_keymap();
    let alt = Combo { ctrl: false, alt: true, shift: false, win: false, base: Key::Left };
    assert!(validate_combo(&k, PAGE, &alt, "Alt+Left").unwrap_err().contains("Alt"));
    assert!(validate_combo(&k, PAGE, &with_ctrl(Key::Left), "Ctrl+Left")
        .unwrap_err()
        .contains("Ctrl"));
    assert!(validate_combo(&k, PAGE, &Combo::plain(Key::Char('a')), "A")
        .unwrap_err()
        .contains("字母"));
    assert!(validate_combo(&k, MODE, &Combo::plain(Key::F5), "F5").unwrap_err().contains("修饰"));
    assert!(validate_combo(&k, MODE, &with_ctrl(Key::Space), "Ctrl+Space")
        .unwrap_err()
        .contains("Ctrl+Space"));
    assert_eq!(validate_combo(&k, PAGE, &Combo::plain(Key::PageUp), "PageUp"), Ok(()));
    k.page_next.primary = Some(Combo::plain(Key::PageUp));
    let msg = validate_combo(&k, PAGE, &Combo::plain(Key::PageUp), "PageUp").unwrap_err();
    assert!(msg.contains(session_label(SessionAction::PageNext)), "{msg}");
    assert!(msg.starts_with(target_label(PAGE)), "{msg}");
    assert_eq!(
        find_conflict(&k, Combo::plain(Key::PageUp), PAGE),
        Some(session_label(SessionAction::PageNext))
    );
    assert_eq!(find_conflict(&k, Combo::plain(Key::PageDown), PAGE), None);
}

#[test]
fn combination_bound_twice_stays_refused() {
    let mut k = bare_keymap();
    let page_up = Combo::plain(Key::PageUp);
    k.page_prev.primary = Some(page_up);
    assert_eq!(find_conflict(&k, page_up, PAGE), None, "a slot does not stand in its own way");
    k.page_next.primary = Some(page_up);
    assert_eq!(
        find_conflict(&k, page_up, PAGE),
        Some(session_label(SessionAction::PageNext)),
        "the other slot holds it still"
    );
    assert!(validate_combo(&k, PAGE, &page_up, "PageUp").is_err());
    k.page_next.primary = None;
    k.page_prev.secondary = Some(page_up);
    assert_eq!(
        find_conflict(&k, page_up, PAGE),
        Some(session_label(SessionAction::PagePrev)),
        "the other slot of the same action"
    );
    k.page_prev.secondary = None;
    k.toggle_mode.primary = Some(page_up);
    assert_eq!(
        find_conflict(&k, page_up, PAGE),
        Some(target_label(CaptureTarget::Global(GlobalAction::ToggleMode, Slot::Primary)))
    );
}

#[test]
fn recording_sets_a_slot() {
    let mut w = window();
    w.start_capture(PAGE);
    assert_eq!(w.capture, Some(PAGE));
    w.poll_capture(Some(CaptureOutcome::Captured(Combo::plain(Key::PageUp))), "PageUp");
    assert_eq!(w.keymap.page_prev.primary, Some(Combo::plain(Key::PageUp)));
    assert_eq!(w.capture, None);
    assert!(w.keymap_warn.is_none());
    w.start_capture(PAGE);
    w.poll_capture(Some(CaptureOutcome::Cancel), "");
    assert_eq!(w.keymap.page_prev.primary, Some(Combo::plain(Key::PageUp)), "Escape keeps it");
    w.start_capture(PAGE);
    w.poll_capture(Some(CaptureOutcome::Clear), "");
    assert_eq!(w.keymap.page_prev.primary, None);
    w.start_capture(PAGE);
    w.poll_capture(Some(CaptureOutcome::Captured(Combo::plain(Key::Char('x')))), "X");
    assert_eq!(w.keymap.page_prev.primary, None, "a refused combination is not set");
    assert!(w.keymap_warn.is_some());
}

#[test]
fn slots_are_named() {
    let mut w = window();
    assert_eq!(w.slot_text(PAGE, None), "未设置");
    assert!(w.slot_text(PAGE, Some("PageUp")).starts_with("PageUp（"));
    w.start_capture(PAGE);
    assert!(w.slot_text(PAGE, None).contains("Esc"));
}

#[test]
fn lists_of_programs_round_trip() {
    let mut cfg = DaemonConfig::defaults(bare_keymap());
    cfg.passthrough_apps = vec!["a.exe".into(), "b c.exe".into()];
    let mut w = SettingsApp::new(&cfg);
    assert_eq!(w.passthrough, "a.exe\nb c.exe");
    assert_eq!(w.collect().passthrough_apps, cfg.passthrough_apps);
    w.passthrough = "  a.exe \r\n\n\t\n b c.exe".into();
    assert_eq!(w.collect().passthrough_apps, cfg.passthrough_apps);
    w.candidate_owner = "\u{3000}x.exe\u{3000}".into();
    assert_eq!(w.collect().candidate_owner_apps, vec!["x.exe".to_string()]);
}

#[test]
fn defaults_are_restored() {
    let mut w = window();
    w.restore_passthrough();
    assert!(w.collect().passthrough_apps.contains(&"Cyberpunk2077.exe".to_string()));
    w.restore_candidate_owner();
    assert!(w.collect().candidate_owner_apps.contains(&"wow.exe".to_string()));
    w.keymap.page_prev.primary = Some(Combo::plain(Key::F5));
    w.restore_keymap(bare_keymap());
    assert_eq!(w.keymap, bare_keymap());
}

#[test]
fn log_modules_switch() {
    let mut w = window();
    w.switch_log_module("key", false);
    assert_eq!(w.disabled_log, vec!["key".to_string()]);
    w.switch_log_module("key", false);
    assert_eq!(w.disabled_log.len(), 1);
    w.switch_log_module("key", true);
    assert!(w.disabled_log.is_empty());
}

#[test]
fn clearing_is_asked_and_done_once() {
    let mut w = window();
    w.ask_clear();
    assert!(w.confirm_clear);
    w.answer_clear(false);
    assert!(!w.pending_clear);
    w.ask_clear();
    w.answer_clear(true);
    assert!(w.pending_clear);
    assert!(w.apply(None));
    assert!(!w.apply(None));
    assert!(!w.status_failed());
    w.apply(Some("disk full"));
    assert!(w.status_failed());
    assert!(w.status.contains("disk full"));
}

#[test]
fn only_known_words_are_collected() {
    let mut w = window();
    w.theme = "pink".into();
    w.orientation = "horizontal".into();
    w.select_tab(Tab::Dict);
    assert_eq!(w.tab, Tab::Dict);
    let c = w.collect();
    assert_eq!(c.theme, "light");
    assert_eq!(c.candidate_orientation, "horizontal");
    w.on_exit();
    assert!(!w.capturing);
}

#[test]
fn lines_of_the_window() {
    assert!(dict_line("ni'hao", "你好", Some(7)).contains("7"));
    assert!(dict_line("ni'hao", "你好", None).contains("你好"));
    assert!(log_clear_text(4, 0).contains("4"));
    assert!(log_clear_text(3, 1).contains("1"));
}

#[test]
fn white_space_around_entries_is_that_of_the_standard_library() {
    for c in (0..=0x10FFFF).filter_map(char::from_u32) {
        let line = format!("{c}x y{c}\n{c}");
        let expected: Vec<&str> =
            line.lines().map(|l| l.trim()).filter(|l| !l.is_empty()).collect();
        assert_eq!(entries_of(&line), expected, "{:#x}", c as u32);
    }
}
