use iuv_windows::capture::{
    begin, end, hook_proc, CaptureOutcome, CaptureState, HookReply, KeyPress,
};
use iuv_windows::ime::{Combo, Key};

fn press(vk: u32, base: Option<Key>) -> KeyPress {
    KeyPress { vk, flags: 0, ctrl: false, shift: false, win: false, base }
}

fn recording() -> Option<CaptureState> {
    let mut s = None;
    assert!(begin(&mut s, true));
    s
}

#[test]
fn capture_state_defaults() {
    let s = CaptureState::default();
    assert!(s.outcome.is_none());
    assert!(!s.installed);
}

#[test]
fn outcome_variants() {
    let c = Combo::shifted(Key::Left);
    let o = CaptureOutcome::Captured(c);
    match o {
        CaptureOutcome::Captured(c2) => assert_eq!(c2, c),
        _ => panic!("应为 Captured"),
    }
}

#[test]
fn escape_cancels_and_backspace_clears() {
    let mut s = recording();
    assert_eq!(hook_proc(&mut s, 0, &press(0x1B, Some(Key::Esc))), HookReply::Swallow);
    assert_eq!(s.unwrap().outcome, Some(CaptureOutcome::Cancel));
    assert!(!s.unwrap().installed);
    let mut s = recording();
    hook_proc(&mut s, 0, &press(0x08, Some(Key::Backspace)));
    assert_eq!(s.unwrap().outcome, Some(CaptureOutcome::Clear));
}

#[test]
fn combinations_are_captured() {
    let mut s = recording();
    let key = KeyPress { flags: 32, ctrl: true, ..press(0x41, Some(Key::Char('a'))) };
    assert_eq!(hook_proc(&mut s, 0, &key), HookReply::Swallow);
    let c = Combo { ctrl: true, alt: true, shift: false, win: false, base: Key::Char('a') };
    assert_eq!(s.unwrap().outcome, Some(CaptureOutcome::Captured(c)));
    assert!(s.unwrap().request_repaint);
}

#[test]
fn bare_letters_and_modifiers_wait() {
    let mut s = recording();
    assert_eq!(hook_proc(&mut s, 0, &press(0x41, Some(Key::Char('a')))), HookReply::Swallow);
    assert_eq!(hook_proc(&mut s, 0, &press(0x10, None)), HookReply::Swallow);
    assert!(s.unwrap().outcome.is_none());
    assert!(s.unwrap().installed);
    hook_proc(&mut s, 0, &press(0x74, Some(Key::F5)));
    assert_eq!(s.unwrap().outcome, Some(CaptureOutcome::Captured(Combo::plain(Key::F5))));
}

#[test]
fn other_events_go_on() {
    let mut s = recording();
    let up = KeyPress { flags: 128, ..press(0x74, Some(Key::F5)) };
    assert_eq!(hook_proc(&mut s, 0, &up), HookReply::PassOn);
    assert_eq!(hook_proc(&mut s, -1, &press(0x74, Some(Key::F5))), HookReply::PassOn);
    assert_eq!(hook_proc(&mut None, 0, &press(0x74, Some(Key::F5))), HookReply::PassOn);
    end(&mut s);
    assert!(!s.unwrap().installed);
    assert_eq!(hook_proc(&mut s, 0, &press(0x74, Some(Key::F5))), HookReply::PassOn);
    assert!(!begin(&mut s, false));
    assert!(s.is_none());
    end(&mut s);
    assert!(s.is_none());
}
