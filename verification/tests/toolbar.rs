use std::collections::VecDeque;

use iuv_windows::geometry::{default_pos, Rect};
use iuv_windows::hotkey::hotkey_id;
use iuv_windows::ime::{GlobalAction, ImeState, InitialMode, PunctMode, ScriptMode, WidthMode};
use iuv_windows::toolbar::fullscreen::{is_desktop, probe, Foreground};
use iuv_windows::toolbar::host;
use iuv_windows::toolbar::messages::{
    bar_message, BarMessage, World, HT_CLIENT, HT_TRANSPARENT, MA_NO_ACTIVATE, PET_TIMER_ID,
};
use iuv_windows::toolbar::polled;
use iuv_windows::toolbar::polled::{field, toggle_value, Click, Field};
use iuv_windows::toolbar::prefs::{default_visible, load_pref, ToolbarPref};
use iuv_windows::toolbar::tooltip::{show_near, tip_wnd_proc};
use iuv_windows::toolbar::window::{
    button_tooltip, BarAction, BarEvent, BarFrame, Drawing, PetBox, ToolbarButton, ToolbarWindow,
};
use iuv_windows::wire::{CtlCmd, CtlResult, Request, ToolbarSignal};

const TB_LOGO: ToolbarButton = ToolbarButton::Logo;
const TB_MODE: ToolbarButton = ToolbarButton::Mode;
const TB_WIDTH: ToolbarButton = ToolbarButton::Width;
const TB_PUNCT: ToolbarButton = ToolbarButton::Punct;
const TB_SCRIPT: ToolbarButton = ToolbarButton::Script;
const TB_GEAR: ToolbarButton = ToolbarButton::Gear;

#[test]
fn toolbar_button_tooltip_mapping() {
    assert_eq!(button_tooltip(TB_MODE), Some("中/英"));
    assert_eq!(button_tooltip(TB_WIDTH), Some("全半角"));
    assert_eq!(button_tooltip(TB_PUNCT), Some("中英文标点"));
    assert_eq!(button_tooltip(TB_SCRIPT), Some("简体/繁体"));
    assert_eq!(button_tooltip(TB_GEAR), Some("设置"));
    assert_eq!(button_tooltip(TB_LOGO), None, "logo 无 tooltip");
}

#[test]
fn mod_button_tooltip_mapping() {
    assert_eq!(button_tooltip(TB_MODE), Some("中/英"));
    assert_eq!(button_tooltip(TB_WIDTH), Some("全半角"));
    assert_eq!(button_tooltip(TB_PUNCT), Some("中英文标点"));
    assert_eq!(button_tooltip(TB_SCRIPT), Some("简体/繁体"));
    assert_eq!(button_tooltip(TB_GEAR), Some("设置"));
    assert_eq!(button_tooltip(TB_LOGO), None, "logo 无 tooltip");
}

#[test]
fn toolbar_toggle_value_flips() {
    for cur in 0..=1u8 {
        assert_eq!(1 - cur, cur ^ 1);
        assert_eq!(toggle_value(cur), 1 - cur);
    }
}

#[test]
fn mod_toggle_value_flips() {
    for cur in 0..=1u8 {
        assert_eq!(1 - cur, cur ^ 1);
        assert_eq!(toggle_value(toggle_value(cur)), cur);
    }
}

fn shown_pref() -> ToolbarPref {
    ToolbarPref { visible: true, pos: None }
}

fn english() -> ImeState {
    ImeState { mode: InitialMode::English, ..ImeState::default() }
}

fn gained(pid: u32, tid: u32) -> BarEvent {
    BarEvent::FocusGained { pid, tid, state: ImeState::default() }
}

fn apply(w: &mut ToolbarWindow, ev: BarEvent) -> Vec<BarAction> {
    let mut out = Vec::new();
    w.apply_event(ev, false, true, &mut out);
    out
}

#[test]
fn preferences_are_cleaned() {
    assert!(default_visible());
    assert_eq!(load_pref(None), ToolbarPref { visible: true, pos: None });
    let good = ToolbarPref { visible: false, pos: Some((-10000, 40000)) };
    assert_eq!(load_pref(Some(good)), good);
    for pos in [(33000, 100), (32766, 32768), (0, 0)] {
        let pref = ToolbarPref { visible: true, pos: Some(pos) };
        assert_eq!(load_pref(Some(pref)), pref);
    }
    let bad = ToolbarPref { visible: false, pos: Some((32767, 32767)) };
    assert_eq!(load_pref(Some(bad)), ToolbarPref { visible: false, pos: None });
    assert_eq!(load_pref(Some(load_pref(Some(bad)))), load_pref(Some(bad)));
    for pos in [(0, 32767), (32767, 0), (-10001, 0), (0, -10001), (40001, 0), (0, 40001)] {
        let pref = ToolbarPref { visible: true, pos: Some(pos) };
        assert_eq!(load_pref(Some(pref)).pos, None, "{pos:?}");
    }
}

#[test]
fn toolbar_follows_the_focus() {
    let mut w = ToolbarWindow::new(shown_pref());
    assert_eq!(
        apply(&mut w, gained(1, 2)),
        vec![
            BarAction::PetReset(ImeState::default()),
            BarAction::KillPetTimer,
            BarAction::Show,
            BarAction::SyncPetTimer
        ]
    );
    assert!(w.shown);
    assert_eq!(w.board.focused(), Some((1, 2)));
    assert!(apply(&mut w, BarEvent::FocusLost { pid: 9, tid: 9 }).is_empty());
    assert!(w.shown, "losing the focus elsewhere changes nothing");
    assert_eq!(
        apply(&mut w, BarEvent::FocusLost { pid: 1, tid: 2 }),
        vec![BarAction::TipHide, BarAction::KillPetTimer, BarAction::Hide]
    );
    assert!(!w.shown);
    assert_eq!(w.board.focused(), None);
}

#[test]
fn settings_window_keeps_the_toolbar() {
    let mut w = ToolbarWindow::new(shown_pref());
    apply(&mut w, gained(1, 2));
    let mut out = Vec::new();
    w.apply_event(BarEvent::FocusLost { pid: 1, tid: 2 }, true, true, &mut out);
    assert!(out.is_empty());
    assert!(w.shown);
}

#[test]
fn toggling_stores_and_shows() {
    let mut w = ToolbarWindow::new(ToolbarPref { visible: true, pos: Some((5, 6)) });
    apply(&mut w, gained(1, 2));
    let off = apply(&mut w, BarEvent::ToggleVisible);
    assert_eq!(off[0], BarAction::SavePref(ToolbarPref { visible: false, pos: Some((5, 6)) }));
    assert_eq!(off[off.len() - 1], BarAction::Hide);
    assert!(!w.shown);
    let on = apply(&mut w, BarEvent::ToggleVisible);
    assert_eq!(
        on,
        vec![
            BarAction::SavePref(ToolbarPref { visible: true, pos: Some((5, 6)) }),
            BarAction::Show,
            BarAction::SyncPetTimer
        ]
    );
    assert!(w.shown);
}

#[test]
fn hidden_by_preference_stays_hidden() {
    let mut w = ToolbarWindow::new(ToolbarPref { visible: false, pos: None });
    let out = apply(&mut w, gained(1, 2));
    assert!(!w.shown);
    assert!(!out.contains(&BarAction::Show));
}

#[test]
fn switches_of_the_bound_instance_are_drawn() {
    let mut w = ToolbarWindow::new(shown_pref());
    apply(&mut w, gained(1, 2));
    let out = apply(&mut w, BarEvent::StateChanged { pid: 1, tid: 2, state: english() });
    assert_eq!(
        out,
        vec![BarAction::PetState(english()), BarAction::Repaint, BarAction::SyncPetTimer]
    );
    assert_eq!(w.board.focused_state(), english());
    let out = apply(&mut w, BarEvent::StateChanged { pid: 7, tid: 7, state: english() });
    assert_eq!(out, vec![BarAction::SyncPetTimer], "an unknown instance is not added");
    assert!(w.board.instance(7, 7).is_none());
}

#[test]
fn hotkey_and_typing_events() {
    let mut w = ToolbarWindow::new(shown_pref());
    assert_eq!(apply(&mut w, BarEvent::HotkeysChanged), vec![BarAction::ReregisterHotkeys]);
    assert_eq!(apply(&mut w, BarEvent::CaptureMode(true)), vec![BarAction::UnregisterHotkeys]);
    assert_eq!(apply(&mut w, BarEvent::CaptureMode(false)), vec![BarAction::ReregisterHotkeys]);
    let typing = BarEvent::TypingState { pid: 1, tid: 2, active: true };
    assert!(apply(&mut w, typing).is_empty());
    apply(&mut w, gained(1, 2));
    assert_eq!(
        apply(&mut w, typing),
        vec![BarAction::PetTyping(true), BarAction::SyncPetTimer, BarAction::Repaint]
    );
}

#[test]
fn queued_events_are_taken_in_order() {
    let mut w = ToolbarWindow::new(shown_pref());
    let mut queue: VecDeque<BarEvent> = VecDeque::new();
    queue.push_back(gained(1, 2));
    queue.push_back(gained(3, 4));
    queue.push_back(BarEvent::FocusLost { pid: 1, tid: 2 });
    let mut out = Vec::new();
    w.drain_requests(&mut queue, false, true, &mut out);
    assert!(queue.is_empty());
    assert_eq!(w.board.focused(), Some((3, 4)), "the loss of the first comes after the second");
    assert!(w.shown);
}

fn world() -> World {
    World {
        window: Some(Rect { left: 100, top: 100, right: 400, bottom: 160 }),
        cursor: (120, 130),
        work: Some(Rect { left: 0, top: 0, right: 1920, bottom: 1040 }),
        hit: None,
        pet_alpha: 0,
        settings_open: false,
        ready: true,
        theme_changed: false,
    }
}

fn frame() -> BarFrame {
    BarFrame {
        pet: Some(PetBox { x: 250, y: 0, w: 40, h: 60 }),
        toolbar_w: 240,
        toolbar_h: 40,
        overhang: 20,
        radius: None,
    }
}

fn send(w: &mut ToolbarWindow, msg: BarMessage, wp: usize, lp: isize, world: &World)
    -> (Option<isize>, Vec<BarAction>) {
    let mut queue: VecDeque<BarEvent> = VecDeque::new();
    let mut out = Vec::new();
    let reply = w.bar_wnd_proc(&mut queue, msg, wp, lp, world, &mut out);
    (reply, out)
}

#[test]
fn hotkeys_reach_the_bound_instance() {
    let mut w = ToolbarWindow::new(shown_pref());
    let id = hotkey_id(GlobalAction::ToggleMode, true) as usize;
    assert_eq!(send(&mut w, BarMessage::Hotkey, id, 0, &world()), (Some(0), vec![]));
    apply(&mut w, gained(1, 2));
    assert_eq!(
        send(&mut w, BarMessage::Hotkey, id, 0, &world()).1,
        vec![BarAction::Control { pid: 1, tid: 2, cmd: CtlCmd::SetMode(true) }]
    );
    let id = hotkey_id(GlobalAction::ToggleToolbar, false) as usize;
    assert_eq!(
        send(&mut w, BarMessage::Hotkey, id, 0, &world()).1,
        vec![BarAction::ToggleToolbar]
    );
    assert!(send(&mut w, BarMessage::Hotkey, 12, 0, &world()).1.is_empty());
}

#[test]
fn clicks_turn_switches_over() {
    let mut w = ToolbarWindow::new(shown_pref());
    let mut out = Vec::new();
    w.on_click(TB_WIDTH, &mut out);
    assert!(out.is_empty(), "nothing is bound");
    apply(&mut w, gained(1, 2));
    w.on_click(TB_WIDTH, &mut out);
    w.on_click(TB_GEAR, &mut out);
    w.on_click(TB_LOGO, &mut out);
    assert_eq!(
        out,
        vec![
            BarAction::Control { pid: 1, tid: 2, cmd: CtlCmd::SetWidth(true) },
            BarAction::OpenSettings
        ]
    );
}

#[test]
fn plain_messages_are_answered() {
    let mut w = ToolbarWindow::new(shown_pref());
    assert_eq!(send(&mut w, BarMessage::EraseBackground, 0, 0, &world()).0, Some(1));
    assert_eq!(send(&mut w, BarMessage::MouseActivate, 0, 0, &world()).0, Some(MA_NO_ACTIVATE));
    assert_eq!(send(&mut w, BarMessage::Other, 0, 0, &world()).0, None);
    assert_eq!(send(&mut w, BarMessage::Paint, 0, 0, &world()).1, vec![BarAction::Validate]);
    assert!(send(&mut w, BarMessage::Timer, 1, 0, &world()).1.is_empty());
    assert_eq!(send(&mut w, BarMessage::Timer, PET_TIMER_ID, 0, &world()).0, Some(0));
    assert_eq!(bar_message(0x0201), BarMessage::ButtonDown);
    assert_eq!(bar_message(0x0202), BarMessage::ButtonUp);
    assert_eq!(bar_message(0xFFFF), BarMessage::Other);
}

#[test]
fn pet_is_hit_where_it_is_opaque() {
    let mut w = ToolbarWindow::new(shown_pref());
    w.frame = frame();
    assert!(w.pet_pixel_hit(260, 10, 0x21));
    assert!(!w.pet_pixel_hit(260, 10, 0x20));
    assert!(!w.pet_pixel_hit(249, 10, 0xFF));
    let at = |x: i32, y: i32| ((y as isize) << 16) | x as isize;
    let far = World { pet_alpha: 0, ..world() };
    assert_eq!(send(&mut w, BarMessage::HitTest, 0, at(120, 150), &far).0, Some(HT_CLIENT));
    assert_eq!(send(&mut w, BarMessage::HitTest, 0, at(360, 110), &far).0, Some(HT_TRANSPARENT));
}

#[test]
fn dragging_keeps_the_offset() {
    let mut w = ToolbarWindow::new(shown_pref());
    apply(&mut w, gained(1, 2));
    let mut out = Vec::new();
    w.start_drag(&world(), &mut out);
    assert_eq!(out, vec![BarAction::CaptureMouse]);
    assert_eq!(w.drag, Some((20, 30)));
    out.clear();
    let moved = World { cursor: (520, 430), ..world() };
    w.drag_move(&moved, &mut out);
    assert_eq!(out, vec![BarAction::MoveTo(500, 400)]);
    out.clear();
    let off = World { cursor: (5000, 430), ..world() };
    w.drag_move(&off, &mut out);
    assert_eq!(out, vec![BarAction::MoveTo(1620, 400)], "kept on the screen");
}

#[test]
fn instance_answers_are_shown() {
    let mut w = ToolbarWindow::new(shown_pref());
    apply(&mut w, gained(1, 2));
    let mut out = Vec::new();
    w.ctl_reply(1, 2, Some(english()), &mut out);
    assert_eq!(w.board.focused_state(), english());
    assert!(out.contains(&BarAction::Repaint));
    let before = w.board.focused_state();
    w.ctl_reply(1, 2, None, &mut out);
    assert_eq!(w.board.focused_state(), before);
}

#[test]
fn host_queues_what_comes() {
    let mut h = host::ToolbarHost::spawn(shown_pref());
    assert!(h.visible());
    assert!(h.handle_request(&Request::ToggleToolbar));
    assert!(!h.handle_request(&Request::Ping));
    h.handle_signal(&ToolbarSignal::FocusGained { pid: 1, tid: 2, state: english() });
    h.handle_signal(&ToolbarSignal::FocusLost { pid: 1, tid: 2 });
    h.hotkeys_changed();
    let queued: Vec<BarEvent> = h.pending.iter().copied().collect();
    assert_eq!(
        queued,
        vec![
            BarEvent::ToggleVisible,
            BarEvent::FocusGained { pid: 1, tid: 2, state: english() },
            BarEvent::FocusLost { pid: 1, tid: 2 },
            BarEvent::HotkeysChanged
        ]
    );
    assert_eq!(h.wake(), None, "no window yet");
    assert_eq!(h.shutdown(), None);
    h.hwnd = 7;
    h.thread_id = 8;
    assert_eq!(h.wake(), Some(7));
    assert_eq!(h.shutdown(), Some(8));
}

#[test]
fn polling_toolbar_follows_the_front() {
    let mut h = polled::ToolbarHost::spawn(shown_pref());
    let state = ImeState {
        mode: InitialMode::English,
        width: WidthMode::Full,
        script: ScriptMode::Traditional,
        punct: PunctMode::English,
    };
    assert_eq!(h.handle_request(&Request::Register { pid: 1, tid: 2, state }), (true, None));
    assert_eq!(h.handle_request(&Request::Ping), (false, None));
    let mut out = Vec::new();
    h.poll_foreground((1, 2), true, &mut out);
    assert!(!h.shown, "it is not active yet");
    h.handle_request(&Request::Active { pid: 1, tid: 2, active: true });
    h.poll_foreground((1, 2), true, &mut out);
    assert!(h.shown);
    assert_eq!(
        h.on_click(TB_MODE),
        Click::SetState { pid: 1, tid: 2, field: Field::Mode, value: 0 }
    );
    assert_eq!(h.on_click(TB_GEAR), Click::OpenSettings);
    assert_eq!(h.on_click(TB_LOGO), Click::Nothing);
    h.poll_foreground((3, 4), true, &mut out);
    assert!(!h.shown);
    assert_eq!(
        h.handle_request(&Request::ToggleToolbar),
        (true, Some(ToolbarPref { visible: false, pos: None }))
    );
    for f in [Field::Mode, Field::Width, Field::Script, Field::Punct] {
        assert_eq!(field(state, f), 1);
        assert_eq!(field(ImeState::default(), f), 0);
    }
}

#[test]
fn desktop_is_never_full_screen() {
    assert!(is_desktop(5, 5, "X"));
    assert!(is_desktop(5, 6, "Progman"));
    assert!(is_desktop(5, 6, "WorkerW"));
    assert!(!is_desktop(5, 6, "Notepad"));
    let whole = Rect { left: 0, top: 0, right: 1920, bottom: 1080 };
    let game = Foreground {
        hwnd: 5,
        shell: 6,
        class: "Game".into(),
        window: Some(whole),
        monitor: Some(whole),
    };
    assert_eq!(probe(Some(&game)), Some(true));
    let desk = Foreground { class: "Progman".into(), ..game };
    assert_eq!(probe(Some(&desk)), Some(false));
}

#[test]
fn note_stands_below_the_pointer() {
    let work = Some(Rect { left: 0, top: 0, right: 1920, bottom: 1040 });
    assert_eq!(show_near(true, Some((60, 20)), Some((100, 200)), work), Some((108, 212)));
    assert_eq!(show_near(true, Some((60, 20)), Some((1910, 1035)), work), Some((1860, 1020)));
    assert_eq!(show_near(false, Some((60, 20)), Some((100, 200)), work), None);
    assert_eq!(show_near(true, Some((0, 20)), Some((100, 200)), work), None);
    assert_eq!(show_near(true, Some((60, 20)), None, work), None);
    assert_eq!(tip_wnd_proc(0x0084), Some(-1));
    assert_eq!(tip_wnd_proc(0x0021), Some(3));
    assert_eq!(tip_wnd_proc(0x0014), Some(1));
    assert_eq!(tip_wnd_proc(0x000F), Some(0));
    assert_eq!(tip_wnd_proc(0x0001), None);
}

#[test]
fn drawings_place_the_parts() {
    let mut w = ToolbarWindow::new(shown_pref());
    let d = Drawing {
        w: 300,
        h: 60,
        pet: Some(PetBox { x: 250, y: 0, w: 40, h: 60 }),
        pet_zone: 60,
        overhang: 20,
        radius: Some(8),
    };
    assert_eq!(w.frame(&Drawing { h: 0, ..d }), None);
    assert_eq!(w.frame.toolbar_w, 0, "an empty drawing is not taken over");
    assert_eq!(w.frame(&d), Some((300, 60)));
    assert_eq!((w.frame.toolbar_w, w.frame.toolbar_h), (240, 40));
    assert_eq!((w.frame.overhang, w.frame.radius), (20, Some(8)));
    assert_eq!(w.frame.pet, d.pet);
}

#[test]
fn places_are_looked_up_and_kept() {
    let mut w = ToolbarWindow::new(shown_pref());
    let area = Some(Rect { left: 0, top: 0, right: 1920, bottom: 1040 });
    assert_eq!(w.work_point(BarMessage::MouseMove, (500, 500), world().window), None);
    let mut out = Vec::new();
    w.start_drag(&world(), &mut out);
    assert_eq!(w.work_point(BarMessage::MouseMove, (500, 500), None), Some((480, 470)));
    assert_eq!(w.work_point(BarMessage::ButtonUp, (0, 0), world().window), Some((100, 100)));
    assert_eq!(w.work_point(BarMessage::ButtonUp, (0, 0), None), None);
    w.board.set_pos(Some((5000, -20)));
    assert_eq!(w.show_position(300, 60, area), (1620, 0));
    w.board.set_pos(None);
    assert_eq!(w.show_position(300, 60, area), default_pos(300, 60, area));
}

#[test]
fn polling_toolbar_takes_over_the_theme_first() {
    let mut h = polled::ToolbarHost::spawn(shown_pref());
    h.handle_request(&Request::Register { pid: 1, tid: 2, state: ImeState::default() });
    h.handle_request(&Request::Active { pid: 1, tid: 2, active: true });
    let mut out = Vec::new();
    h.reconcile((1, 2), true, true, &mut out);
    assert_eq!(out, vec![BarAction::ApplyTheme, BarAction::Show, BarAction::Repaint]);
    h.hover = Some(TB_MODE);
    h.pressed = Some(TB_MODE);
    out.clear();
    h.reconcile((1, 2), false, true, &mut out);
    assert_eq!(out, vec![BarAction::Repaint]);
    assert_eq!((h.hover, h.pressed), (Some(TB_MODE), Some(TB_MODE)));
    h.drag = Some((3, 4));
    out.clear();
    h.reconcile((1, 2), true, true, &mut out);
    assert_eq!(out, vec![BarAction::ApplyTheme], "a dragged window is not drawn anew");
    out.clear();
    h.reconcile((5, 6), false, true, &mut out);
    assert_eq!(out, vec![BarAction::TipHide, BarAction::Hide]);
    assert_eq!((h.hover, h.pressed), (None, None));
}

#[test]
fn polling_toolbar_takes_over_the_answer() {
    let mut h = polled::ToolbarHost::spawn(shown_pref());
    h.handle_request(&Request::Register { pid: 1, tid: 2, state: ImeState::default() });
    h.handle_request(&Request::Active { pid: 1, tid: 2, active: true });
    let mut out = Vec::new();
    let applied = CtlResult::Applied { state: english() };
    h.ctl_reply(1, 2, Some(&applied), &mut out);
    assert!(out.is_empty(), "a window that does not show is not drawn");
    assert_eq!(h.board.state_of(1, 2), english());
    h.poll_foreground((1, 2), true, &mut out);
    out.clear();
    let back = CtlResult::Applied { state: ImeState::default() };
    h.ctl_reply(1, 2, Some(&back), &mut out);
    assert_eq!(out, vec![BarAction::Repaint]);
    assert_eq!(h.board.state_of(1, 2), ImeState::default());
    h.ctl_reply(1, 2, Some(&CtlResult::Failed { msg: "x".into() }), &mut out);
    h.ctl_reply(1, 2, None, &mut out);
    assert_eq!(out.len(), 3, "drawn either way");
    assert_eq!(h.board.state_of(1, 2), ImeState::default());
    h.ctl_reply(8, 9, Some(&applied), &mut out);
    assert!(h.board.instance(8, 9).is_none(), "no instance comes of an answer");
    assert!(h.board.instance(1, 2).unwrap().active && h.shown);
}
