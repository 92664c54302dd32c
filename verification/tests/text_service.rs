use iuv_windows::ime::{
    Combo, ImeState, InitialMode, Key, Keymap, PunctMode, ScriptMode, SessionAction, TwoSlot,
    WidthMode,
};
use iuv_windows::key_routing::{KeyAction, KeyFacts};
use iuv_windows::session_bridge::{CaretRect, CompositionState, SessionEnd, UiCall};
use iuv_windows::text_service::{
    click_key, load_engine, on_activated, signal_focus_gained, ActivateFacts, ActivateStep,
    DeactivateAction, EffectFacts, FlushEnd, LoadStep, Module, StepResult, TextService,
};
use iuv_windows::wire::{CtlCmd, CtlResult, ToolbarSignal};

fn unset() -> TwoSlot {
    TwoSlot { primary: None, secondary: None }
}

fn keymap() -> Keymap {
    Keymap {
        page_prev: TwoSlot {
            primary: Some(Combo::plain(Key::PageUp)),
            secondary: Some(Combo::plain(Key::Char(','))),
        },
        page_next: unset(),
        candidate_prev: unset(),
        candidate_next: unset(),
        swap_left: TwoSlot { primary: Some(Combo::shifted(Key::Left)), secondary: None },
        swap_right: unset(),
        hide_candidate: unset(),
        toggle_mode: unset(),
        toggle_width: unset(),
        toggle_script: unset(),
        toggle_punct: unset(),
        open_settings: unset(),
        toggle_toolbar: unset(),
    }
}

fn service() -> TextService {
    TextService::new(ImeState::default())
}

fn key(vk: u16, code: u32, base: Option<Key>) -> KeyFacts {
    KeyFacts {
        vk,
        char_code: code,
        shift: false,
        caps: false,
        ctrl: false,
        alt: false,
        shifted: char::from_u32(code).unwrap(),
        opening: None,
        closing: None,
        base,
        engine: true,
        passthrough: false,
    }
}

fn letter_a() -> KeyFacts {
    key(0x41, 0x61, Some(Key::Char('a')))
}

fn quote() -> KeyFacts {
    KeyFacts {
        shift: true,
        shifted: '"',
        opening: Some("“".into()),
        closing: Some("”".into()),
        ..key(0xDE, 0x27, Some(Key::Char('\'')))
    }
}

#[test]
fn letters_begin_a_session() {
    let mut s = service();
    assert!(s.test_key_down(&keymap(), &letter_a()));
    assert!(!s.session, "asking changes nothing");
    let (action, register) = s.handle_key_down(&keymap(), &letter_a());
    assert_eq!(action, KeyAction::StartSession(Key::Char('a')));
    assert!(!register);
    assert!(s.session && s.composing);
    let (action, _) = s.handle_key_down(&keymap(), &letter_a());
    assert_eq!(action, KeyAction::SessionKey(Key::Char('a')));
}

#[test]
fn caps_lock_types_english() {
    let s = service();
    let caps = KeyFacts { caps: true, ..letter_a() };
    assert!(!s.test_key_down(&keymap(), &caps));
}

#[test]
fn shortcuts_come_first_inside_a_session() {
    let mut s = service();
    let page_up = key(0x21, 0, Some(Key::PageUp));
    assert_eq!(s.route_key(&keymap(), &page_up), KeyAction::Pass, "no session");
    s.session = true;
    assert_eq!(s.route_key(&keymap(), &page_up), KeyAction::Shortcut(SessionAction::PagePrev));
    let comma = key(0xBC, 0x2C, Some(Key::Char(',')));
    assert_eq!(s.route_key(&keymap(), &comma), KeyAction::Shortcut(SessionAction::PagePrev));
    let swap = KeyFacts { shift: true, ..key(0x25, 0, Some(Key::Left)) };
    assert_eq!(s.route_key(&keymap(), &swap), KeyAction::Shortcut(SessionAction::SwapLeft));
    let page_down = key(0x22, 0, Some(Key::PageDown));
    assert_eq!(s.route_key(&keymap(), &page_down), KeyAction::Pass, "bound to nothing");
    let digit = key(0x32, 0x32, Some(Key::Digit(2)));
    assert_eq!(s.route_key(&keymap(), &digit), KeyAction::SessionKey(Key::Digit(2)));
}

#[test]
fn quotation_marks_alternate() {
    let mut s = service();
    assert!(s.test_key_down(&keymap(), &quote()));
    assert!(s.test_key_down(&keymap(), &quote()));
    let text = |s: &mut TextService| s.handle_key_down(&keymap(), &quote()).0;
    assert_eq!(text(&mut s), KeyAction::CommitText("“".into()), "asking twice costs nothing");
    assert_eq!(text(&mut s), KeyAction::CommitText("”".into()));
    assert_eq!(text(&mut s), KeyAction::CommitText("“".into()));
    s.handle_key_down(&keymap(), &letter_a());
    assert!(!s.punct_quote_open, "a session begins anew");
}

#[test]
fn other_punctuation_does_not_turn_quotes() {
    let mut s = service();
    let comma = KeyFacts {
        opening: Some("，".into()),
        closing: Some("，".into()),
        ..key(0xBC, 0x2C, None)
    };
    assert_eq!(s.handle_key_down(&keymap(), &comma).0, KeyAction::CommitText("，".into()));
    assert!(!s.punct_quote_open);
    s.runtime.punct = PunctMode::English;
    assert_eq!(s.handle_key_down(&keymap(), &comma).0, KeyAction::Pass);
}

#[test]
fn full_width_outside_a_session() {
    let mut s = service();
    s.runtime.width = WidthMode::Full;
    let digit = key(0x31, 0x31, None);
    assert_eq!(s.route_key(&keymap(), &digit), KeyAction::CommitText("１".into()));
    assert_eq!(s.route_key(&keymap(), &letter_a()), KeyAction::StartSession(Key::Char('a')));
    let ctrl = KeyFacts { ctrl: true, ..key(0x31, 0x31, None) };
    assert_eq!(s.route_key(&keymap(), &ctrl), KeyAction::Pass);
    s.english_mode = true;
    assert_eq!(s.route_key(&keymap(), &letter_a()), KeyAction::CommitText("ａ".into()));
    s.session = true;
    assert_eq!(s.route_key(&keymap(), &letter_a()), KeyAction::Pass);
}

#[test]
fn transparent_without_engine_or_by_list() {
    let mut s = service();
    s.daemon = true;
    let f = KeyFacts { engine: false, ..letter_a() };
    assert_eq!(s.handle_key_down(&keymap(), &f), (KeyAction::Pass, false));
    let f = KeyFacts { passthrough: true, ..letter_a() };
    assert_eq!(s.handle_key_down(&keymap(), &f), (KeyAction::Pass, true));
    assert_eq!(s.handle_key_down(&keymap(), &f), (KeyAction::Pass, false), "registered once");
    assert!(s.chinese_punct_pending(&letter_a()).is_none());
}

#[test]
fn closing_flushes_the_session() {
    let mut s = service();
    s.daemon = true;
    s.lang_bar = true;
    s.handle_key_down(&keymap(), &letter_a());
    assert_eq!(s.apply_openclose(true), None, "open already");
    let change = s.apply_openclose(false).unwrap();
    assert!(change.refresh_lang_bar && change.flush);
    assert_eq!(change.report.unwrap().mode, InitialMode::English);
    assert!(s.english_mode);
    assert_eq!(s.flush_session(Some("a")), FlushEnd::Commit("a".into()));
    assert!(!s.session && !s.composing);
    assert_eq!(s.flush_session(Some("a")), FlushEnd::Nothing);
    s.composing = true;
    assert_eq!(s.flush_session(Some("")), FlushEnd::Cancel);
    s.composing = true;
    assert_eq!(s.flush_session(None), FlushEnd::Cancel);
    let change = s.apply_openclose(true).unwrap();
    assert!(!change.flush);
    assert_eq!(s.runtime_snapshot().mode, InitialMode::Chinese);
}

#[test]
fn commands_set_switches() {
    let mut s = service();
    s.daemon = true;
    let (r, changed) = s.apply_ctl_cmd(CtlCmd::SetWidth(true), false);
    let state = ImeState { width: WidthMode::Full, ..ImeState::default() };
    assert_eq!(r, CtlResult::Applied { state });
    assert!(changed);
    s.apply_ctl_cmd(CtlCmd::SetScript(true), false);
    assert_eq!(s.runtime.script, ScriptMode::Traditional);
    s.apply_ctl_cmd(CtlCmd::SetPunct(true), false);
    assert_eq!(s.runtime.punct, PunctMode::English);
    s.compartment = Some(3);
    let (_, changed) = s.apply_ctl_cmd(CtlCmd::SetMode(true), true);
    assert!(!changed, "the switch of the system reports it");
    assert_eq!(s.runtime.mode, InitialMode::Chinese);
    let (_, changed) = s.apply_ctl_cmd(CtlCmd::SetMode(true), false);
    assert!(changed);
    assert_eq!(s.runtime.mode, InitialMode::English);
    assert_eq!(s.after_runtime_change(), (false, Some(s.runtime)));
    assert_eq!(s.on_change(true, None), Some(true));
    assert_eq!(s.on_change(true, Some(false)), Some(false));
    assert_eq!(s.on_change(false, Some(false)), None);
}

fn facts() -> ActivateFacts {
    ActivateFacts { default_open: false, engine_ready: true }
}

#[test]
fn activation_runs_to_the_end() {
    let mut s = service();
    let mut step = s.begin_activate(42);
    let mut seen = vec![step];
    while step != ActivateStep::Done && step != ActivateStep::Failed {
        let result = match step {
            ActivateStep::ReadOpenClose => StepResult::Value(None),
            ActivateStep::ApplyOpenClose => StepResult::Value(Some(false)),
            _ => StepResult::Good(seen.len() as u32),
        };
        step = s.activate(step, result, &facts()).0;
        seen.push(step);
    }
    assert_eq!(step, ActivateStep::Done);
    assert!(seen.contains(&ActivateStep::WriteOpenClose(false)));
    assert!(s.english_mode && s.daemon && s.lang_bar && s.ctl && s.remote_registered);
    assert_eq!(s.client_id, 42);
    let actions = s.deactivate();
    assert_eq!(actions[0], DeactivateAction::HideCandidates);
    assert!(actions.contains(&DeactivateAction::UnadviseKeys(42)));
    assert_eq!(actions.len(), 10);
    assert!(!s.lang_bar && s.compartment.is_none() && s.profiles.is_none());
    assert!(s.english_mode, "the mode is kept");
    assert_eq!(s.deactivate().len(), 5, "what was taken back is not taken back again");
}

#[test]
fn activation_goes_on_without_the_rest() {
    let mut s = service();
    let mut step = s.begin_activate(1);
    while step != ActivateStep::Done && step != ActivateStep::Failed {
        let result = match step {
            ActivateStep::AdviseKeys => StepResult::Good(1),
            ActivateStep::AdviseThread => StepResult::Good(2),
            _ => StepResult::Bad,
        };
        step = s.activate(step, result, &facts()).0;
    }
    assert_eq!(step, ActivateStep::Done);
    assert!(!s.lang_bar && !s.ctl && s.daemon);
    assert_eq!(s.activate(ActivateStep::AdviseKeys, StepResult::Bad, &facts()).0, ActivateStep::Failed);
    let kept = s.activate(ActivateStep::ReadOpenClose, StepResult::Value(Some(true)), &facts()).0;
    assert_eq!(kept, ActivateStep::ApplyOpenClose, "a switch that is set is not written");
}

#[test]
fn effects_end_the_session() {
    let mut s = service();
    s.handle_key_down(&keymap(), &letter_a());
    let spot = CaretRect { x: 3, y: 4, w: 1, h: 20 };
    let f = EffectFacts {
        comp: CompositionState::Live,
        measured: Some(spot),
        empty: false,
        visible: false,
        suppress: false,
    };
    let r = s.dispatch(&None, &f);
    assert_eq!(r.ui, Some(UiCall::Show));
    assert_eq!(s.caret, spot);
    assert!(s.session);
    let r = s.dispatch(&Some(SessionEnd::Commit("啊".into())), &f);
    assert!(r.ended);
    assert!(!s.session && !s.composing);
}

#[test]
fn focus_is_reported() {
    let mut s = service();
    assert_eq!(s.on_thread_focus(true, 1, 2), None);
    assert_eq!(signal_focus_gained(&s, false), None);
    s.daemon = true;
    assert_eq!(
        s.on_thread_focus(true, 1, 2),
        Some(ToolbarSignal::FocusGained { pid: 1, tid: 2, state: s.runtime })
    );
    assert_eq!(s.on_thread_focus(false, 1, 2), Some(ToolbarSignal::FocusLost { pid: 1, tid: 2 }));
    assert_eq!(signal_focus_gained(&s, true), None);
    assert_eq!(signal_focus_gained(&s, false), Some(s.runtime));
    assert!(on_activated(&s, true, false));
    assert!(!on_activated(&s, true, true));
    assert!(!on_activated(&s, false, false));
}

#[test]
fn clicks_are_digits() {
    assert_eq!(click_key(0), Some(Key::Digit(1)));
    assert_eq!(click_key(8), Some(Key::Digit(9)));
    assert_eq!(click_key(9), None);
}

#[test]
fn engine_is_loaded_once() {
    let mut m = Module { instances: 0, load_started: false, engine: None };
    assert!(m.can_unload());
    assert_eq!(m.engine(), (false, true));
    assert_eq!(m.engine(), (false, false));
    assert!(m.engine_loading());
    assert!(!m.can_unload());
    assert!(!m.start_engine_load());
    m.engine_loaded(true);
    m.engine_loaded(false);
    assert_eq!(m.engine(), (true, false));
    m.instance_made();
    assert_eq!(m.instance_count(), 1);
    assert!(!m.can_unload());
    m.instance_gone();
    assert!(m.can_unload());
}

#[test]
fn only_the_dictionary_is_indispensable() {
    assert_eq!(load_engine(LoadStep::LoadDict, false, false), LoadStep::Transparent);
    assert_eq!(load_engine(LoadStep::LoadDict, true, true), LoadStep::MountCore);
    assert_eq!(load_engine(LoadStep::LoadDict, true, false), LoadStep::ConfigureLog);
    assert_eq!(load_engine(LoadStep::ConfigureLog, true, false), LoadStep::AttachUserDict);
    assert_eq!(load_engine(LoadStep::AttachUserDict, false, false), LoadStep::LoadScript);
    assert_eq!(load_engine(LoadStep::LoadScript, false, false), LoadStep::AttachScript(false));
    assert_eq!(load_engine(LoadStep::AttachScript(false), true, false), LoadStep::Ready);
}

#[test]
fn quotation_mark_on_a_digit_key() {
    let mut s = service();
    let mark = KeyFacts {
        opening: Some("‘".into()),
        closing: Some("’".into()),
        ..key(0x34, 0x27, Some(Key::Char('\'')))
    };
    assert!(s.test_key_down(&keymap(), &mark));
    assert!(s.test_key_down(&keymap(), &mark));
    assert!(!s.punct_quote_open, "asking changes nothing");
    let text = |s: &mut TextService| s.handle_key_down(&keymap(), &mark).0;
    assert_eq!(text(&mut s), KeyAction::CommitText("‘".into()));
    assert!(s.punct_quote_open);
    assert_eq!(text(&mut s), KeyAction::CommitText("’".into()));
    s.session = true;
    let bare = KeyFacts { base: None, ..mark };
    assert_eq!(s.route_key(&keymap(), &bare), KeyAction::Pass, "no digit, and no shortcut");
}
