use iuv_windows::candwin::{
    cand_message, placing_area, size_of_label, CandMessage, CandwinCandidateWindow, UiSnapshot,
    WindowCall, HTCLIENT, HTTRANSPARENT, MA_NOACTIVATE,
};
use iuv_windows::composition::{Composition, EditResult, EditRun, EditStep};
use iuv_windows::ctl::{
    dispatch_ctl_cmd, AcceptStep, CtlEndpoint, CtlMessage, WM_APP_TOOLBAR_CMD,
};
use iuv_windows::geometry::Rect;
use iuv_windows::ime::{ImeState, Orientation};
use iuv_windows::session_bridge::CaretRect;
use iuv_windows::ui_element::{CandidateElement, CandidateElementHost, ElementCall};
use iuv_windows::wire::{CtlCmd, CtlResult};

fn snap(reading: &str, candidates: &[&str]) -> UiSnapshot {
    UiSnapshot {
        reading: reading.into(),
        candidates: candidates.iter().map(|c| c.to_string()).collect(),
        selected: 0,
        page: 0,
        page_count: 1,
        page_size: 5,
        all_candidates: candidates.iter().map(|c| c.to_string()).collect(),
        orientation: Orientation::Vertical,
    }
}

fn caret() -> CaretRect {
    CaretRect { x: 10, y: 20, w: 1, h: 16 }
}

#[test]
fn candidate_label_rules() {
    let mut w = CandwinCandidateWindow::new();
    w.snap = snap("i'n'pu't", &[]);
    assert_eq!(w.candidate_label(0, "input"), "input", "原文兜底不编号");
    w.snap.reading = "ni'hao".into();
    assert_eq!(w.candidate_label(0, "你好"), "1.你好", "正常候选编号");
}

#[test]
fn rows_and_pages_are_labelled() {
    let mut w = CandwinCandidateWindow::new();
    w.snap = snap("ni'hao", &["你好", "nihao", "拟好"]);
    assert_eq!(w.row_labels(), vec!["1.你好", "nihao", "3.拟好"]);
    assert_eq!(w.page_label(), None);
    w.snap.page = 9;
    w.snap.page_count = 12;
    assert_eq!(w.page_label(), Some("10/12".to_string()));
    let labels = w.row_labels();
    let sizes = vec![(40, 20), (50, 20), (41, 20)];
    assert_eq!(size_of_label(&labels, &sizes, "nihao"), (50, 20));
    assert_eq!(size_of_label(&labels, &sizes, "x"), (0, 0));
}

#[test]
fn window_shows_updates_and_hides() {
    let mut w = CandwinCandidateWindow::new();
    assert_eq!(w.show(&snap("", &[]), caret(), true), WindowCall::Nothing, "nothing to show");
    assert_eq!(w.show(&snap("a", &["啊"]), caret(), false), WindowCall::Nothing);
    assert!(!w.is_visible(), "the window could not be made");
    assert_eq!(w.show(&snap("a", &["啊"]), caret(), true), WindowCall::ShowAt(caret()));
    assert!(w.is_visible());
    assert_eq!(w.update(&snap("an", &["安"])), WindowCall::Redraw);
    assert_eq!(w.snap.candidates, vec!["安".to_string()]);
    assert_eq!(w.move_to(caret()), WindowCall::MoveTo(caret()));
    assert_eq!(w.repaint(), WindowCall::Redraw);
    assert_eq!(w.set_suppressed(true), WindowCall::Hide);
    assert!(!w.is_visible());
    assert_eq!(w.show(&snap("a", &["啊"]), caret(), true), WindowCall::Nothing);
    assert_eq!(w.update(&snap("b", &["不"])), WindowCall::Nothing);
    assert_eq!(w.snap.candidates, vec!["安".to_string()], "a silent window keeps what it has");
    assert_eq!(w.set_suppressed(false), WindowCall::Nothing);
    assert_eq!(w.conceal(), WindowCall::Hide);
    assert_eq!(w.move_to(caret()), WindowCall::Nothing);
}

#[test]
fn frames_set_the_rows() {
    let mut w = CandwinCandidateWindow::new();
    let row = Rect { left: 0, top: 0, right: 50, bottom: 20 };
    assert_eq!(w.frame(Some((60, 30)), vec![row]), None, "nothing to show");
    w.snap = snap("a", &["啊"]);
    assert_eq!(w.frame(Some((0, 30)), vec![row]), None);
    assert!(w.rows.is_empty());
    assert_eq!(w.frame(Some((60, 30)), vec![row]), Some((60, 30)));
    assert_eq!(w.rows.len(), 1);
}

#[test]
fn pointer_marks_and_chooses() {
    let mut w = CandwinCandidateWindow::new();
    w.snap = snap("a", &["啊", "阿"]);
    let r = w.wnd_proc(CandMessage::MouseMove, Some(1));
    assert_eq!(r.hover, Some(1));
    assert_eq!(w.snap.selected, 1);
    assert_eq!(w.wnd_proc(CandMessage::MouseMove, Some(1)).hover, None);
    assert_eq!(w.wnd_proc(CandMessage::MouseMove, Some(2)).hover, None);
    assert_eq!(w.wnd_proc(CandMessage::LeftDown, Some(0)).click, Some(0));
    assert_eq!(w.wnd_proc(CandMessage::LeftDown, Some(2)).click, None);
    assert_eq!(w.wnd_proc(CandMessage::MouseActivate, None).reply, Some(MA_NOACTIVATE));
    assert_eq!(w.wnd_proc(CandMessage::Other, None).reply, None);
    let place = Some(Rect { left: 100, top: 100, right: 300, bottom: 200 });
    let corner = cand_message(0x0084, (101 << 16) | 101, place, Some(8));
    assert_eq!(w.wnd_proc(corner, None).reply, Some(HTTRANSPARENT));
    let middle = cand_message(0x0084, (150 << 16) | 200, place, Some(8));
    assert_eq!(w.wnd_proc(middle, None).reply, Some(HTCLIENT));
    let lost = cand_message(0x0084, 0, None, Some(8));
    assert_eq!(w.wnd_proc(lost, None).reply, Some(HTCLIENT));
}

#[test]
fn work_areas_fall_back() {
    let a = Rect { left: 1, top: 2, right: 3, bottom: 4 };
    let b = Rect { left: 5, top: 6, right: 7, bottom: 8 };
    assert_eq!(placing_area(Some(a), Some(b)), a);
    assert_eq!(placing_area(None, Some(b)), b);
    assert_eq!(placing_area(None, None).right, 32767);
}

fn run_all(c: &mut Composition, run: &mut EditRun, extent: EditResult) {
    while run.step != EditStep::Done && run.step != EditStep::Failed {
        let r = if run.step == EditStep::GetTextExt { extent } else { EditResult::Good };
        c.do_edit_session(run, r);
    }
}

fn seen() -> EditResult {
    EditResult::Extent {
        rect: Rect { left: 10, top: 20, right: 12, bottom: 36 },
        clipped: false,
    }
}

#[test]
fn text_is_shown_and_measured() {
    let mut c = Composition::new();
    let mut run = c.set_text();
    assert_eq!(run.step, EditStep::GetSelection);
    run_all(&mut c, &mut run, seen());
    assert_eq!(run.step, EditStep::Done);
    assert_eq!(run.caret, Some(CaretRect { x: 10, y: 20, w: 2, h: 16 }));
    assert!(c.started);
    assert_eq!(c.set_text().step, EditStep::GetRange, "there is a composition now");
    let (mut run, text) = c.commit("你好");
    assert_eq!(text, "你好");
    run_all(&mut c, &mut run, seen());
    assert!(!c.started);
    let (run, text) = c.cancel();
    assert_eq!(text, "");
    assert_eq!(run.step, EditStep::Done, "nothing to end");
}

#[test]
fn failing_steps_end_the_session() {
    let mut c = Composition::new();
    let mut run = c.set_text();
    for _ in 0..4 {
        c.do_edit_session(&mut run, EditResult::Good);
    }
    assert_eq!(run.step, EditStep::SetText);
    c.do_edit_session(&mut run, EditResult::Bad);
    assert_eq!(run.step, EditStep::Failed);
    assert!(!c.started, "what was begun does not count");
}

#[test]
fn probing_stops_after_three_failures() {
    let mut c = Composition::new();
    for _ in 0..3 {
        let mut run = c.set_text();
        run_all(&mut c, &mut run, EditResult::Bad);
        assert_eq!(run.step, EditStep::Done, "the text is shown all the same");
        assert_eq!(run.caret, None);
    }
    assert_eq!(c.caret_probe_fails, 3);
    let mut run = c.set_text();
    while run.step != EditStep::Done {
        assert_ne!(run.step, EditStep::GetActiveView);
        c.do_edit_session(&mut run, EditResult::Good);
    }
    assert!(c.query_caret().is_none());
}

#[test]
fn success_forgets_failures() {
    let mut c = Composition::new();
    let mut run = c.set_text();
    run_all(&mut c, &mut run, EditResult::Bad);
    assert_eq!(c.caret_probe_fails, 1);
    let hidden = EditResult::Extent {
        rect: Rect { left: 1, top: 1, right: 2, bottom: 2 },
        clipped: true,
    };
    let mut run = c.set_text();
    run_all(&mut c, &mut run, hidden);
    assert_eq!((c.caret_probe_fails, run.caret), (1, None), "out of the view counts neither way");
    let mut run = c.query_caret().unwrap();
    run_all(&mut c, &mut run, seen());
    assert_eq!(c.caret_probe_fails, 0);
    assert!(run.caret.is_some());
    let zero = EditResult::Extent {
        rect: Rect { left: 0, top: 0, right: 0, bottom: 0 },
        clipped: false,
    };
    let mut run = c.query_caret().unwrap();
    run_all(&mut c, &mut run, zero);
    assert_eq!(run.caret, None, "a text that cannot be seen");
    c.on_composition_terminated();
    assert!(c.terminated() && !c.started);
    assert!(c.query_caret().is_none());
}

#[test]
fn list_for_programs_follows_the_candidates() {
    let mut h = CandidateElementHost::new();
    assert_eq!(h.sync(&snap("a", &["啊"])), ElementCall::Nothing, "the system takes none");
    h.attach(true);
    assert_eq!(h.sync(&snap("a", &[])), ElementCall::Nothing);
    assert_eq!(h.sync(&snap("a", &["啊"])), ElementCall::Begin);
    h.begun(None);
    assert_eq!(h.sync(&snap("a", &["啊"])), ElementCall::Begin, "it failed");
    h.begun(Some((7, false)));
    assert!(!h.bshow);
    assert_eq!(h.sync(&snap("an", &["安"])), ElementCall::Update(7));
    assert_eq!(h.sync(&snap("an", &[])), ElementCall::End(7));
    assert_eq!(h.end(), ElementCall::Nothing, "ended already");
    h.begun(Some((8, true)));
    assert_eq!(h.clear(), ElementCall::End(8));
    assert!(!h.mgr);
}

#[test]
fn list_counts_over_all_pages() {
    let names: Vec<String> = (0..12).map(|i| format!("c{i}")).collect();
    let mut s = snap("a", &["x"]);
    s.all_candidates = names;
    s.page = 2;
    s.page_size = 5;
    s.selected = 1;
    let mut e = CandidateElement::new();
    let shown = e.is_shown();
    e.show(!shown);
    assert_eq!(e.is_shown(), !shown);
    e.show(shown);
    assert_eq!(e.is_shown(), shown);
    assert_eq!(e.get_page_index(9), (1, vec![0]));
    assert_eq!(e.get_updated_flags(), 0x3E);
    e.update_data(&s);
    assert_eq!(e.get_count(), 12);
    assert_eq!(e.get_selection(), 11);
    assert_eq!(e.get_current_page(), 2);
    assert_eq!(e.get_page_index(9), (3, vec![0, 5, 10]));
    assert_eq!(e.get_page_index(2), (3, vec![0, 5]));
    assert_eq!(e.get_string(11), Some("c11".to_string()));
    assert_eq!(e.get_string(12), None);
    s.selected = 99;
    e.update_data(&s);
    assert_eq!(e.get_selection(), 14, "the mark stays on the page");
    s.page_size = 0;
    s.page = 3;
    e.update_data(&s);
    assert_eq!((e.page_size, e.get_selection(), e.page_count), (1, 3, 12));
}

#[test]
fn commands_wait_for_the_instance() {
    let mut e = CtlEndpoint::new();
    assert_eq!(e.wnd_proc(WM_APP_TOOLBAR_CMD), CtlMessage::Nothing);
    e.post(CtlCmd::SetMode(true));
    e.post(CtlCmd::SetWidth(true));
    assert_eq!(e.wnd_proc(0x0001), CtlMessage::System);
    assert_eq!(e.wnd_proc(WM_APP_TOOLBAR_CMD), CtlMessage::Apply(CtlCmd::SetWidth(true)));
    assert_eq!(e.wnd_proc(WM_APP_TOOLBAR_CMD), CtlMessage::Nothing);
    let state = ImeState::default();
    assert_eq!(
        dispatch_ctl_cmd(Some(CtlResult::Applied { state })),
        CtlResult::Applied { state }
    );
    assert_eq!(
        dispatch_ctl_cmd(None),
        CtlResult::Failed { msg: "TSF 线程应用命令超时".to_string() }
    );
}

#[test]
fn endpoint_serves_until_told_to_stop() {
    let mut e = CtlEndpoint::new();
    let mut step = e.accept_begin();
    assert_eq!(step, AcceptStep::Create);
    step = e.accept_thread(step, false);
    assert_eq!(step, AcceptStep::Sleep);
    step = e.accept_thread(step, true);
    step = e.accept_thread(step, true);
    assert_eq!(step, AcceptStep::Connect);
    step = e.accept_thread(step, true);
    assert_eq!(step, AcceptStep::Serve);
    step = e.accept_thread(step, true);
    assert_eq!(step, AcceptStep::Create, "the next command");
    e.stop = true;
    step = e.accept_thread(AcceptStep::Connect, false);
    assert_eq!(step, AcceptStep::Exit);
    assert_eq!(e.accept_thread(step, true), AcceptStep::Exit);
    assert_eq!(e.accept_begin(), AcceptStep::Exit);
}

#[test]
fn rows_stand_as_the_engine_is_set() {
    let mut s = snap("ni'hao", &["你好"]);
    s.orient(Some(Orientation::Horizontal));
    assert_eq!(s.orientation, Orientation::Horizontal);
    let mut w = CandwinCandidateWindow::new();
    assert_eq!(w.snap.orientation, Orientation::Vertical);
    w.show(&s, caret(), true);
    assert_eq!(w.snap.orientation, Orientation::Horizontal);
    s.orient(None);
    assert_eq!(s.orientation, Orientation::Vertical, "without an engine");
    w.update(&s);
    assert_eq!(w.snap.orientation, Orientation::Vertical);
    assert_eq!(w.snap.candidates, vec!["你好".to_string()]);
}
