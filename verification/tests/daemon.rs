use iuv_windows::daemon::{
    acquire_mutex, edited, handle_request, startup_exit, DaemonState, DictEdit, FlushRun,
    FlushStep, MainStep, Plan, ShmWrite, Single, Wait,
};
use iuv_windows::menu::{
    dispatch_menu, menu_message, tray_menu, tray_wnd_proc, BarMenuMessage, MenuCommand,
    MenuMessage, MenuWindow, TrayAction, TrayMenu, MENU_ABOUT, MENU_EXIT, MENU_OPEN_SETTINGS,
    WM_TRAY,
};
use iuv_windows::geometry::Rect;
use iuv_windows::toolbar::host::ToolbarHost;
use iuv_windows::toolbar::prefs::ToolbarPref;
use iuv_windows::toolbar::window::BarEvent;
use iuv_windows::wire::{Request, Response};

fn host() -> ToolbarHost {
    ToolbarHost::spawn(ToolbarPref { visible: true, pos: None })
}

#[test]
fn publishing_marks_the_dictionary() {
    let mut s = DaemonState::new();
    assert_eq!(s.publish(ShmWrite::Written(9)), Some(9));
    assert!(s.dirty);
    assert_eq!(s.publish(ShmWrite::Missing), None);
    assert_eq!(s.publish(ShmWrite::Failed), None);
    assert_eq!(s.current_version(None), 0);
    assert_eq!(s.current_version(Some(4)), 4);
    assert_eq!(s.bump_config_epoch(Some(3)), 3);
    assert_eq!(s.bump_config_epoch(None), 0);
    assert_eq!(edited(&mut s, ShmWrite::Written(2)), Response::Done { version: 2 });
    assert_eq!(edited(&mut s, ShmWrite::Failed), Response::Done { version: 0 });
}

#[test]
fn dictionary_is_written_while_marked() {
    let mut s = DaemonState::new();
    assert!(!s.flush_if_dirty());
    s.dirty = true;
    assert!(s.flush_if_dirty());
    s.flushed(false);
    assert!(s.dirty, "a failure is tried again");
    assert!(s.flush_if_dirty());
    s.flushed(true);
    assert!(!s.dirty);
}

#[test]
fn last_writing_has_patience() {
    let mut s = DaemonState::new();
    s.dirty = true;
    let mut run = FlushRun::new();
    let mut writes = 0;
    loop {
        match run.flush_now(&mut s) {
            FlushStep::Write { delay_ms } => {
                assert_eq!(delay_ms, if writes == 0 { 0 } else { 50 });
                writes += 1;
                s.flushed(false);
            }
            FlushStep::Done => break,
        }
    }
    assert_eq!(writes, 4, "at once and three times more");
    let mut clean = DaemonState::new();
    assert_eq!(FlushRun::new().flush_now(&mut clean), FlushStep::Done);
}

#[test]
fn commands_set_flags() {
    let mut s = DaemonState::new();
    let mut t = host();
    assert_eq!(
        handle_request(&mut s, &mut t, &Request::Ping, Some(5)),
        Plan::Answer(Response::Done { version: 5 })
    );
    handle_request(&mut s, &mut t, &Request::OpenSettings, None);
    assert!(s.open_settings);
    s.settings_open = true;
    s.open_settings = false;
    assert_eq!(
        handle_request(&mut s, &mut t, &Request::OpenSettings, None),
        Plan::FocusSettings(Response::Done { version: 0 })
    );
    assert!(!s.open_settings, "no second window is asked for");
    assert_eq!(
        handle_request(&mut s, &mut t, &Request::GetToolbarVisible, None),
        Plan::Answer(Response::ToolbarVisible { visible: true })
    );
    handle_request(&mut s, &mut t, &Request::ToggleToolbar, None);
    assert_eq!(t.pending.pop_front(), Some(BarEvent::ToggleVisible));
    handle_request(&mut s, &mut t, &Request::Quit, None);
    assert!(s.quit_flag && s.close_settings);
}

#[test]
fn swapping_exchanges_the_weights() {
    let mut s = DaemonState::new();
    let mut t = host();
    let req = Request::Swap {
        a_code: "de".into(),
        a_word: "的".into(),
        a_adj: 5,
        b_code: "de".into(),
        b_word: "得".into(),
        b_adj: 9,
    };
    assert_eq!(
        handle_request(&mut s, &mut t, &req, None),
        Plan::Edit(DictEdit::Swap {
            a_code: "de".into(),
            a_word: "的".into(),
            a_weight: 9,
            b_code: "de".into(),
            b_word: "得".into(),
            b_weight: 5,
        })
    );
    let req = Request::SetEntry { code: "da".into(), word: "龘".into(), adj: 7 };
    assert_eq!(
        handle_request(&mut s, &mut t, &req, None),
        Plan::Edit(DictEdit::SetEntry { code: "da".into(), word: "龘".into(), weight: 7 })
    );
    let req = Request::Remove { code: "da".into(), word: "龘".into() };
    assert_eq!(
        handle_request(&mut s, &mut t, &req, None),
        Plan::Edit(DictEdit::Remove { code: "da".into(), word: "龘".into() })
    );
    let req = Request::Block { code: "da".into(), word: "龘".into() };
    assert_eq!(
        handle_request(&mut s, &mut t, &req, None),
        Plan::Edit(DictEdit::Block { code: "da".into(), word: "龘".into() })
    );
}

#[test]
fn main_loop_steps() {
    let mut s = DaemonState::new();
    assert_eq!(s.next_step(), MainStep::Idle);
    s.open_settings = true;
    assert_eq!(s.next_step(), MainStep::RunSettings);
    assert!(s.settings_open);
    s.settings_closed();
    assert!(!s.settings_open);
    s.quit_flag = true;
    s.open_settings = true;
    assert_eq!(s.next_step(), MainStep::Quit);
    s.close_settings = true;
    assert!(s.take_close());
}

#[test]
fn one_daemon_at_a_time() {
    assert_eq!(acquire_mutex(false, false, Wait::Free), Single::NoMutex);
    assert_eq!(acquire_mutex(true, false, Wait::Free), Single::Ours);
    assert_eq!(acquire_mutex(true, true, Wait::Abandoned), Single::Ours);
    assert_eq!(acquire_mutex(true, true, Wait::Held), Single::Theirs);
    assert_eq!(startup_exit(Single::Ours, true), None);
    assert!(startup_exit(Single::Theirs, true).is_some());
}

#[test]
fn tray_menu_lines() {
    let items = tray_menu();
    assert_eq!(items.len(), 5);
    assert_eq!(items[0].id, MENU_OPEN_SETTINGS);
    assert_eq!(items[4].label, "退出 iuv");
    assert_eq!(dispatch_menu(MENU_OPEN_SETTINGS), MenuCommand::OpenSettings);
    assert_eq!(dispatch_menu(MENU_ABOUT), MenuCommand::About);
    assert_eq!(dispatch_menu(MENU_EXIT), MenuCommand::Exit);
    assert_eq!(dispatch_menu(0), MenuCommand::Nothing);
    assert_eq!(tray_wnd_proc(WM_TRAY, 0, 0x0202), TrayAction::OpenSettings);
    assert_eq!(tray_wnd_proc(WM_TRAY, 0, 0x007B), TrayAction::ShowMenu);
    assert_eq!(tray_wnd_proc(0x0113, 1, 0), TrayAction::Flush);
    assert_eq!(tray_wnd_proc(0x0113, 2, 0), TrayAction::Default);
}

#[test]
fn tray_menu_lives_until_a_choice() {
    let mut m = TrayMenu::new();
    let work = Rect { left: 0, top: 0, right: 1920, bottom: 1040 };
    let plan = m.show_menu(Some((100, 1000)), Some((120, 90)), work);
    assert!(plan.destroy.is_none());
    let (x, y) = plan.place.unwrap();
    assert!(x >= 0 && y >= 0 && x + 120 <= 1920 && y + 90 <= 1040);
    m.opened(77);
    let again = m.show_menu(Some((100, 1000)), Some((120, 90)), work);
    assert_eq!(again.destroy, Some(77), "the open one gives way");
    assert!(m.show_menu(Some((100, 1000)), Some((120, 0)), work).place.is_none());
    assert!(m.show_menu(None, Some((120, 90)), work).place.is_none());
    m.opened(78);
    let r = m.menu_wnd_proc(78, MenuMessage::MouseMove, Some(2));
    assert!(r.redraw);
    let r = m.menu_wnd_proc(78, menu_message(0x0202), Some(4));
    assert_eq!(r.dispatch, Some(MENU_EXIT));
    assert!(r.close);
    let r = m.menu_wnd_proc(78, MenuMessage::LeftUp, Some(1));
    assert_eq!(r.dispatch, None, "a separator does nothing");
    let r = m.menu_wnd_proc(78, MenuMessage::Destroy, None);
    assert!(r.free);
    assert_eq!(m.current, 0);
}

#[test]
fn bar_menu_closes() {
    let mut m = MenuWindow::new(tray_menu());
    assert_eq!(m.show_at(10, 10, None, None), None);
    assert_eq!(m.show_at(10, 10, Some((0, 50)), None), None);
    assert!(!m.visible);
    assert_eq!(m.show_at(10, 10, Some((100, 50)), None), Some((10, 10)));
    assert!(m.visible);
    assert!(m.wnd_proc(BarMenuMessage::MouseMove, Some(0)).repaint);
    assert!(!m.wnd_proc(BarMenuMessage::KeyDown(0x20), None).close);
    let r = m.wnd_proc(BarMenuMessage::LeftDown, Some(0));
    assert_eq!(r.chosen, Some(MENU_OPEN_SETTINGS));
    assert!(r.close && !m.visible);
    m.visible = true;
    assert!(m.wnd_proc(BarMenuMessage::KeyDown(0x1B), None).close);
    m.visible = true;
    assert!(m.wnd_proc(BarMenuMessage::Activate(false), None).close);
    assert_eq!(m.wnd_proc(BarMenuMessage::Other, None).reply, None);
    m.dismiss();
    assert!(!m.visible);
}
