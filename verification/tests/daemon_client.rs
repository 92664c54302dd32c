use std::time::{SystemTime, UNIX_EPOCH};

use iuv_windows::daemon_client::{
    daemon_ensured, daemon_program, ensure_daemon, DaemonClient, EnsureDaemon, LaunchCooldown, RequestEvent,
    RequestStage, Segment, SegmentRead, SignalStep,
};
use iuv_windows::ime::ImeState;
use iuv_windows::wire::{
    response_ok, user_mutation_to_request, Request, Response, ToolbarSignal, UserMutation,
};

fn now_unix_secs() -> u64 {
    SystemTime::now().duration_since(UNIX_EPOCH).map(|d| d.as_secs()).unwrap_or(0)
}

#[test]
fn launch_cooldown_gates_attempts() {
    let mut c = LaunchCooldown::new();
    let t0 = now_unix_secs().saturating_add(1_000_000);
    assert!(c.launch_cooldown_ok_at(t0), "首次尝试放行");
    assert!(!c.launch_cooldown_ok_at(t0 + 10), "10s 内冷却：拒绝");
    assert!(!c.launch_cooldown_ok_at(t0 + 59), "59s 内冷却：拒绝");
    assert!(c.launch_cooldown_ok_at(t0 + 61), "期满放行");
}

#[test]
fn user_mutation_to_request_mapping() {
    assert_eq!(
        user_mutation_to_request(&UserMutation::Swap {
            a_code: "haoshi".into(),
            a_word: "好使".into(),
            a_eff: 5800,
            b_code: "haoshi".into(),
            b_word: "耗时".into(),
            b_eff: 3800,
        }),
        Request::Swap {
            a_code: "haoshi".into(),
            a_word: "好使".into(),
            a_adj: 5800,
            b_code: "haoshi".into(),
            b_word: "耗时".into(),
            b_adj: 3800,
        }
    );
    assert_eq!(
        user_mutation_to_request(&UserMutation::SetEntry {
            code: "zhang'wei'wei".into(),
            word: "张葳葳".into(),
            adj: 8000,
        }),
        Request::SetEntry {
            code: "zhang'wei'wei".into(),
            word: "张葳葳".into(),
            adj: 8000,
        }
    );
    assert_eq!(
        user_mutation_to_request(&UserMutation::Remove {
            code: "de".into(),
            word: "的".into(),
        }),
        Request::Remove {
            code: "de".into(),
            word: "的".into(),
        }
    );
    assert_eq!(
        user_mutation_to_request(&UserMutation::Block {
            code: "shou'xuan".into(),
            word: "手癣".into(),
        }),
        Request::Block {
            code: "shou'xuan".into(),
            word: "手癣".into(),
        }
    );
}

#[test]
fn response_judgement() {
    assert!(response_ok(&Response::Done { version: 42 }));
    assert!(!response_ok(&Response::Refused {
        msg: "写盘失败".into()
    }));
}

type Words = Vec<(String, u32)>;

fn words(weight: u32) -> SegmentRead<Words> {
    SegmentRead::Written(vec![("龘".to_string(), weight)])
}

fn segment(version: u32, config_epoch: u32) -> Option<Segment> {
    Some(Segment { version, config_epoch })
}

#[test]
fn poll_injects_user_dict_on_version_change() {
    let mut client = DaemonClient::new();
    let first = client.poll(segment(1, 0), words(7));
    assert!(first.changed, "首次应有变化");
    assert_eq!(first.inject, Some(vec![("龘".to_string(), 7)]));
    let same = client.poll(segment(1, 0), words(7));
    assert!(!same.changed, "同 version 无变化");
    assert_eq!(same.inject, None);
    let next = client.poll(segment(2, 0), words(8));
    assert!(next.changed, "新版本应再注入");
    assert_eq!(next.inject, Some(vec![("龘".to_string(), 8)]));
}

#[test]
fn poll_fires_config_reload_on_epoch_change() {
    let mut client = DaemonClient::new();
    let mut fired = 0;
    if client.poll::<Words>(segment(0, 3), SegmentRead::Blank).reload_config {
        fired += 1;
    }
    let base = fired;
    if client.poll::<Words>(segment(0, 4), SegmentRead::Blank).reload_config {
        fired += 1;
    }
    assert_eq!(fired, base + 1, "纪元变化触发一次");
    if client.poll::<Words>(segment(0, 4), SegmentRead::Blank).reload_config {
        fired += 1;
    }
    assert_eq!(fired, base + 1, "同纪元不再触发");
}

#[test]
fn offline_degrade_paths() {
    let mut client = DaemonClient::new();
    let r = client.poll::<Words>(None, SegmentRead::Blank);
    assert!(!r.changed && !r.register && r.inject.is_none());
    assert!(!client.online);
}

#[test]
fn unreadable_dictionary_is_tried_again() {
    let mut client = DaemonClient::new();
    assert!(client.poll::<Words>(segment(5, 0), SegmentRead::Damaged).inject.is_none());
    assert!(client.wants_read(&Segment { version: 5, config_epoch: 0 }));
    assert!(client.poll(segment(5, 0), words(1)).inject.is_some());
    assert!(!client.wants_read(&Segment { version: 5, config_epoch: 0 }));
}

#[test]
fn returning_daemon_is_reported_to() {
    let mut client = DaemonClient::new();
    assert!(client.poll(segment(1, 0), words(1)).register);
    assert!(!client.poll(segment(1, 0), words(1)).register);
    client.poll::<Words>(None, SegmentRead::Blank);
    assert!(client.poll(segment(1, 0), words(1)).register);
    assert!(client.set_online(false));
    assert!(client.on_config_epoch_consume(8));
    assert!(!client.on_config_epoch_consume(8));
}

const DLL: &str = "C:\\Program Files\\iuv\\iuv_tsf.dll";

#[test]
fn daemon_is_beside_the_library() {
    for (dll, program) in [
        (DLL, "C:\\Program Files\\iuv\\iuv-daemon.exe"),
        ("C:\\x.dll", "C:\\iuv-daemon.exe"),
        ("C:\\\\x.dll", "C:\\iuv-daemon.exe"),
        ("C:x.dll", "C:iuv-daemon.exe"),
        ("C:/a/x.dll", "C:/a\\iuv-daemon.exe"),
        ("C:\\a\\\\x.dll", "C:\\a\\iuv-daemon.exe"),
        ("C:\\a\\.\\x.dll\\.\\", "C:\\a\\iuv-daemon.exe"),
        ("\\\\srv\\sh\\x.dll", "\\\\srv\\sh\\iuv-daemon.exe"),
        ("\\\\?\\C:\\a\\x.dll", "\\\\?\\C:\\a\\iuv-daemon.exe"),
        ("\\\\?\\UNC\\srv\\sh\\x.dll", "\\\\?\\UNC\\srv\\sh\\iuv-daemon.exe"),
        ("\\x.dll", "\\iuv-daemon.exe"),
        ("x.dll", "iuv-daemon.exe"),
        (".\\x.dll", ".\\iuv-daemon.exe"),
        (".", "iuv-daemon.exe"),
        ("a\\..", "a\\iuv-daemon.exe"),
    ] {
        assert_eq!(daemon_program(dll), Some(program.to_string()), "{dll}");
    }
    for dll in ["", "C:", "C:\\", "C:\\.", "\\", "\\\\srv\\sh", "\\\\srv\\sh\\", "\\\\?\\UNC\\srv\\sh"] {
        assert_eq!(daemon_program(dll), None, "{dll}");
    }
}

#[test]
fn daemon_is_started_once_a_minute() {
    let mut c = LaunchCooldown::new();
    assert_eq!(ensure_daemon(&mut c, true, 1000, DLL, true), EnsureDaemon::Online);
    assert_eq!(c.last_attempt, 0, "nothing was tried");
    let plan = ensure_daemon(&mut c, false, 1000, DLL, true);
    assert_eq!(plan, EnsureDaemon::Launch("C:\\Program Files\\iuv\\iuv-daemon.exe".into()));
    assert!(daemon_ensured(&plan, true));
    assert!(!daemon_ensured(&plan, false));
    assert_eq!(ensure_daemon(&mut c, false, 1059, DLL, true), EnsureDaemon::CoolingDown);
    let plan = ensure_daemon(&mut c, false, 1060, DLL, false);
    assert_eq!(plan, EnsureDaemon::NoProgram);
    assert_eq!(ensure_daemon(&mut c, false, 1120, "", true), EnsureDaemon::NoProgram);
    assert!(!daemon_ensured(&plan, true));
    assert!(daemon_ensured(&EnsureDaemon::Online, false));
    assert!(!c.launch_cooldown_ok_at(5), "a clock that went back");
}

#[test]
fn requests_are_sent_at_most_twice() {
    let mut c = DaemonClient::new();
    assert_eq!(c.send_request(), RequestStage::Connect);
    let (stage, _) = c.request_once(RequestStage::Connect, RequestEvent::Connected);
    assert_eq!(stage, RequestStage::Send);
    let (stage, none) = c.request_once(stage, RequestEvent::Broken);
    assert_eq!((stage, none), (RequestStage::Reconnect, None));
    let (stage, _) = c.request_once(stage, RequestEvent::Connected);
    let answer = Response::Done { version: 3 };
    let (stage, got) = c.request_once(stage, RequestEvent::Answered(Response::Done { version: 3 }));
    assert_eq!(stage, RequestStage::Over);
    assert_eq!(got, Some(answer));
    assert!(!c.pipe, "one request per connection");
    let (stage, _) = c.request_once(RequestStage::Resend, RequestEvent::Broken);
    assert_eq!(stage, RequestStage::Over);
    let (stage, _) = c.request_once(RequestStage::Connect, RequestEvent::Broken);
    assert_eq!(stage, RequestStage::Over);
}

#[test]
fn answers_are_judged() {
    let shown = Response::ToolbarVisible { visible: true };
    assert_eq!(DaemonClient::toolbar_visible(Some(&shown)), Some(true));
    assert_eq!(DaemonClient::toolbar_visible(Some(&Response::Done { version: 1 })), None);
    assert_eq!(DaemonClient::toolbar_visible(None), None);
    assert!(DaemonClient::apply_mutation(Some(&Response::Done { version: 1 })));
    assert!(!DaemonClient::apply_mutation(Some(&Response::Refused { msg: "x".into() })));
    assert!(!DaemonClient::apply_mutation(None));
    assert!(DaemonClient::pipe_online(Some(&shown)));
    assert!(!DaemonClient::pipe_online(None));
}

#[test]
fn signals_keep_their_connection() {
    let mut c = DaemonClient::new();
    assert_eq!(c.send_signal(), SignalStep::Connect);
    assert_eq!(c.signal_done(SignalStep::Connect, false), SignalStep::Over);
    assert_eq!(c.signal_done(SignalStep::Connect, true), SignalStep::Send);
    assert_eq!(c.signal_done(SignalStep::Send, true), SignalStep::Over);
    assert_eq!(c.send_signal(), SignalStep::Send);
    c.signal_done(SignalStep::Send, false);
    assert_eq!(c.send_signal(), SignalStep::Connect);
    let state = ImeState::default();
    assert_eq!(
        DaemonClient::focus_gained(1, 2, state),
        ToolbarSignal::FocusGained { pid: 1, tid: 2, state }
    );
    assert_eq!(DaemonClient::focus_lost(1, 2), ToolbarSignal::FocusLost { pid: 1, tid: 2 });
    assert_eq!(
        DaemonClient::state_changed(1, 2, state),
        ToolbarSignal::StateChanged { pid: 1, tid: 2, state }
    );
}
