//! The client of the daemon in a program: it reads the dictionary from the shared segment, sends
//! requests and signals, and starts the daemon.

use vstd::prelude::*;

use crate::ime;
use crate::ime::ImeState;
use crate::paths;
use crate::paths::{directory_of, path_below};
use crate::wire::{response_ok, Response, ToolbarSignal};

verus! {

/// How long after an attempt to start the daemon none other is made, in seconds.
pub const LAUNCH_COOLDOWN_SECS: u64 = 60;

/// When the daemon was last started.
#[derive(Clone, Copy, Debug, PartialEq, Eq, Structural)]
pub struct LaunchCooldown {
    /// The time of the last attempt, in seconds since the epoch; 0 before the first.
    pub last_attempt: u64,
}

impl LaunchCooldown {
    /// No attempt yet.
    pub fn new() -> (r: LaunchCooldown)
        ensures
            r == (LaunchCooldown { last_attempt: 0 }),
    {
        LaunchCooldown { last_attempt: 0 }
    }

    /// Whether an attempt is due.
    pub open spec fn due(self, now: u64) -> bool {
        now - self.last_attempt >= LAUNCH_COOLDOWN_SECS
    }

    /// The times after an attempt was asked for: one that is due is noted.
    pub open spec fn asked(self, now: u64) -> LaunchCooldown {
        if self.due(now) {
            LaunchCooldown { last_attempt: now }
        } else {
            self
        }
    }

    /// Whether an attempt may be made now; if so, it is noted.
    pub fn launch_cooldown_ok_at(&mut self, now: u64) -> (r: bool)
        ensures
            r == old(self).due(now),
            *final(self) == old(self).asked(now),
    {
        if now < self.last_attempt || now - self.last_attempt < LAUNCH_COOLDOWN_SECS {
            return false;
        }
        self.last_attempt = now;
        true
    }
}

/// After an attempt to start the daemon none follows within a minute, and one may follow then.
/// Asking for one that is not due does not put off the next.
pub proof fn law_cooldown(c: LaunchCooldown, now: u64, later: u64)
    ensures
        c.due(now) ==> (c.asked(now).due(later) <==> later >= now + 60),
        !c.due(now) ==> (c.asked(now).due(later) <==> c.due(later)),
{
}

/// What is done to have the daemon running.
#[derive(Debug, PartialEq, Eq)]
pub enum EnsureDaemon {
    /// It runs.
    Online,
    /// An attempt was made shortly before.
    CoolingDown,
    /// There is no such program.
    NoProgram,
    /// This program is to be started.
    Launch(String),
}

/// The name of the daemon's program.
pub const DAEMON_PROGRAM: &'static str = "iuv-daemon.exe";

/// Where the daemon's program is: beside the library `dll`. It has no place where that of the
/// library is not known.
pub open spec fn program_beside(dll: Seq<char>) -> Option<Seq<char>> {
    match paths::directory(dll) {
        Some(dir) => Some(paths::below(dir, DAEMON_PROGRAM@)),
        None => None,
    }
}

/// Where the daemon's program is, beside the library `dll`.
pub fn daemon_program(dll: &str) -> (r: Option<String>)
    ensures
        match program_beside(dll@) {
            Some(p) => r matches Some(q) && q@ == p,
            None => r is None,
        },
{
    match directory_of(dll) {
        Some(dir) => Some(path_below(dir.as_str(), DAEMON_PROGRAM)),
        None => None,
    }
}

/// Beside a library in a directory of a drive, the daemon's program is in that directory. Where
/// the place of the library is not known, there is no program.
pub proof fn law_daemon_beside_library(dir: Seq<char>, name: Seq<char>)
    requires
        dir.len() >= 2,
        ime::is_letter(dir[0]),
        dir[1] == ':',
        !paths::separates(dir.last(), false),
        dir.last() == '.' ==> dir.len() > 2 && !paths::separates(dir[dir.len() - 2], false),
        name.len() > 0,
        name != seq!['.'],
        forall|i: int| 0 <= i < name.len() ==> !paths::separates(#[trigger] name[i], false),
    ensures
        program_beside(dir + "\\"@ + name) == Some(dir + "\\"@ + DAEMON_PROGRAM@),
        program_beside(Seq::empty()) is None,
{
    reveal_strlit("\\");
    let t = dir + "\\"@ + name;
    let d = dir.len() as int;
    assert(t[0] == dir[0] && t[1] == dir[1] && t[d] == '\\');
    assert(t[d - 1] == dir.last());
    assert forall|i: int| 0 <= i < name.len() implies #[trigger] t[d + 1 + i] == name[i] by {}
    assert(t.last() == name.last());
    assert(paths::prefix_end(t) == 2);
    assert(paths::parts_begin(t) <= d + 1);
    if name.last() == '.' && name.len() > 1 {
        assert(!paths::separates(name[name.len() - 2], false));
        assert(t[t.len() - 2] == name[name.len() - 2]);
    }
    if name.last() == '.' && name.len() == 1 {
        assert(name =~= seq!['.']);
    }
    assert(paths::last_part_end(t, t.len() as int) == t.len());
    name_begins(t, d + 1, t.len() as int);
    assert(paths::part_begin(t, t.len() as int) == d + 1);
    if d == 2 {
        assert(paths::last_part_end(t, 3) == 3);
        assert(t.take(3) =~= dir + "\\"@);
    } else {
        assert(t[d - 2] == dir[d - 2]);
        assert(paths::last_part_end(t, d + 1) == paths::last_part_end(t, d));
        assert(paths::last_part_end(t, d) == d);
        assert(t.take(d) =~= dir);
    }
    assert(paths::directory(Seq::empty()) is None);
}

/// A run without separators up to `to` belongs to one part.
proof fn name_begins(t: Seq<char>, from: int, to: int)
    requires
        0 < from <= to <= t.len(),
        paths::parts_begin(t) <= from,
        !paths::is_verbatim(t),
        paths::separates(t[from - 1], false),
        forall|i: int| from <= i < to ==> !paths::separates(#[trigger] t[i], false),
    ensures
        paths::part_begin(t, to) == from,
    decreases to,
{
    if to > from {
        name_begins(t, from, to - 1);
    }
}

/// Sees to it that the daemon runs: `online` tells whether it answers, `dll` where this library
/// is, and `present` whether `daemon_program` names a file that is there.
pub fn ensure_daemon(
    cooldown: &mut LaunchCooldown,
    online: bool,
    now: u64,
    dll: &str,
    present: bool,
) -> (r: EnsureDaemon)
    ensures
        online ==> r == EnsureDaemon::Online && *final(cooldown) == *old(cooldown),
        !online && !old(cooldown).due(now) ==> r == EnsureDaemon::CoolingDown && *final(cooldown)
            == *old(cooldown),
        !online && old(cooldown).due(now) ==> {
            &&& *final(cooldown) == (LaunchCooldown { last_attempt: now })
            &&& match program_beside(dll@) {
                Some(p) => if present {
                    r matches EnsureDaemon::Launch(q) && q@ == p
                } else {
                    r == EnsureDaemon::NoProgram
                },
                None => r == EnsureDaemon::NoProgram,
            }
        },
{
    if online {
        return EnsureDaemon::Online;
    }
    if !cooldown.launch_cooldown_ok_at(now) {
        return EnsureDaemon::CoolingDown;
    }
    match daemon_program(dll) {
        Some(p) => if present {
            EnsureDaemon::Launch(p)
        } else {
            EnsureDaemon::NoProgram
        },
        None => EnsureDaemon::NoProgram,
    }
}

/// Whether the daemon runs or has been started; `started` tells what came of starting it.
pub fn daemon_ensured(plan: &EnsureDaemon, started: bool) -> (r: bool)
    ensures
        r == (match *plan {
            EnsureDaemon::Online => true,
            EnsureDaemon::Launch(_) => started,
            _ => false,
        }),
{
    match plan {
        EnsureDaemon::Online => true,
        EnsureDaemon::Launch(_) => started,
        EnsureDaemon::CoolingDown | EnsureDaemon::NoProgram => false,
    }
}

/// The client.
#[derive(Clone, Copy, Debug, PartialEq, Eq, Structural)]
pub struct DaemonClient {
    /// Whether there is a connection for requests.
    pub pipe: bool,
    /// Whether there is a connection for signals.
    pub signal: bool,
    /// The version of the dictionary that the engine has.
    pub last_version: u32,
    /// The epoch of the settings that are in force.
    pub last_epoch: u32,
    /// Whether the daemon was there last time.
    pub online: bool,
}

/// The numbers at the head of the shared segment.
#[derive(Clone, Copy, Debug, PartialEq, Eq, Structural)]
pub struct Segment {
    pub version: u32,
    pub config_epoch: u32,
}

/// What was read from the shared segment.
#[derive(Debug, PartialEq, Eq)]
pub enum SegmentRead<D> {
    Written(D),
    /// Nothing was written yet.
    Blank,
    /// It could not be read.
    Damaged,
}

/// What a look at the shared segment comes to.
#[derive(Debug, PartialEq, Eq)]
pub struct Polled<D> {
    /// The dictionary that the engine gets.
    pub inject: Option<D>,
    /// Whether the settings are to be loaded again.
    pub reload_config: bool,
    /// Whether the instance is to report itself again, since the daemon has come back.
    pub register: bool,
    /// Whether dictionary or settings have changed.
    pub changed: bool,
}

impl DaemonClient {
    /// A client that has neither seen nor connected to a daemon.
    pub fn new() -> (r: DaemonClient)
        ensures
            r == (DaemonClient {
                pipe: false,
                signal: false,
                last_version: 0,
                last_epoch: 0,
                online: false,
            }),
    {
        DaemonClient { pipe: false, signal: false, last_version: 0, last_epoch: 0, online: false }
    }

    /// Whether the dictionary in the segment is to be read: it has another version than the
    /// engine's.
    pub fn wants_read(&self, segment: &Segment) -> (r: bool)
        ensures
            r == (segment.version != self.last_version),
    {
        segment.version != self.last_version
    }

    /// The client after a look at the segment.
    pub open spec fn polled<D>(self, segment: Option<Segment>, read: SegmentRead<D>) -> DaemonClient {
        match segment {
            None => DaemonClient { online: false, ..self },
            Some(s) => DaemonClient {
                online: true,
                last_epoch: s.config_epoch,
                last_version: if read is Written {
                    s.version
                } else {
                    self.last_version
                },
                ..self
            },
        }
    }

    /// What a look at the segment comes to.
    pub open spec fn looked<D>(self, segment: Option<Segment>, read: SegmentRead<D>) -> Polled<D> {
        match segment {
            None => Polled { inject: None, reload_config: false, register: false, changed: false },
            Some(s) => {
                let inject = if s.version != self.last_version && read is Written {
                    Some(read->Written_0)
                } else {
                    None
                };
                let reload_config = s.config_epoch != self.last_epoch;
                Polled {
                    inject,
                    reload_config,
                    register: !self.online,
                    changed: inject is Some || reload_config,
                }
            },
        }
    }

    /// Looks at the shared segment, which is missing while no daemon made it. `read` is what it
    /// holds; it is looked at only where the version has changed. A dictionary that could not be
    /// read leaves the version as it was, so that it is read again.
    pub fn poll<D>(&mut self, segment: Option<Segment>, read: SegmentRead<D>) -> (r: Polled<D>)
        ensures
            *final(self) == old(self).polled(segment, read),
            r == old(self).looked(segment, read),
    {
        match segment {
            None => {
                self.set_online(false);
                Polled { inject: None, reload_config: false, register: false, changed: false }
            },
            Some(s) => {
                let inject: Option<D> = if self.wants_read(&s) {
                    match read {
                        SegmentRead::Written(d) => {
                            self.last_version = s.version;
                            Some(d)
                        },
                        SegmentRead::Blank | SegmentRead::Damaged => None,
                    }
                } else {
                    None
                };
                let reload: bool = self.on_config_epoch_consume(s.config_epoch);
                let was_online: bool = self.set_online(true);
                let changed: bool = inject.is_some() || reload;
                Polled { inject, reload_config: reload, register: !was_online, changed }
            },
        }
    }

    /// Whether the epoch of the settings has changed; the new one is noted.
    pub fn on_config_epoch_consume(&mut self, epoch: u32) -> (r: bool)
        ensures
            r == (epoch != old(self).last_epoch),
            *final(self) == (DaemonClient { last_epoch: epoch, ..*old(self) }),
    {
        if epoch != self.last_epoch {
            self.last_epoch = epoch;
            true
        } else {
            false
        }
    }

    /// Notes whether the daemon is there; gives whether it was.
    pub fn set_online(&mut self, online: bool) -> (prev: bool)
        ensures
            prev == old(self).online,
            *final(self) == (DaemonClient { online, ..*old(self) }),
    {
        let prev: bool = self.online;
        self.online = online;
        prev
    }
}

/// What the segment holds is taken once: a second look at the same segment changes nothing, if
/// its dictionary could be read or has not changed.
pub proof fn law_polled_once<D>(c: DaemonClient, s: Segment, read: SegmentRead<D>)
    requires
        read is Written || s.version == c.last_version,
    ensures
        ({
            let d = c.polled(Some(s), read);
            &&& s.version == d.last_version
            &&& s.config_epoch == d.last_epoch
            &&& d.online
            &&& d.polled(Some(s), read) == d
            &&& d.looked(Some(s), read) == (Polled {
                inject: None::<D>,
                reload_config: false,
                register: false,
                changed: false,
            })
        }),
{
}

/// A daemon that went away and came back is reported to again, once; what it then holds counts
/// as changed only where it differs from what was seen before.
pub proof fn law_comes_back<D>(c: DaemonClient, s: Segment, read: SegmentRead<D>)
    ensures
        ({
            let gone = c.polled(None::<Segment>, read);
            let back = gone.polled(Some(s), read);
            &&& gone.looked(Some(s), read).register
            &&& !back.looked(Some(s), read).register
            &&& gone.looked(Some(s), read).changed == c.looked(Some(s), read).changed
            &&& gone.looked(Some(s), read).inject == c.looked(Some(s), read).inject
        }),
{
}

/// Where a request stands.
#[derive(Clone, Copy, Debug, PartialEq, Eq, Structural)]
pub enum RequestStage {
    /// Connecting for the first time.
    Connect,
    /// Sending for the first time.
    Send,
    /// Connecting again.
    Reconnect,
    /// Sending again.
    Resend,
    /// It was answered, or it failed.
    Over,
}

/// What came of connecting or sending.
#[derive(Debug, PartialEq, Eq)]
pub enum RequestEvent {
    Connected,
    /// The connection, or the sending, failed.
    Broken,
    Answered(Response),
}

/// The stage that follows. The connection is made where there is none; a sending that fails is
/// tried once more, over a new connection.
pub open spec fn stage_after(stage: RequestStage, event: RequestEvent) -> RequestStage {
    match stage {
        RequestStage::Connect => if event is Connected {
            RequestStage::Send
        } else {
            RequestStage::Over
        },
        RequestStage::Send => if event is Answered {
            RequestStage::Over
        } else {
            RequestStage::Reconnect
        },
        RequestStage::Reconnect => if event is Connected {
            RequestStage::Resend
        } else {
            RequestStage::Over
        },
        RequestStage::Resend => RequestStage::Over,
        RequestStage::Over => RequestStage::Over,
    }
}

impl DaemonClient {
    /// Begins a request.
    pub fn send_request(&self) -> (r: RequestStage)
        ensures
            r == (if self.pipe {
                RequestStage::Send
            } else {
                RequestStage::Connect
            }),
    {
        if self.pipe {
            RequestStage::Send
        } else {
            RequestStage::Connect
        }
    }

    /// Goes on with a request. The server answers one request per connection, so the connection
    /// is dropped after a request, whatever came of it. Gives the next stage, and the answer at
    /// the end, if there is one.
    pub fn request_once(&mut self, stage: RequestStage, event: RequestEvent) -> (r: (
        RequestStage,
        Option<Response>,
    ))
        ensures
            r.0 == stage_after(stage, event),
            r.1 == (match event {
                RequestEvent::Answered(a) => if stage == RequestStage::Send || stage
                    == RequestStage::Resend {
                    Some(a)
                } else {
                    None::<Response>
                },
                _ => None::<Response>,
            }),
            *final(self) == (DaemonClient {
                pipe: match stage {
                    RequestStage::Over => old(self).pipe,
                    RequestStage::Connect => event is Connected || old(self).pipe,
                    _ => false,
                },
                ..*old(self)
            }),
    {
        match stage {
            RequestStage::Connect => match event {
                RequestEvent::Connected => {
                    self.pipe = true;
                    (RequestStage::Send, None)
                },
                _ => (RequestStage::Over, None),
            },
            RequestStage::Send => {
                self.pipe = false;
                match event {
                    RequestEvent::Answered(a) => (RequestStage::Over, Some(a)),
                    _ => (RequestStage::Reconnect, None),
                }
            },
            RequestStage::Reconnect => {
                self.pipe = false;
                match event {
                    RequestEvent::Connected => (RequestStage::Resend, None),
                    _ => (RequestStage::Over, None),
                }
            },
            RequestStage::Resend => {
                self.pipe = false;
                match event {
                    RequestEvent::Answered(a) => (RequestStage::Over, Some(a)),
                    _ => (RequestStage::Over, None),
                }
            },
            RequestStage::Over => (RequestStage::Over, None),
        }
    }

    /// Whether the daemon made a change of the dictionary; where it did not, the engine writes
    /// the change itself. `answer` is what the request was answered, if it was.
    pub fn apply_mutation(answer: Option<&Response>) -> (r: bool)
        ensures
            r == (match answer {
                Some(a) => *a is Done,
                None => false,
            }),
    {
        match answer {
            Some(a) => response_ok(a),
            None => false,
        }
    }

    /// Whether the toolbar shows, where the daemon tells.
    pub fn toolbar_visible(answer: Option<&Response>) -> (r: Option<bool>)
        ensures
            r == (match answer {
                Some(a) => match *a {
                    Response::ToolbarVisible { visible } => Some(visible),
                    _ => None::<bool>,
                },
                None => None::<bool>,
            }),
    {
        match answer {
            Some(Response::ToolbarVisible { visible }) => Some(*visible),
            _ => None,
        }
    }

    /// Whether the daemon is alive: it answers anything at all.
    pub fn pipe_online(answer: Option<&Response>) -> (r: bool)
        ensures
            r == (answer is Some),
    {
        answer.is_some()
    }
}

/// How much of a request is left.
pub open spec fn stages_left(s: RequestStage) -> nat {
    match s {
        RequestStage::Connect => 4,
        RequestStage::Send => 3,
        RequestStage::Reconnect => 2,
        RequestStage::Resend => 1,
        RequestStage::Over => 0,
    }
}

/// A request is sent at most twice, and ends; it is sent only over a connection that was just
/// made, or was there.
pub proof fn law_request_ends(stage: RequestStage, event: RequestEvent)
    ensures
        stage != RequestStage::Over ==> stages_left(stage_after(stage, event)) < stages_left(stage),
        stage_after(stage, event) == RequestStage::Resend ==> stage == RequestStage::Reconnect
            && event is Connected,
        stage_after(stage, event) == RequestStage::Send ==> stage == RequestStage::Connect
            && event is Connected,
{
}

/// What is done about a signal.
#[derive(Clone, Copy, Debug, PartialEq, Eq, Structural)]
pub enum SignalStep {
    Connect,
    Send,
    /// It was sent, or given up.
    Over,
}

impl DaemonClient {
    /// Begins to send a signal, over the connection that there is, or a new one.
    pub fn send_signal(&self) -> (r: SignalStep)
        ensures
            r == (if self.signal {
                SignalStep::Send
            } else {
                SignalStep::Connect
            }),
    {
        if self.signal {
            SignalStep::Send
        } else {
            SignalStep::Connect
        }
    }

    /// Takes what came of a step. The connection stays for the next signal, and is dropped
    /// where sending failed.
    pub fn signal_done(&mut self, step: SignalStep, good: bool) -> (r: SignalStep)
        ensures
            r == (if step == SignalStep::Connect && good {
                SignalStep::Send
            } else {
                SignalStep::Over
            }),
            *final(self) == (DaemonClient {
                signal: match step {
                    SignalStep::Connect => old(self).signal || good,
                    SignalStep::Send => old(self).signal && good,
                    SignalStep::Over => old(self).signal,
                },
                ..*old(self)
            }),
    {
        match step {
            SignalStep::Connect => {
                if good {
                    self.signal = true;
                    SignalStep::Send
                } else {
                    SignalStep::Over
                }
            },
            SignalStep::Send => {
                if !good {
                    self.signal = false;
                }
                SignalStep::Over
            },
            SignalStep::Over => SignalStep::Over,
        }
    }

    /// The signal that an instance has the focus, with its switches.
    pub fn focus_gained(pid: u32, tid: u32, state: ImeState) -> (r: ToolbarSignal)
        ensures
            r == (ToolbarSignal::FocusGained { pid, tid, state }),
    {
        ToolbarSignal::FocusGained { pid, tid, state }
    }

    /// The signal that an instance has lost the focus.
    pub fn focus_lost(pid: u32, tid: u32) -> (r: ToolbarSignal)
        ensures
            r == (ToolbarSignal::FocusLost { pid, tid }),
    {
        ToolbarSignal::FocusLost { pid, tid }
    }

    /// The signal that the switches of an instance have changed.
    pub fn state_changed(pid: u32, tid: u32, state: ImeState) -> (r: ToolbarSignal)
        ensures
            r == (ToolbarSignal::StateChanged { pid, tid, state }),
    {
        ToolbarSignal::StateChanged { pid, tid, state }
    }
}

/// A dictionary reaches the engine exactly where it is one that the engine does not have and was
/// read whole; what could not be read is tried again at the next look. The settings are loaded
/// again exactly where their epoch differs from the one in force.
pub proof fn law_news_reach_the_engine<D>(c: DaemonClient, s: Segment, read: SegmentRead<D>)
    ensures
        ({
            let r = c.looked(Some(s), read);
            let d = c.polled(Some(s), read);
            &&& r.inject is Some <==> s.version != c.last_version && read is Written
            &&& r.inject matches Some(dict) ==> read == SegmentRead::Written(dict)
            &&& r.reload_config <==> s.config_epoch != c.last_epoch
            &&& r.changed <==> r.inject is Some || r.reload_config
            &&& r.register <==> !c.online
            &&& d.online
            &&& d.last_epoch == s.config_epoch
            &&& read is Written ==> d.last_version == s.version
            &&& !(read is Written) ==> d.last_version == c.last_version
            &&& d.pipe == c.pipe && d.signal == c.signal
        }),
        ({
            let r = c.looked(None::<Segment>, read);
            let d = c.polled(None::<Segment>, read);
            &&& r.inject is None && !r.reload_config && !r.register && !r.changed
            &&& d == (DaemonClient { online: false, ..c })
        }),
{
}

/// A request is sent once, and once more over a new connection where the first broke; where an
/// answer comes, and where no connection can be had, it is over.
pub proof fn law_request_is_tried_twice(stage: RequestStage, event: RequestEvent)
    ensures
        ({
            let next = stage_after(stage, event);
            &&& stage == RequestStage::Connect && event is Connected ==> next == RequestStage::Send
            &&& stage == RequestStage::Connect && !(event is Connected) ==> next
                == RequestStage::Over
            &&& event is Answered && stage != RequestStage::Connect && stage
                != RequestStage::Reconnect ==> next == RequestStage::Over
            &&& stage == RequestStage::Send && event is Broken ==> next == RequestStage::Reconnect
            &&& stage == RequestStage::Reconnect && event is Connected ==> next
                == RequestStage::Resend
            &&& stage == RequestStage::Reconnect && !(event is Connected) ==> next
                == RequestStage::Over
            &&& stage == RequestStage::Resend ==> next == RequestStage::Over
            &&& stage == RequestStage::Over ==> next == RequestStage::Over
        }),
{
}

/// The daemon may be started at once, and again when a minute has gone by.
pub proof fn law_first_start(now: u64, c: LaunchCooldown)
    ensures
        c.due(now) <==> now >= c.last_attempt + 60,
        c.due(now) ==> c.asked(now).last_attempt == now,
        !c.due(now) ==> c.asked(now) == c,
{
}

} // verus!
