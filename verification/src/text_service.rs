//! An instance of the input method in a thread: its switches, its session, and what the system
//! tells it.

use vstd::prelude::*;

use crate::ime::{ImeState, InitialMode, Key, PunctMode, ScriptMode, WidthMode};
use crate::daemon_client::DaemonClient;
use crate::session_bridge;
use crate::session_bridge::{
    dispatch_effect, CaretRect, CompositionState, Dispatched, SessionEnd,
};
use crate::wire;
use crate::wire::{CtlCmd, CtlResult, ToolbarSignal};

verus! {

/// An instance.
#[derive(Clone, Copy, Debug)]
pub struct TextService {
    /// Whether the instance is attached to a thread manager.
    pub attached: bool,
    pub client_id: u32,
    pub event_cookie: u32,
    /// The registration at the switch that opens and closes the input method.
    pub compartment: Option<u32>,
    pub thread_focus_cookie: u32,
    pub profiles: Option<u32>,
    /// Whether a session runs.
    pub session: bool,
    /// Whether text is being composed.
    pub composing: bool,
    pub caret: CaretRect,
    pub english_mode: bool,
    pub lang_bar: bool,
    pub daemon: bool,
    pub remote_registered: bool,
    /// Whether the next quotation mark is a closing one.
    pub punct_quote_open: bool,
    /// The switches.
    pub runtime: ImeState,
    /// Whether commands can reach the instance.
    pub ctl: bool,
}

impl TextService {
    /// Whether English mode and the switch for it agree.
    pub open spec fn mirrored(self) -> bool {
        self.english_mode == (self.runtime.mode == InitialMode::English)
    }

    /// An instance that is attached to nothing, with the switches to start with.
    pub fn new(initial: ImeState) -> (r: TextService)
        ensures
            r == (TextService {
                attached: false,
                client_id: 0,
                event_cookie: 0,
                compartment: None,
                thread_focus_cookie: 0,
                profiles: None,
                session: false,
                composing: false,
                caret: CaretRect { x: 0, y: 0, w: 0, h: 0 },
                english_mode: false,
                lang_bar: false,
                daemon: false,
                remote_registered: false,
                punct_quote_open: false,
                runtime: initial,
                ctl: false,
            }),
    {
        TextService {
            attached: false,
            client_id: 0,
            event_cookie: 0,
            compartment: None,
            thread_focus_cookie: 0,
            profiles: None,
            session: false,
            composing: false,
            caret: CaretRect { x: 0, y: 0, w: 0, h: 0 },
            english_mode: false,
            lang_bar: false,
            daemon: false,
            remote_registered: false,
            punct_quote_open: false,
            runtime: initial,
            ctl: false,
        }
    }

    /// The switches.
    pub fn runtime_snapshot(&self) -> (r: ImeState)
        ensures
            r == self.runtime,
    {
        self.runtime
    }
}

/// What has to be done after a change of the mode.
#[derive(Clone, Copy, Debug, PartialEq, Eq, Structural)]
pub struct ModeChange {
    /// The icon of the language bar is to be drawn anew, if there is one.
    pub refresh_lang_bar: bool,
    /// The switches are to be reported to the daemon, if there is one.
    pub report: Option<ImeState>,
    /// What was typed and not confirmed is to be put into the document as it is.
    pub flush: bool,
}

impl TextService {
    /// The instance after the input method was opened (Chinese) or closed (English).
    pub open spec fn opened(self, open: bool) -> TextService {
        TextService {
            english_mode: !open,
            runtime: ImeState {
                mode: if open {
                    InitialMode::Chinese
                } else {
                    InitialMode::English
                },
                ..self.runtime
            },
            punct_quote_open: false,
            ..self
        }
    }

    /// What opening or closing the input method makes the caller do; nothing where it is open or
    /// closed already.
    pub open spec fn change_on(self, open: bool) -> Option<ModeChange> {
        if self.english_mode == !open {
            None
        } else {
            Some(
                ModeChange {
                    refresh_lang_bar: self.lang_bar,
                    report: if self.daemon {
                        Some(self.opened(open).runtime)
                    } else {
                        None
                    },
                    flush: !open && (self.session || self.composing),
                },
            )
        }
    }

    /// The input method was opened (Chinese) or closed (English). Nothing happens where that is
    /// so already.
    pub fn apply_openclose(&mut self, open: bool) -> (r: Option<ModeChange>)
        ensures
            r == old(self).change_on(open),
            *final(self) == if old(self).english_mode == !open {
                *old(self)
            } else {
                old(self).opened(open)
            },
            old(self).mirrored() ==> final(self).mirrored(),
    {
        if self.english_mode == !open {
            return None;
        }
        self.english_mode = !open;
        self.runtime.mode = if open {
            InitialMode::Chinese
        } else {
            InitialMode::English
        };
        self.punct_quote_open = false;
        Some(
            ModeChange {
                refresh_lang_bar: self.lang_bar,
                report: if self.daemon {
                    Some(self.runtime)
                } else {
                    None
                },
                flush: !open && (self.session || self.composing),
            },
        )
    }

    /// The switch that opens and closes the input method has changed. `value` is what it holds;
    /// one that holds nothing stands for open. Says whether the input method is to be open.
    pub fn on_change(&self, is_openclose: bool, value: Option<bool>) -> (r: Option<bool>)
        ensures
            r == (if is_openclose && self.compartment is Some {
                Some(
                    match value {
                        Some(v) => v,
                        None => true,
                    },
                )
            } else {
                None::<bool>
            }),
    {
        if !is_openclose || self.compartment.is_none() {
            return None;
        }
        match value {
            Some(v) => Some(v),
            None => Some(true),
        }
    }
}

/// How what was typed and not confirmed ends.
#[derive(Debug, PartialEq, Eq)]
pub enum FlushEnd {
    /// There is nothing in the document.
    Nothing,
    /// This text is put into the document.
    Commit(String),
    /// The text is taken out of the document.
    Cancel,
}

/// The switches after a command.
fn changed(state: &ImeState, cmd: CtlCmd) -> (r: ImeState)
    ensures
        r == wire::after_cmd(*state, cmd),
{
    match cmd {
        CtlCmd::SetMode(english) => ImeState {
            mode: if english {
                InitialMode::English
            } else {
                InitialMode::Chinese
            },
            ..*state
        },
        CtlCmd::SetWidth(full) => ImeState {
            width: if full {
                WidthMode::Full
            } else {
                WidthMode::Half
            },
            ..*state
        },
        CtlCmd::SetScript(traditional) => ImeState {
            script: if traditional {
                ScriptMode::Traditional
            } else {
                ScriptMode::Simplified
            },
            ..*state
        },
        CtlCmd::SetPunct(english) => ImeState {
            punct: if english {
                PunctMode::English
            } else {
                PunctMode::Chinese
            },
            ..*state
        },
    }
}

impl TextService {
    /// Ends the session: what was typed is put into the document as it is. `pending` is what was
    /// typed.
    pub fn flush_session(&mut self, pending: Option<&str>) -> (r: FlushEnd)
        ensures
            *final(self) == (TextService { session: false, composing: false, ..*old(self) }),
            !old(self).composing ==> r == FlushEnd::Nothing,
            old(self).composing ==> match pending {
                Some(t) => if t@.len() > 0 {
                    r matches FlushEnd::Commit(s) && s@ == t@
                } else {
                    r == FlushEnd::Cancel
                },
                None => r == FlushEnd::Cancel,
            },
    {
        let end: FlushEnd = if self.composing {
            match pending {
                Some(t) => if t.is_empty() {
                    FlushEnd::Cancel
                } else {
                    FlushEnd::Commit(t.to_owned())
                },
                None => FlushEnd::Cancel,
            }
        } else {
            FlushEnd::Nothing
        };
        self.session = false;
        self.composing = false;
        end
    }

    /// Carries out a command. The mode is set through the switch of the system where that could
    /// be written (`written`): the system reports the change, which `apply_openclose` takes, while
    /// it is written. The other switches are set here.
    /// Gives the answer, and whether the candidates are to be drawn anew and the switches
    /// reported.
    pub fn apply_ctl_cmd(&mut self, cmd: CtlCmd, written: bool) -> (r: (CtlResult, bool))
        ensures
            ({
                let by_system = cmd is SetMode && old(self).compartment is Some && written;
                &&& r.1 == !by_system
                &&& *final(self) == (if by_system {
                    *old(self)
                } else {
                    TextService { runtime: wire::after_cmd(old(self).runtime, cmd), ..*old(self) }
                })
                &&& r.0 == (CtlResult::Applied { state: final(self).runtime })
            }),
    {
        let by_system: bool = match cmd {
            CtlCmd::SetMode(_) => self.compartment.is_some() && written,
            _ => false,
        };
        if !by_system {
            let runtime: ImeState = changed(&self.runtime, cmd);
            self.runtime = runtime;
        }
        (CtlResult::Applied { state: self.runtime }, !by_system)
    }

    /// What follows a change of the switches: the session is drawn anew, if there is one, and
    /// the switches go to the daemon, if there is one.
    pub fn after_runtime_change(&self) -> (r: (bool, Option<ImeState>))
        ensures
            r.0 == self.session,
            r.1 == (if self.daemon {
                Some(self.runtime)
            } else {
                None::<ImeState>
            }),
    {
        (
            self.session,
            if self.daemon {
                Some(self.runtime)
            } else {
                None
            },
        )
    }
}

/// Setting the mode by the switch of the system comes to the same as setting it here: the
/// command asks for the mode that the report of the switch then sets.
pub proof fn law_mode_either_way(s: TextService, english: bool)
    ensures
        s.opened(!english).runtime == wire::after_cmd(s.runtime, CtlCmd::SetMode(english)),
        s.opened(!english).mirrored(),
{
}

/// What is known when an effect is carried out, after the composition was dealt with.
#[derive(Clone, Copy, Debug)]
pub struct EffectFacts {
    /// What there is of the text that is being composed.
    pub comp: CompositionState,
    /// Where the caret was found.
    pub measured: Option<CaretRect>,
    /// Whether there is nothing to show.
    pub empty: bool,
    /// Whether the candidate window shows.
    pub visible: bool,
    /// Whether the program draws the candidates itself.
    pub suppress: bool,
}

impl TextService {
    /// Carries an effect of the session out. At the end of the session it is dropped, with what
    /// was composed.
    pub fn dispatch(&mut self, end: &Option<SessionEnd>, f: &EffectFacts) -> (r: Dispatched)
        ensures
            r == session_bridge::dispatched(
                f.comp,
                *end is Some,
                old(self).caret,
                f.measured,
                f.empty,
                f.visible,
                f.suppress,
            ),
            *final(self) == (TextService {
                caret: session_bridge::caret_after(
                    f.comp,
                    *end is Some,
                    old(self).caret,
                    f.measured,
                ),
                session: old(self).session && !r.ended,
                composing: old(self).composing && !r.ended,
                ..*old(self)
            }),
    {
        let mut caret: CaretRect = self.caret;
        let r: Dispatched = dispatch_effect(
            f.comp,
            end,
            &mut caret,
            f.measured,
            f.empty,
            f.visible,
            f.suppress,
        );
        *self = TextService {
            caret,
            session: self.session && !r.ended,
            composing: self.composing && !r.ended,
            ..*self
        };
        r
    }

    /// The signal for the toolbar when the thread gains or loses the focus.
    pub fn on_thread_focus(&self, gained: bool, pid: u32, tid: u32) -> (r: Option<ToolbarSignal>)
        ensures
            r == (if !self.daemon {
                None::<ToolbarSignal>
            } else if gained {
                Some(ToolbarSignal::FocusGained { pid, tid, state: self.runtime })
            } else {
                Some(ToolbarSignal::FocusLost { pid, tid })
            }),
    {
        if !self.daemon {
            None
        } else if gained {
            Some(DaemonClient::focus_gained(pid, tid, self.runtime))
        } else {
            Some(DaemonClient::focus_lost(pid, tid))
        }
    }
}

/// The key that a click on a candidate stands for: the digit of its row. Past the ninth row
/// there is none.
pub fn click_key(row: usize) -> (r: Option<Key>)
    ensures
        r == (if row < 9 {
            Some(Key::Digit((row + 1) as u8))
        } else {
            None::<Key>
        }),
{
    if row >= 9 {
        return None;
    }
    Some(Key::Digit((row + 1) as u8))
}

/// Whether the loss of the focus is to be reported: the input method was left for another one.
/// `ours` tells whether the message is about this input method.
pub fn on_activated(svc: &TextService, ours: bool, activated: bool) -> (r: bool)
    ensures
        r == (ours && !activated && svc.daemon),
{
    ours && !activated && svc.daemon
}

/// Whether the gain of the focus is to be reported: not in a program whose keys go through.
pub fn signal_focus_gained(svc: &TextService, passthrough: bool) -> (r: Option<ImeState>)
    ensures
        r == (if !passthrough && svc.daemon {
            Some(svc.runtime)
        } else {
            None::<ImeState>
        }),
{
    if passthrough || !svc.daemon {
        None
    } else {
        Some(svc.runtime)
    }
}

/// A step of activating an instance.
#[derive(Clone, Copy, Debug, PartialEq, Eq, Structural)]
pub enum ActivateStep {
    /// Look for the candidate lists of the system.
    AttachElements,
    /// Register for keys.
    AdviseKeys,
    /// Register for the focus of documents.
    AdviseThread,
    /// Find the switch that opens and closes the input method.
    FindCompartment,
    /// Turn it into something to register at.
    CompartmentSource,
    /// Register for its changes.
    AdviseCompartment,
    /// Read it.
    ReadOpenClose,
    /// Write it.
    WriteOpenClose(bool),
    /// Read it again, and open or close the input method accordingly.
    ApplyOpenClose,
    /// Register for the focus of the thread.
    AdviseFocus,
    /// Register for changes of the input method.
    AdviseProfiles,
    /// Start to load the engine, and make the client of the daemon.
    StartEngine,
    /// Put the icon into the language bar.
    MountLangBar,
    /// Report the focus.
    SignalFocus,
    /// Make the instance reachable for commands.
    StartControl,
    /// Start the daemon if it does not run.
    EnsureDaemon,
    Done,
    Failed,
}

/// What came of a step.
#[derive(Clone, Copy, Debug, PartialEq, Eq, Structural)]
pub enum StepResult {
    /// It went well; a registration has this number.
    Good(u32),
    Bad,
    /// The switch holds this, if it holds anything.
    Value(Option<bool>),
}

/// What an activation rests on.
#[derive(Clone, Copy, Debug)]
pub struct ActivateFacts {
    /// Whether the settings start the input method open.
    pub default_open: bool,
    pub engine_ready: bool,
}

/// The step that follows. Only keys, the focus of documents and the source of the switch are
/// indispensable: where they fail, the activation fails.
pub open spec fn step_after(s: ActivateStep, r: StepResult, f: ActivateFacts) -> ActivateStep {
    let bad = r == StepResult::Bad;
    match s {
        ActivateStep::AttachElements => ActivateStep::AdviseKeys,
        ActivateStep::AdviseKeys => if bad {
            ActivateStep::Failed
        } else {
            ActivateStep::AdviseThread
        },
        ActivateStep::AdviseThread => if bad {
            ActivateStep::Failed
        } else {
            ActivateStep::FindCompartment
        },
        ActivateStep::FindCompartment => if bad {
            ActivateStep::AdviseFocus
        } else {
            ActivateStep::CompartmentSource
        },
        ActivateStep::CompartmentSource => if bad {
            ActivateStep::Failed
        } else {
            ActivateStep::AdviseCompartment
        },
        ActivateStep::AdviseCompartment => if bad {
            ActivateStep::AdviseFocus
        } else {
            ActivateStep::ReadOpenClose
        },
        ActivateStep::ReadOpenClose => if r matches StepResult::Value(Some(_)) {
            ActivateStep::ApplyOpenClose
        } else {
            ActivateStep::WriteOpenClose(f.default_open)
        },
        ActivateStep::WriteOpenClose(_) => ActivateStep::ApplyOpenClose,
        ActivateStep::ApplyOpenClose => ActivateStep::AdviseFocus,
        ActivateStep::AdviseFocus => ActivateStep::AdviseProfiles,
        ActivateStep::AdviseProfiles => ActivateStep::StartEngine,
        ActivateStep::StartEngine => ActivateStep::MountLangBar,
        ActivateStep::MountLangBar => ActivateStep::SignalFocus,
        ActivateStep::SignalFocus => ActivateStep::StartControl,
        ActivateStep::StartControl => ActivateStep::EnsureDaemon,
        ActivateStep::EnsureDaemon => ActivateStep::Done,
        ActivateStep::Done => ActivateStep::Done,
        ActivateStep::Failed => ActivateStep::Failed,
    }
}

/// The instance after a step.
pub open spec fn service_after(
    svc: TextService,
    s: ActivateStep,
    r: StepResult,
    f: ActivateFacts,
) -> TextService {
    match s {
        ActivateStep::AdviseThread => match r {
            StepResult::Good(cookie) => TextService { event_cookie: cookie, ..svc },
            _ => svc,
        },
        ActivateStep::AdviseCompartment => match r {
            StepResult::Good(cookie) => TextService { compartment: Some(cookie), ..svc },
            _ => svc,
        },
        ActivateStep::ApplyOpenClose => {
            let open = match r {
                StepResult::Value(Some(v)) => v,
                _ => true,
            };
            if svc.english_mode == !open {
                svc
            } else {
                svc.opened(open)
            }
        },
        ActivateStep::AdviseFocus => match r {
            StepResult::Good(cookie) => TextService { thread_focus_cookie: cookie, ..svc },
            _ => svc,
        },
        ActivateStep::AdviseProfiles => match r {
            StepResult::Good(cookie) => TextService { profiles: Some(cookie), ..svc },
            _ => svc,
        },
        ActivateStep::StartEngine => TextService {
            daemon: true,
            remote_registered: svc.remote_registered || f.engine_ready,
            ..svc
        },
        ActivateStep::MountLangBar => TextService {
            lang_bar: svc.lang_bar || r is Good,
            ..svc
        },
        ActivateStep::StartControl => TextService { ctl: svc.ctl || r is Good, ..svc },
        _ => svc,
    }
}

impl TextService {
    /// Begins to activate the instance for a thread. Gives the first step.
    pub fn begin_activate(&mut self, tid: u32) -> (r: ActivateStep)
        ensures
            *final(self) == (TextService { attached: true, client_id: tid, ..*old(self) }),
            r == ActivateStep::AttachElements,
    {
        self.attached = true;
        self.client_id = tid;
        ActivateStep::AttachElements
    }

    /// Takes what came of a step, and gives the next one. Opening or closing the input method
    /// may come with something to do.
    pub fn activate(
        &mut self,
        step: ActivateStep,
        result: StepResult,
        f: &ActivateFacts,
    ) -> (r: (ActivateStep, Option<ModeChange>))
        ensures
            r.0 == step_after(step, result, *f),
            *final(self) == service_after(*old(self), step, result, *f),
            r.1 == if step == ActivateStep::ApplyOpenClose {
                old(self).change_on(
                    match result {
                        StepResult::Value(Some(v)) => v,
                        _ => true,
                    },
                )
            } else {
                None
            },
            old(self).mirrored() ==> final(self).mirrored(),
    {
        let next: ActivateStep = next_activate_step(step, result, f);
        let change: Option<ModeChange> = match step {
            ActivateStep::ApplyOpenClose => {
                let open: bool = match result {
                    StepResult::Value(Some(v)) => v,
                    _ => true,
                };
                self.apply_openclose(open)
            },
            _ => {
                self.note_step(step, result, f);
                None
            },
        };
        (next, change)
    }

    /// Notes what came of a step that does not open or close the input method.
    fn note_step(&mut self, step: ActivateStep, result: StepResult, f: &ActivateFacts)
        requires
            step != ActivateStep::ApplyOpenClose,
        ensures
            *final(self) == service_after(*old(self), step, result, *f),
    {
        match step {
            ActivateStep::StartEngine => {
                *self = TextService {
                    daemon: true,
                    remote_registered: self.remote_registered || f.engine_ready,
                    ..*self
                };
            },
            _ => {
                if let StepResult::Good(cookie) = result {
                    self.note_success(step, cookie);
                }
            },
        }
    }

    /// Notes that a step went well.
    fn note_success(&mut self, step: ActivateStep, cookie: u32)
        requires
            step != ActivateStep::ApplyOpenClose,
            step != ActivateStep::StartEngine,
        ensures
            forall|f: ActivateFacts|
                *final(self) == #[trigger] service_after(
                    *old(self),
                    step,
                    StepResult::Good(cookie),
                    f,
                ),
    {
        match step {
            ActivateStep::AdviseThread => {
                *self = TextService { event_cookie: cookie, ..*self };
            },
            ActivateStep::AdviseCompartment => {
                *self = TextService { compartment: Some(cookie), ..*self };
            },
            ActivateStep::AdviseFocus => {
                *self = TextService { thread_focus_cookie: cookie, ..*self };
            },
            ActivateStep::AdviseProfiles => {
                *self = TextService { profiles: Some(cookie), ..*self };
            },
            ActivateStep::MountLangBar => {
                *self = TextService { lang_bar: true, ..*self };
            },
            ActivateStep::StartControl => {
                *self = TextService { ctl: true, ..*self };
            },
            _ => {},
        }
    }
}

/// The step of an activation that follows.
fn next_activate_step(step: ActivateStep, result: StepResult, f: &ActivateFacts) -> (r: ActivateStep)
    ensures
        r == step_after(step, result, *f),
{
    let bad: bool = match result {
        StepResult::Bad => true,
        _ => false,
    };
    match step {
        ActivateStep::AttachElements => ActivateStep::AdviseKeys,
        ActivateStep::AdviseKeys => if bad {
            ActivateStep::Failed
        } else {
            ActivateStep::AdviseThread
        },
        ActivateStep::AdviseThread => if bad {
            ActivateStep::Failed
        } else {
            ActivateStep::FindCompartment
        },
        ActivateStep::FindCompartment => if bad {
            ActivateStep::AdviseFocus
        } else {
            ActivateStep::CompartmentSource
        },
        ActivateStep::CompartmentSource => if bad {
            ActivateStep::Failed
        } else {
            ActivateStep::AdviseCompartment
        },
        ActivateStep::AdviseCompartment => if bad {
            ActivateStep::AdviseFocus
        } else {
            ActivateStep::ReadOpenClose
        },
        ActivateStep::ReadOpenClose => match result {
            StepResult::Value(Some(_)) => ActivateStep::ApplyOpenClose,
            _ => ActivateStep::WriteOpenClose(f.default_open),
        },
        ActivateStep::WriteOpenClose(_) => ActivateStep::ApplyOpenClose,
        ActivateStep::ApplyOpenClose => ActivateStep::AdviseFocus,
        ActivateStep::AdviseFocus => ActivateStep::AdviseProfiles,
        ActivateStep::AdviseProfiles => ActivateStep::StartEngine,
        ActivateStep::StartEngine => ActivateStep::MountLangBar,
        ActivateStep::MountLangBar => ActivateStep::SignalFocus,
        ActivateStep::SignalFocus => ActivateStep::StartControl,
        ActivateStep::StartControl => ActivateStep::EnsureDaemon,
        ActivateStep::EnsureDaemon => ActivateStep::Done,
        ActivateStep::Done => ActivateStep::Done,
        ActivateStep::Failed => ActivateStep::Failed,
    }
}

/// How far a step is from the end.
pub open spec fn steps_left(s: ActivateStep) -> nat {
    match s {
        ActivateStep::AttachElements => 16,
        ActivateStep::AdviseKeys => 15,
        ActivateStep::AdviseThread => 14,
        ActivateStep::FindCompartment => 13,
        ActivateStep::CompartmentSource => 12,
        ActivateStep::AdviseCompartment => 11,
        ActivateStep::ReadOpenClose => 10,
        ActivateStep::WriteOpenClose(_) => 9,
        ActivateStep::ApplyOpenClose => 8,
        ActivateStep::AdviseFocus => 7,
        ActivateStep::AdviseProfiles => 6,
        ActivateStep::StartEngine => 5,
        ActivateStep::MountLangBar => 4,
        ActivateStep::SignalFocus => 3,
        ActivateStep::StartControl => 2,
        ActivateStep::EnsureDaemon => 1,
        ActivateStep::Done => 0,
        ActivateStep::Failed => 0,
    }
}

/// An activation ends after at most sixteen steps, and fails only where keys, the focus of
/// documents or the source of the switch could not be had: whatever else is missing, it goes on.
/// The switch is written only where it held nothing.
pub proof fn law_activation(s: ActivateStep, r: StepResult, f: ActivateFacts)
    ensures
        steps_left(s) > 0 ==> steps_left(step_after(s, r, f)) < steps_left(s),
        step_after(s, r, f) == ActivateStep::Failed && s != ActivateStep::Failed ==> r
            == StepResult::Bad && (s == ActivateStep::AdviseKeys || s == ActivateStep::AdviseThread
            || s == ActivateStep::CompartmentSource),
        step_after(s, r, f) is WriteOpenClose ==> s == ActivateStep::ReadOpenClose && !(
        r matches StepResult::Value(Some(_))),
{
}

/// Something to do when an instance is deactivated.
#[derive(Clone, Copy, Debug, PartialEq, Eq, Structural)]
pub enum DeactivateAction {
    HideCandidates,
    ClearElements,
    StopControl,
    ReportFocusLost,
    RemoveLangBar,
    UnadviseCompartment(u32),
    UnadviseFocus(u32),
    UnadviseProfiles(u32),
    UnadviseKeys(u32),
    UnadviseThread(u32),
}

/// Some actions if a condition holds, else none.
pub open spec fn acts(b: bool, a: DeactivateAction) -> Seq<DeactivateAction> {
    if b {
        seq![a]
    } else {
        Seq::empty()
    }
}

/// What deactivating an instance takes, in order: everything that was registered is taken back.
pub open spec fn deactivate_actions(s: TextService) -> Seq<DeactivateAction> {
    seq![DeactivateAction::HideCandidates, DeactivateAction::ClearElements] + acts(
        s.ctl,
        DeactivateAction::StopControl,
    ) + acts(s.daemon, DeactivateAction::ReportFocusLost) + acts(
        s.lang_bar && s.attached,
        DeactivateAction::RemoveLangBar,
    ) + acts(
        s.compartment is Some,
        DeactivateAction::UnadviseCompartment(s.compartment->0),
    ) + acts(
        s.thread_focus_cookie != 0 && s.attached,
        DeactivateAction::UnadviseFocus(s.thread_focus_cookie),
    ) + acts(s.profiles is Some, DeactivateAction::UnadviseProfiles(s.profiles->0)) + acts(
        s.attached,
        DeactivateAction::UnadviseKeys(s.client_id),
    ) + acts(s.attached, DeactivateAction::UnadviseThread(s.event_cookie))
}

impl TextService {
    /// Deactivates the instance: the session is dropped, the switches are kept for when it is
    /// activated again.
    pub fn deactivate(&mut self) -> (r: Vec<DeactivateAction>)
        ensures
            r@ == deactivate_actions(*old(self)),
            *final(self) == (TextService {
                session: false,
                composing: false,
                ctl: false,
                lang_bar: false,
                compartment: None,
                thread_focus_cookie: 0,
                profiles: None,
                ..*old(self)
            }),
    {
        let out: Vec<DeactivateAction> = self.release_list();
        *self = TextService {
            session: false,
            composing: false,
            ctl: false,
            lang_bar: false,
            compartment: None,
            thread_focus_cookie: 0,
            profiles: None,
            ..*self
        };
        out
    }

    /// What deactivating the instance takes.
    fn release_list(&self) -> (r: Vec<DeactivateAction>)
        ensures
            r@ == deactivate_actions(*self),
    {
        let compartment: u32 = match self.compartment {
            Some(cookie) => cookie,
            None => 0,
        };
        let profiles: u32 = match self.profiles {
            Some(cookie) => cookie,
            None => 0,
        };
        let mut out: Vec<DeactivateAction> = Vec::new();
        out.push(DeactivateAction::HideCandidates);
        out.push(DeactivateAction::ClearElements);
        assert(out@ == seq![DeactivateAction::HideCandidates, DeactivateAction::ClearElements]);
        push_if(&mut out, self.ctl, DeactivateAction::StopControl);
        push_if(&mut out, self.daemon, DeactivateAction::ReportFocusLost);
        push_if(&mut out, self.lang_bar && self.attached, DeactivateAction::RemoveLangBar);
        push_if(
            &mut out,
            self.compartment.is_some(),
            DeactivateAction::UnadviseCompartment(compartment),
        );
        push_if(
            &mut out,
            self.thread_focus_cookie != 0 && self.attached,
            DeactivateAction::UnadviseFocus(self.thread_focus_cookie),
        );
        push_if(&mut out, self.profiles.is_some(), DeactivateAction::UnadviseProfiles(profiles));
        push_if(&mut out, self.attached, DeactivateAction::UnadviseKeys(self.client_id));
        push_if(&mut out, self.attached, DeactivateAction::UnadviseThread(self.event_cookie));
        out
    }
}

/// Adds an action to a list if a condition holds.
fn push_if(out: &mut Vec<DeactivateAction>, b: bool, a: DeactivateAction)
    ensures
        final(out)@ == old(out)@ + acts(b, a),
{
    if b {
        out.push(a);
    }
    assert(out@ =~= old(out)@ + acts(b, a));
}

/// How many instances there are, and whether the engine is being loaded.
#[derive(Clone, Copy, Debug, PartialEq, Eq, Structural)]
pub struct Module {
    pub instances: u32,
    /// Whether loading the engine was begun.
    pub load_started: bool,
    /// Whether it ended; then, whether there is an engine.
    pub engine: Option<bool>,
}

impl Module {
    /// How many instances there are.
    pub fn instance_count(&self) -> (r: u32)
        ensures
            r == self.instances,
    {
        self.instances
    }

    /// Whether the engine can be used now, and whether loading it is to be begun: by whoever
    /// needs it first.
    pub fn engine(&mut self) -> (r: (bool, bool))
        ensures
            r.0 == (old(self).engine == Some(true)),
            r.1 == (old(self).engine is None && !old(self).load_started),
            *final(self) == (Module {
                load_started: old(self).load_started || old(self).engine is None,
                ..*old(self)
            }),
    {
        match self.engine {
            Some(ready) => (ready, false),
            None => {
                let start: bool = self.start_engine_load();
                (false, start)
            },
        }
    }

    /// Begins to load the engine; says whether that is to be done now, which it is once.
    pub fn start_engine_load(&mut self) -> (r: bool)
        ensures
            r == !old(self).load_started,
            *final(self) == (Module { load_started: true, ..*old(self) }),
    {
        if self.load_started {
            return false;
        }
        self.load_started = true;
        true
    }

    /// Loading the engine has ended. The first end counts.
    pub fn engine_loaded(&mut self, ready: bool)
        ensures
            *final(self) == (Module {
                engine: match old(self).engine {
                    Some(e) => Some(e),
                    None => Some(ready),
                },
                ..*old(self)
            }),
    {
        if self.engine.is_none() {
            self.engine = Some(ready);
        }
    }

    /// Whether the engine is being loaded.
    pub fn engine_loading(&self) -> (r: bool)
        ensures
            r == (self.load_started && self.engine is None),
    {
        self.load_started && self.engine.is_none()
    }

    /// Whether the module can be unloaded: no instance is left, and nothing is being loaded.
    pub fn can_unload(&self) -> (r: bool)
        ensures
            r == (self.instances == 0 && !(self.load_started && self.engine is None)),
    {
        self.instances == 0 && !self.engine_loading()
    }

    /// An instance was made.
    pub fn instance_made(&mut self)
        requires
            old(self).instances < u32::MAX,
        ensures
            *final(self) == (Module {
                instances: (old(self).instances + 1) as u32,
                ..*old(self)
            }),
    {
        self.instances = self.instances + 1;
    }

    /// An instance is gone.
    pub fn instance_gone(&mut self)
        requires
            old(self).instances > 0,
        ensures
            *final(self) == (Module {
                instances: (old(self).instances - 1) as u32,
                ..*old(self)
            }),
    {
        self.instances = self.instances - 1;
    }
}

/// A step of loading the engine.
#[derive(Clone, Copy, Debug, PartialEq, Eq, Structural)]
pub enum LoadStep {
    /// Load the dictionary.
    LoadDict,
    /// Mount the other engine over the same dictionary.
    MountCore,
    /// Read from the settings which modules do not log.
    ConfigureLog,
    /// Attach the dictionary of the user.
    AttachUserDict,
    /// Load the table for traditional characters.
    LoadScript,
    /// Attach the table, or that there is none.
    AttachScript(bool),
    /// The engine is there.
    Ready,
    /// There is no engine: all keys go through.
    Transparent,
}

/// The step of loading the engine that follows. Only the dictionary is indispensable; without the
/// user's dictionary it starts with an empty one, without the table all output is simplified.
pub open spec fn load_after(step: LoadStep, good: bool, other_core: bool) -> LoadStep {
    match step {
        LoadStep::LoadDict => if !good {
            LoadStep::Transparent
        } else if other_core {
            LoadStep::MountCore
        } else {
            LoadStep::ConfigureLog
        },
        LoadStep::MountCore => LoadStep::ConfigureLog,
        LoadStep::ConfigureLog => LoadStep::AttachUserDict,
        LoadStep::AttachUserDict => LoadStep::LoadScript,
        LoadStep::LoadScript => LoadStep::AttachScript(good),
        LoadStep::AttachScript(_) => LoadStep::Ready,
        LoadStep::Ready => LoadStep::Ready,
        LoadStep::Transparent => LoadStep::Transparent,
    }
}

/// The step of loading the engine that follows. `other_core` tells whether the settings ask for
/// the other engine.
pub fn load_engine(step: LoadStep, good: bool, other_core: bool) -> (r: LoadStep)
    ensures
        r == load_after(step, good, other_core),
{
    match step {
        LoadStep::LoadDict => if !good {
            LoadStep::Transparent
        } else if other_core {
            LoadStep::MountCore
        } else {
            LoadStep::ConfigureLog
        },
        LoadStep::MountCore => LoadStep::ConfigureLog,
        LoadStep::ConfigureLog => LoadStep::AttachUserDict,
        LoadStep::AttachUserDict => LoadStep::LoadScript,
        LoadStep::LoadScript => LoadStep::AttachScript(good),
        LoadStep::AttachScript(_) => LoadStep::Ready,
        LoadStep::Ready => LoadStep::Ready,
        LoadStep::Transparent => LoadStep::Transparent,
    }
}

/// Only a missing dictionary leaves the input method without an engine.
pub proof fn law_engine_loads(step: LoadStep, good: bool, other_core: bool)
    ensures
        load_after(step, good, other_core) == LoadStep::Transparent && step
            != LoadStep::Transparent ==> step == LoadStep::LoadDict && !good,
{
}

/// Opening means Chinese and closing means English, in the mode and in the switches alike; the
/// other switches stay, and quotation marks begin anew. Where it is so already, nothing is to be
/// done. Otherwise the language bar, where there is one, is drawn anew, the daemon, where there is
/// one, hears of the new switches, and what was being typed is flushed exactly on closing.
pub proof fn law_open_and_close(s: TextService, open: bool)
    ensures
        ({
            let t = s.opened(open);
            &&& t.english_mode == !open
            &&& (t.runtime.mode == InitialMode::Chinese) == open
            &&& t.runtime.width == s.runtime.width
            &&& t.runtime.script == s.runtime.script
            &&& t.runtime.punct == s.runtime.punct
            &&& !t.punct_quote_open
            &&& t == (TextService {
                english_mode: t.english_mode,
                runtime: t.runtime,
                punct_quote_open: false,
                ..s
            })
            &&& s.change_on(open) is None <==> s.english_mode != open
            &&& s.change_on(open) matches Some(c) ==> {
                &&& c.refresh_lang_bar == s.lang_bar
                &&& c.report is Some <==> s.daemon
                &&& c.report matches Some(r) ==> r == t.runtime
                &&& c.flush <==> !open && (s.session || s.composing)
            }
            &&& t.change_on(open) is None
        }),
{
}

/// Each step of activating comes after the step that it builds on. Taking keys and hearing of
/// the thread have to succeed; of what tells whether the input method is open, only the source
/// must, and where there is none or it cannot be heard, the rest goes on without it. Everything
/// behind that is done whatever comes of it, down to the daemon.
pub proof fn law_activation_order(s: ActivateStep, r: StepResult, f: ActivateFacts)
    requires
        s != ActivateStep::Done,
        s != ActivateStep::Failed,
    ensures
        ({
            let next = step_after(s, r, f);
            let bad = r == StepResult::Bad;
            &&& next != ActivateStep::AttachElements
            &&& next == ActivateStep::AdviseKeys <==> s == ActivateStep::AttachElements
            &&& next == ActivateStep::AdviseThread <==> s == ActivateStep::AdviseKeys && !bad
            &&& next == ActivateStep::FindCompartment <==> s == ActivateStep::AdviseThread && !bad
            &&& next == ActivateStep::CompartmentSource <==> s == ActivateStep::FindCompartment
                && !bad
            &&& next == ActivateStep::AdviseCompartment <==> s == ActivateStep::CompartmentSource
                && !bad
            &&& next == ActivateStep::ReadOpenClose <==> s == ActivateStep::AdviseCompartment
                && !bad
            &&& next is WriteOpenClose <==> s == ActivateStep::ReadOpenClose && !(
            r matches StepResult::Value(Some(_)))
            &&& next matches ActivateStep::WriteOpenClose(open) ==> open == f.default_open
            &&& next == ActivateStep::ApplyOpenClose <==> s is WriteOpenClose || (s
                == ActivateStep::ReadOpenClose && (r matches StepResult::Value(Some(_))))
            &&& next == ActivateStep::AdviseFocus <==> s == ActivateStep::ApplyOpenClose || (bad
                && (s == ActivateStep::FindCompartment || s == ActivateStep::AdviseCompartment))
            &&& next == ActivateStep::AdviseProfiles <==> s == ActivateStep::AdviseFocus
            &&& next == ActivateStep::StartEngine <==> s == ActivateStep::AdviseProfiles
            &&& next == ActivateStep::MountLangBar <==> s == ActivateStep::StartEngine
            &&& next == ActivateStep::SignalFocus <==> s == ActivateStep::MountLangBar
            &&& next == ActivateStep::StartControl <==> s == ActivateStep::SignalFocus
            &&& next == ActivateStep::EnsureDaemon <==> s == ActivateStep::StartControl
            &&& next == ActivateStep::Done <==> s == ActivateStep::EnsureDaemon
            &&& next == ActivateStep::Failed <==> bad && (s == ActivateStep::AdviseKeys || s
                == ActivateStep::AdviseThread || s == ActivateStep::CompartmentSource)
        }),
{
}

/// What activating was given to hold on to is given back on deactivating, by the same cookie; and
/// what was not given is not.
pub proof fn law_advised_is_taken_back(s: TextService, cookie: u32, f: ActivateFacts)
    ensures
        ({
            let good = StepResult::Good(cookie);
            let heard = service_after(s, ActivateStep::AdviseThread, good, f);
            let opened = service_after(s, ActivateStep::AdviseCompartment, good, f);
            let focus = service_after(s, ActivateStep::AdviseFocus, good, f);
            let profiles = service_after(s, ActivateStep::AdviseProfiles, good, f);
            let bar = service_after(s, ActivateStep::MountLangBar, good, f);
            let control = service_after(s, ActivateStep::StartControl, good, f);
            let engine = service_after(s, ActivateStep::StartEngine, good, f);
            &&& s.attached ==> deactivate_actions(heard).contains(
                DeactivateAction::UnadviseThread(cookie),
            )
            &&& deactivate_actions(opened).contains(DeactivateAction::UnadviseCompartment(cookie))
            &&& s.attached && cookie != 0 ==> deactivate_actions(focus).contains(
                DeactivateAction::UnadviseFocus(cookie),
            )
            &&& deactivate_actions(profiles).contains(DeactivateAction::UnadviseProfiles(cookie))
            &&& s.attached ==> deactivate_actions(bar).contains(DeactivateAction::RemoveLangBar)
            &&& deactivate_actions(control).contains(DeactivateAction::StopControl)
            &&& deactivate_actions(engine).contains(DeactivateAction::ReportFocusLost)
            &&& engine.daemon
            &&& engine.remote_registered == (s.remote_registered || f.engine_ready)
        }),
{
    let good = StepResult::Good(cookie);
    law_deactivation(service_after(s, ActivateStep::AdviseThread, good, f));
    law_deactivation(service_after(s, ActivateStep::AdviseCompartment, good, f));
    law_deactivation(service_after(s, ActivateStep::AdviseFocus, good, f));
    law_deactivation(service_after(s, ActivateStep::AdviseProfiles, good, f));
    law_deactivation(service_after(s, ActivateStep::MountLangBar, good, f));
    law_deactivation(service_after(s, ActivateStep::StartControl, good, f));
    law_deactivation(service_after(s, ActivateStep::StartEngine, good, f));
}

/// Whether deactivating `s` does `y`.
spec fn given_back(s: TextService, y: DeactivateAction) -> bool {
    match y {
        DeactivateAction::HideCandidates | DeactivateAction::ClearElements => true,
        DeactivateAction::StopControl => s.ctl,
        DeactivateAction::ReportFocusLost => s.daemon,
        DeactivateAction::RemoveLangBar => s.lang_bar && s.attached,
        DeactivateAction::UnadviseCompartment(c) => s.compartment == Some(c),
        DeactivateAction::UnadviseFocus(c) => c != 0 && c == s.thread_focus_cookie && s.attached,
        DeactivateAction::UnadviseProfiles(c) => s.profiles == Some(c),
        DeactivateAction::UnadviseKeys(c) => s.attached && c == s.client_id,
        DeactivateAction::UnadviseThread(c) => s.attached && c == s.event_cookie,
    }
}

#[verifier::opaque]
spec fn among(a: Seq<DeactivateAction>, y: DeactivateAction) -> bool {
    a.contains(y)
}

proof fn one_more(a: Seq<DeactivateAction>, done: bool, x: DeactivateAction, y: DeactivateAction)
    ensures
        among(a + acts(done, x), y) <==> among(a, y) || (done && x == y),
{
    reveal(among);
    let all = a + acts(done, x);
    if a.contains(y) {
        let i = choose|i: int| 0 <= i < a.len() && a[i] == y;
        assert(all[i] == y);
    }
    if done {
        assert(all[a.len() as int] == x);
    }
}

proof fn holds_what_is_given_back(s: TextService, y: DeactivateAction)
    ensures
        deactivate_actions(s).contains(y) <==> given_back(s, y),
{
    let a0 = seq![DeactivateAction::HideCandidates, DeactivateAction::ClearElements];
    assert(among(a0, y) <==> y == DeactivateAction::HideCandidates || y
        == DeactivateAction::ClearElements) by {
        reveal(among);
        assert(a0[0] == DeactivateAction::HideCandidates);
        assert(a0[1] == DeactivateAction::ClearElements);
    }
    let a1 = a0 + acts(s.ctl, DeactivateAction::StopControl);
    one_more(a0, s.ctl, DeactivateAction::StopControl, y);
    let a2 = a1 + acts(s.daemon, DeactivateAction::ReportFocusLost);
    one_more(a1, s.daemon, DeactivateAction::ReportFocusLost, y);
    let a3 = a2 + acts(s.lang_bar && s.attached, DeactivateAction::RemoveLangBar);
    one_more(a2, s.lang_bar && s.attached, DeactivateAction::RemoveLangBar, y);
    let compartment = DeactivateAction::UnadviseCompartment(s.compartment->0);
    let a4 = a3 + acts(s.compartment is Some, compartment);
    one_more(a3, s.compartment is Some, compartment, y);
    let focus = DeactivateAction::UnadviseFocus(s.thread_focus_cookie);
    let a5 = a4 + acts(s.thread_focus_cookie != 0 && s.attached, focus);
    one_more(a4, s.thread_focus_cookie != 0 && s.attached, focus, y);
    let profiles = DeactivateAction::UnadviseProfiles(s.profiles->0);
    let a6 = a5 + acts(s.profiles is Some, profiles);
    one_more(a5, s.profiles is Some, profiles, y);
    let a7 = a6 + acts(s.attached, DeactivateAction::UnadviseKeys(s.client_id));
    one_more(a6, s.attached, DeactivateAction::UnadviseKeys(s.client_id), y);
    one_more(a7, s.attached, DeactivateAction::UnadviseThread(s.event_cookie), y);
    assert(among(deactivate_actions(s), y) <==> deactivate_actions(s).contains(y)) by {
        reveal(among);
    }
}

/// Deactivating takes the candidates off in any case, and gives back exactly what is held.
pub proof fn law_deactivation(s: TextService)
    ensures
        ({
            let done = deactivate_actions(s);
            &&& done[0] == DeactivateAction::HideCandidates
            &&& done[1] == DeactivateAction::ClearElements
            &&& done.contains(DeactivateAction::StopControl) <==> s.ctl
            &&& done.contains(DeactivateAction::ReportFocusLost) <==> s.daemon
            &&& done.contains(DeactivateAction::RemoveLangBar) <==> s.lang_bar && s.attached
            &&& s.compartment matches Some(c) ==> done.contains(
                DeactivateAction::UnadviseCompartment(c),
            )
            &&& s.thread_focus_cookie != 0 && s.attached ==> done.contains(
                DeactivateAction::UnadviseFocus(s.thread_focus_cookie),
            )
            &&& s.profiles matches Some(c) ==> done.contains(DeactivateAction::UnadviseProfiles(c))
            &&& s.attached ==> done.contains(DeactivateAction::UnadviseKeys(s.client_id))
            &&& s.attached ==> done.contains(DeactivateAction::UnadviseThread(s.event_cookie))
            &&& forall|c: u32| #[trigger]
                done.contains(DeactivateAction::UnadviseCompartment(c)) ==> s.compartment == Some(c)
            &&& forall|c: u32| #[trigger]
                done.contains(DeactivateAction::UnadviseProfiles(c)) ==> s.profiles == Some(c)
            &&& forall|c: u32| #[trigger]
                done.contains(DeactivateAction::UnadviseFocus(c)) ==> s.thread_focus_cookie == c
                    && s.attached
            &&& forall|c: u32| #[trigger]
                done.contains(DeactivateAction::UnadviseKeys(c)) ==> s.client_id == c && s.attached
            &&& forall|c: u32| #[trigger]
                done.contains(DeactivateAction::UnadviseThread(c)) ==> s.event_cookie == c
                    && s.attached
        }),
{
    assert forall|y: DeactivateAction| #[trigger]
        deactivate_actions(s).contains(y) <==> given_back(s, y) by {
        holds_what_is_given_back(s, y);
    }
}

/// A step of activating that fails leaves the instance as it is, but for the engine, whose daemon
/// is there in any case, and the mode, which is Chinese where it cannot be read. What was being
/// typed, and the caret, no step touches.
pub proof fn law_failed_steps_change_nothing(
    s: TextService,
    step: ActivateStep,
    r: StepResult,
    f: ActivateFacts,
)
    ensures
        ({
            let t = service_after(s, step, r, f);
            &&& r == StepResult::Bad && step != ActivateStep::StartEngine && step
                != ActivateStep::ApplyOpenClose ==> t == s
            &&& t.session == s.session && t.composing == s.composing && t.caret == s.caret
                && t.attached == s.attached && t.client_id == s.client_id
            &&& step != ActivateStep::ApplyOpenClose ==> t.runtime == s.runtime && t.english_mode
                == s.english_mode
            &&& step == ActivateStep::ApplyOpenClose ==> (t.english_mode <==> r
                == StepResult::Value(Some(false)))
            &&& step != ActivateStep::StartEngine ==> t.daemon == s.daemon && t.remote_registered
                == s.remote_registered
        }),
{
}

/// Loading the engine: without a dictionary there is none. With one, everything else is attached
/// in its order, and the engine is ready only then; another core is mounted exactly where one is
/// set, and the table of characters is attached as it could be read.
pub proof fn law_engine_is_attached(step: LoadStep, good: bool, other_core: bool)
    ensures
        ({
            let next = load_after(step, good, other_core);
            &&& step == LoadStep::LoadDict && good ==> next == if other_core {
                LoadStep::MountCore
            } else {
                LoadStep::ConfigureLog
            }
            &&& next == LoadStep::MountCore ==> step == LoadStep::LoadDict && good && other_core
            &&& next == LoadStep::ConfigureLog ==> step == LoadStep::MountCore || (step
                == LoadStep::LoadDict && good && !other_core)
            &&& next == LoadStep::AttachUserDict <==> step == LoadStep::ConfigureLog
            &&& next == LoadStep::LoadScript <==> step == LoadStep::AttachUserDict
            &&& next is AttachScript <==> step == LoadStep::LoadScript
            &&& next matches LoadStep::AttachScript(read) ==> read == good
            &&& next == LoadStep::Ready <==> step is AttachScript || step == LoadStep::Ready
            &&& next == LoadStep::Transparent <==> step == LoadStep::Transparent || (step
                == LoadStep::LoadDict && !good)
        }),
{
}

} // verus!
