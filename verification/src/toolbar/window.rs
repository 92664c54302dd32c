//! The toolbar's window: what each event and each window message does to it.
//!
//! The window keeps its state here and answers with the actions that the caller carries out,
//! in their order, before it hands in the next event.

use vstd::prelude::*;

use std::collections::VecDeque;

use crate::geometry;
use crate::geometry::{clamp_to_work, default_pos, Rect};
use crate::ime::ImeState;
use crate::toolbar::board::{Board, BoardModel, ToolbarInstance};
use crate::toolbar::prefs::ToolbarPref;
use crate::wire::CtlCmd;

verus! {

/// The parts of the toolbar that can be pointed at.
#[derive(Clone, Copy, Debug, PartialEq, Eq, Structural)]
pub enum ToolbarButton {
    Logo,
    Mode,
    Width,
    Punct,
    Script,
    Gear,
}

/// What a button says when the pointer rests on it; the logo says nothing.
pub open spec fn tooltip_of(b: ToolbarButton) -> Option<Seq<char>> {
    match b {
        ToolbarButton::Logo => None,
        ToolbarButton::Mode => Some("中/英"@),
        ToolbarButton::Width => Some("全半角"@),
        ToolbarButton::Punct => Some("中英文标点"@),
        ToolbarButton::Script => Some("简体/繁体"@),
        ToolbarButton::Gear => Some("设置"@),
    }
}

/// What a button says when the pointer rests on it.
pub fn button_tooltip(b: ToolbarButton) -> (r: Option<&'static str>)
    ensures
        r is Some <==> tooltip_of(b) is Some,
        r matches Some(s) ==> tooltip_of(b) == Some(s@),
{
    match b {
        ToolbarButton::Logo => None,
        ToolbarButton::Mode => Some("中/英"),
        ToolbarButton::Width => Some("全半角"),
        ToolbarButton::Punct => Some("中英文标点"),
        ToolbarButton::Script => Some("简体/繁体"),
        ToolbarButton::Gear => Some("设置"),
    }
}

/// What happens to the toolbar from outside.
#[derive(Clone, Copy, Debug, PartialEq, Eq, Structural)]
pub enum BarEvent {
    /// An instance got the focus.
    FocusGained { pid: u32, tid: u32, state: ImeState },
    /// An instance lost the focus.
    FocusLost { pid: u32, tid: u32 },
    /// The switches of an instance changed.
    StateChanged { pid: u32, tid: u32, state: ImeState },
    /// The preference whether the toolbar shows is turned over.
    ToggleVisible,
    /// The shortcuts were saved anew.
    HotkeysChanged,
    /// The settings window begins or ends recording a combination.
    CaptureMode(bool),
    /// Typing began or ended in an instance.
    TypingState { pid: u32, tid: u32, active: bool },
}

/// What the caller has to do.
#[derive(Clone, Copy, Debug, PartialEq, Eq)]
pub enum BarAction {
    /// Start the pet anew for an instance with these switches.
    PetReset(ImeState),
    /// Tell the pet the switches.
    PetState(ImeState),
    /// Tell the pet whether someone types.
    PetTyping(bool),
    /// Tell the pet that it was clicked.
    PetClick,
    /// Move the pet's animation on by some milliseconds.
    PetAdvance(u32),
    /// Run the animation timer if the pet needs it, else stop it.
    SyncPetTimer,
    /// Stop the animation timer.
    KillPetTimer,
    /// Draw the window and show it, without activating it.
    Show,
    /// Draw the window where it stands.
    Repaint,
    /// Hide the window.
    Hide,
    /// Show what a button says.
    TipShow(ToolbarButton),
    /// Hide what a button says.
    TipHide,
    /// Take over the theme of the settings.
    ApplyTheme,
    /// Store the preferences.
    SavePref(ToolbarPref),
    /// Unregister the global hotkeys, then register those of the settings.
    ReregisterHotkeys,
    /// Unregister the global hotkeys.
    UnregisterHotkeys,
    /// Ask the daemon to open the settings.
    OpenSettings,
    /// Ask the daemon to turn the toolbar on or off.
    ToggleToolbar,
    /// Send a command to an instance and hand its answer to `ctl_reply`.
    Control { pid: u32, tid: u32, cmd: CtlCmd },
    /// Send all mouse messages to this window.
    CaptureMouse,
    /// No longer send all mouse messages to this window.
    ReleaseMouse,
    /// Move the window.
    MoveTo(i32, i32),
    /// Ask for a message when the pointer leaves.
    TrackLeave,
    /// Show the hand (`true`) or the arrow.
    SetCursor(bool),
    /// Mark the window as painted.
    Validate,
}

/// The box that the pet is drawn in.
#[derive(Clone, Copy, Debug, PartialEq, Eq, Structural)]
pub struct PetBox {
    pub x: i32,
    pub y: i32,
    pub w: i32,
    pub h: i32,
}

/// Where the parts of the window were drawn last.
#[derive(Clone, Copy, Debug, PartialEq, Eq, Structural)]
pub struct BarFrame {
    pub pet: Option<PetBox>,
    pub toolbar_w: i32,
    pub toolbar_h: i32,
    /// How far the pet stands out above the bar.
    pub overhang: i32,
    /// The radius of the bar's corners.
    pub radius: Option<i32>,
}

/// What a drawing of the window comes to: its size, and what the drawing tells of its parts.
#[derive(Clone, Copy, Debug, PartialEq, Eq, Structural)]
pub struct Drawing {
    pub w: u32,
    pub h: u32,
    pub pet: Option<PetBox>,
    /// The width that is kept for the pet, beside the bar.
    pub pet_zone: i32,
    /// How far the pet stands out above the bar.
    pub overhang: i32,
    /// The radius of the bar's corners.
    pub radius: Option<i32>,
}

impl Drawing {
    /// Whether the drawing can be shown: its sizes are those of a picture on the screen.
    pub open spec fn wf(self) -> bool {
        &&& self.w <= i32::MAX
        &&& self.h <= i32::MAX
        &&& self.pet_zone >= 0
        &&& self.overhang >= 0
    }
}

/// The parts of a drawing: the bar has the width beside the pet and the height below the
/// overhang.
pub open spec fn parts(d: Drawing) -> BarFrame {
    BarFrame {
        pet: d.pet,
        toolbar_w: (d.w - d.pet_zone) as i32,
        toolbar_h: (d.h - d.overhang) as i32,
        overhang: d.overhang,
        radius: d.radius,
    }
}

/// The toolbar's window.
pub struct ToolbarWindow {
    pub board: Board,
    pub shown: bool,
    pub hover: Option<ToolbarButton>,
    pub pressed: Option<ToolbarButton>,
    /// The pointer's place relative to the window while it is dragged.
    pub drag: Option<(i32, i32)>,
    /// Where the pet was pressed, until the button is let go or the window is dragged.
    pub pet_down: Option<(i32, i32)>,
    pub frame: BarFrame,
}

/// The window as it is seen.
#[verifier::ext_equal]
pub struct WindowModel {
    pub board: BoardModel,
    pub shown: bool,
    pub hover: Option<ToolbarButton>,
    pub pressed: Option<ToolbarButton>,
    pub drag: Option<(i32, i32)>,
    pub pet_down: Option<(i32, i32)>,
    pub frame: BarFrame,
}

impl View for ToolbarWindow {
    type V = WindowModel;

    open spec fn view(&self) -> WindowModel {
        WindowModel {
            board: self.board@,
            shown: self.shown,
            hover: self.hover,
            pressed: self.pressed,
            drag: self.drag,
            pet_down: self.pet_down,
            frame: self.frame,
        }
    }
}

/// Some actions if a condition holds, else none.
pub open spec fn given(b: bool, actions: Seq<BarAction>) -> Seq<BarAction> {
    if b {
        actions
    } else {
        Seq::empty()
    }
}

/// What showing the window takes; nothing where it cannot be drawn.
pub open spec fn show_actions(ready: bool) -> Seq<BarAction> {
    given(ready, seq![BarAction::Show, BarAction::SyncPetTimer])
}

/// What hiding the window takes.
pub open spec fn hide_actions() -> Seq<BarAction> {
    seq![BarAction::TipHide, BarAction::KillPetTimer, BarAction::Hide]
}

impl WindowModel {
    /// The window hidden: nothing hovered, pressed or held.
    pub open spec fn hidden(self) -> WindowModel {
        WindowModel { shown: false, hover: None, pressed: None, pet_down: None, ..self }
    }

    /// Whether the window may be drawn anew: it shows and is not being dragged.
    pub open spec fn idle(self) -> bool {
        self.shown && self.drag is None
    }

    /// A window only shows while the preference allows it and an instance is bound.
    pub open spec fn wf(self) -> bool {
        self.shown ==> self.board.visible && self.board.focused is Some
    }

    /// The preferences to store.
    pub open spec fn pref(self) -> ToolbarPref {
        ToolbarPref { visible: self.board.visible, pos: self.board.pos }
    }
}

/// The window after an event. `settings_open` tells whether the settings window is open,
/// `ready` whether the toolbar can be drawn.
pub open spec fn after_event(
    m: WindowModel,
    ev: BarEvent,
    settings_open: bool,
    ready: bool,
) -> WindowModel {
    match ev {
        BarEvent::FocusGained { pid, tid, state } => WindowModel {
            board: BoardModel {
                focused: Some((pid, tid)),
                ..m.board.with_instance((pid, tid), ToolbarInstance { state, active: true })
            },
            shown: m.shown || (m.board.visible && ready),
            ..m
        },
        BarEvent::FocusLost { pid, tid } => if settings_open {
            m
        } else {
            let board = m.board.with_active((pid, tid), false);
            if m.board.focused == Some((pid, tid)) {
                let unbound = WindowModel { board: BoardModel { focused: None, ..board }, ..m };
                if m.shown {
                    unbound.hidden()
                } else {
                    unbound
                }
            } else {
                WindowModel { board, ..m }
            }
        },
        BarEvent::StateChanged { pid, tid, state } => WindowModel {
            board: m.board.with_state((pid, tid), state),
            ..m
        },
        BarEvent::ToggleVisible => {
            let turned = WindowModel {
                board: BoardModel { visible: !m.board.visible, ..m.board },
                ..m
            };
            if m.board.visible {
                if m.shown {
                    turned.hidden()
                } else {
                    turned
                }
            } else {
                WindowModel { shown: m.shown || (m.board.bound_active() && ready), ..turned }
            }
        },
        _ => m,
    }
}

/// What an event makes the caller do.
pub open spec fn event_actions(
    m: WindowModel,
    ev: BarEvent,
    settings_open: bool,
    ready: bool,
) -> Seq<BarAction> {
    match ev {
        BarEvent::FocusGained { pid, tid, state } => {
            let same = m.board.focused == Some((pid, tid));
            let pet = if same {
                seq![BarAction::PetState(state), BarAction::SyncPetTimer]
            } else {
                seq![BarAction::PetReset(state), BarAction::KillPetTimer]
            };
            let display = if !m.board.visible {
                Seq::empty()
            } else if !m.shown {
                show_actions(ready)
            } else if !same && m.drag is None {
                seq![BarAction::Repaint, BarAction::SyncPetTimer]
            } else {
                seq![BarAction::SyncPetTimer]
            };
            pet + display
        },
        BarEvent::FocusLost { pid, tid } => given(
            !settings_open && m.board.focused == Some((pid, tid)) && m.shown,
            hide_actions(),
        ),
        BarEvent::StateChanged { pid, tid, state } => {
            let bound = m.board.focused == Some((pid, tid));
            given(bound, seq![BarAction::PetState(state)]) + given(
                bound && m.idle(),
                seq![BarAction::Repaint],
            ) + seq![BarAction::SyncPetTimer]
        },
        BarEvent::ToggleVisible => seq![
            BarAction::SavePref(ToolbarPref { visible: !m.board.visible, pos: m.board.pos }),
        ] + (if m.board.visible {
            given(m.shown, hide_actions())
        } else {
            given(m.board.bound_active() && !m.shown, show_actions(ready))
        }),
        BarEvent::HotkeysChanged => seq![BarAction::ReregisterHotkeys],
        BarEvent::CaptureMode(recording) => if recording {
            seq![BarAction::UnregisterHotkeys]
        } else {
            seq![BarAction::ReregisterHotkeys]
        },
        BarEvent::TypingState { pid, tid, active } => given(
            m.board.focused == Some((pid, tid)),
            seq![BarAction::PetTyping(active), BarAction::SyncPetTimer] + given(
                m.idle(),
                seq![BarAction::Repaint],
            ),
        ),
    }
}

/// The window after a queue of events.
pub open spec fn after_events(
    m: WindowModel,
    evs: Seq<BarEvent>,
    settings_open: bool,
    ready: bool,
) -> WindowModel
    decreases evs.len(),
{
    if evs.len() == 0 {
        m
    } else {
        after_event(
            after_events(m, evs.drop_last(), settings_open, ready),
            evs.last(),
            settings_open,
            ready,
        )
    }
}

/// What a queue of events makes the caller do, event by event.
pub open spec fn events_actions(
    m: WindowModel,
    evs: Seq<BarEvent>,
    settings_open: bool,
    ready: bool,
) -> Seq<BarAction>
    decreases evs.len(),
{
    if evs.len() == 0 {
        Seq::empty()
    } else {
        events_actions(m, evs.drop_last(), settings_open, ready) + event_actions(
            after_events(m, evs.drop_last(), settings_open, ready),
            evs.last(),
            settings_open,
            ready,
        )
    }
}

/// Whether an instance is the given one.
fn is_instance(id: Option<(u32, u32)>, pid: u32, tid: u32) -> (r: bool)
    ensures
        r == (id == Some((pid, tid))),
{
    match id {
        Some((p, t)) => p == pid && t == tid,
        None => false,
    }
}

/// A window that does not show yet: nothing is hovered, pressed, dragged or drawn, and no
/// instance is known.
pub open spec fn fresh_window(pref: ToolbarPref) -> WindowModel {
    WindowModel {
        board: BoardModel {
            instances: Map::empty(),
            focused: None,
            visible: pref.visible,
            pos: pref.pos,
        },
        shown: false,
        hover: None,
        pressed: None,
        drag: None,
        pet_down: None,
        frame: BarFrame { pet: None, toolbar_w: 0, toolbar_h: 0, overhang: 0, radius: None },
    }
}

impl ToolbarWindow {
    /// A window that does not show yet.
    pub fn new(pref: ToolbarPref) -> (r: ToolbarWindow)
        ensures
            r@ == fresh_window(pref),
            r@.wf(),
            r@.pref() == pref,
    {
        ToolbarWindow {
            board: Board::new(pref),
            shown: false,
            hover: None,
            pressed: None,
            drag: None,
            pet_down: None,
            frame: BarFrame { pet: None, toolbar_w: 0, toolbar_h: 0, overhang: 0, radius: None },
        }
    }

    /// Takes over where a drawing has put the parts, and gives its size. An empty drawing is
    /// not taken over, and there is nothing to show.
    pub fn frame(&mut self, d: &Drawing) -> (r: Option<(i32, i32)>)
        requires
            d.wf(),
        ensures
            ({
                let empty = d.w == 0 || d.h == 0;
                &&& r == if empty {
                    None::<(i32, i32)>
                } else {
                    Some((d.w as i32, d.h as i32))
                }
                &&& final(self)@ == if empty {
                    old(self)@
                } else {
                    WindowModel { frame: parts(*d), ..old(self)@ }
                }
            }),
    {
        if d.w == 0 || d.h == 0 {
            return None;
        }
        let w: i32 = d.w as i32;
        let h: i32 = d.h as i32;
        self.frame = BarFrame {
            pet: d.pet,
            toolbar_w: w - d.pet_zone,
            toolbar_h: h - d.overhang,
            overhang: d.overhang,
            radius: d.radius,
        };
        Some((w, h))
    }

    /// Draws the window if it shows.
    pub(crate) fn repaint(&self, out: &mut Vec<BarAction>)
        ensures
            final(out)@ == old(out)@ + given(self@.shown, seq![BarAction::Repaint]),
    {
        if self.shown {
            out.push(BarAction::Repaint);
        }
        assert(out@ =~= old(out)@ + given(self@.shown, seq![BarAction::Repaint]));
    }

    fn conceal(&mut self, out: &mut Vec<BarAction>)
        ensures
            final(self)@ == old(self)@.hidden(),
            final(out)@ == old(out)@ + hide_actions(),
    {
        self.shown = false;
        self.hover = None;
        self.pressed = None;
        self.pet_down = None;
        out.push(BarAction::TipHide);
        out.push(BarAction::KillPetTimer);
        out.push(BarAction::Hide);
        assert(out@ =~= old(out)@ + hide_actions());
    }

    fn show(&mut self, ready: bool, out: &mut Vec<BarAction>)
        ensures
            final(self)@ == (WindowModel { shown: old(self)@.shown || ready, ..old(self)@ }),
            final(out)@ == old(out)@ + show_actions(ready),
    {
        if ready {
            self.shown = true;
            out.push(BarAction::Show);
            out.push(BarAction::SyncPetTimer);
        }
        assert(out@ =~= old(out)@ + show_actions(ready));
    }

    /// Takes one event: the instance that has the focus is bound and shown, one that loses it
    /// is unbound and hidden.
    pub fn apply_event(
        &mut self,
        ev: BarEvent,
        settings_open: bool,
        ready: bool,
        out: &mut Vec<BarAction>,
    )
        ensures
            final(self)@ == after_event(old(self)@, ev, settings_open, ready),
            final(out)@ == old(out)@ + event_actions(old(self)@, ev, settings_open, ready),
            old(self)@.wf() ==> final(self)@.wf(),
    {
        let ghost m = self@;
        let ghost before = out@;
        match ev {
            BarEvent::FocusGained { pid, tid, state } => {
                let same: bool = is_instance(self.board.focused(), pid, tid);
                let wanted: bool = self.board.visible();
                self.board.put(pid, tid, ToolbarInstance { state, active: true });
                self.board.bind(Some((pid, tid)));
                if same {
                    out.push(BarAction::PetState(state));
                    out.push(BarAction::SyncPetTimer);
                } else {
                    out.push(BarAction::PetReset(state));
                    out.push(BarAction::KillPetTimer);
                }
                if wanted {
                    if !self.shown {
                        self.show(ready, out);
                    } else if !same && self.drag.is_none() {
                        out.push(BarAction::Repaint);
                        out.push(BarAction::SyncPetTimer);
                    } else {
                        out.push(BarAction::SyncPetTimer);
                    }
                }
            },
            BarEvent::FocusLost { pid, tid } => {
                if !settings_open {
                    self.board.set_active(pid, tid, false);
                    if is_instance(self.board.focused(), pid, tid) {
                        self.board.bind(None);
                        if self.shown {
                            self.conceal(out);
                        }
                    }
                }
            },
            BarEvent::StateChanged { pid, tid, state } => {
                self.board.set_state(pid, tid, state);
                let bound: bool = is_instance(self.board.focused(), pid, tid);
                if bound {
                    out.push(BarAction::PetState(state));
                }
                if bound && self.shown && self.drag.is_none() {
                    out.push(BarAction::Repaint);
                }
                out.push(BarAction::SyncPetTimer);
            },
            BarEvent::ToggleVisible => {
                let visible: bool = !self.board.visible();
                self.board.set_visible(visible);
                out.push(BarAction::SavePref(ToolbarPref { visible, pos: self.board.pos() }));
                if !visible {
                    if self.shown {
                        self.conceal(out);
                    }
                } else if self.board.bound_active() && !self.shown {
                    self.show(ready, out);
                }
            },
            BarEvent::HotkeysChanged => {
                out.push(BarAction::ReregisterHotkeys);
            },
            BarEvent::CaptureMode(recording) => {
                if recording {
                    out.push(BarAction::UnregisterHotkeys);
                } else {
                    out.push(BarAction::ReregisterHotkeys);
                }
            },
            BarEvent::TypingState { pid, tid, active } => {
                if is_instance(self.board.focused(), pid, tid) {
                    out.push(BarAction::PetTyping(active));
                    out.push(BarAction::SyncPetTimer);
                    if self.shown && self.drag.is_none() {
                        out.push(BarAction::Repaint);
                    }
                }
            },
        }
        assert(self@ =~= after_event(m, ev, settings_open, ready));
        assert(out@ =~= before + event_actions(m, ev, settings_open, ready));
    }
}

/// What a refresh makes the caller do: take over a changed theme, then work off the queue, then
/// draw the window if it shows and is not being dragged.
pub open spec fn refresh_actions(
    m: WindowModel,
    evs: Seq<BarEvent>,
    theme_changed: bool,
    settings_open: bool,
    ready: bool,
) -> Seq<BarAction> {
    given(theme_changed, seq![BarAction::ApplyTheme]) + events_actions(m, evs, settings_open, ready)
        + given(after_events(m, evs, settings_open, ready).idle(), seq![BarAction::Repaint])
}

impl ToolbarWindow {
    /// Works off the queue, first come first served, until it is empty.
    pub fn drain_requests(
        &mut self,
        queue: &mut VecDeque<BarEvent>,
        settings_open: bool,
        ready: bool,
        out: &mut Vec<BarAction>,
    )
        ensures
            final(queue)@ == Seq::<BarEvent>::empty(),
            final(self)@ == after_events(old(self)@, old(queue)@, settings_open, ready),
            final(out)@ == old(out)@ + events_actions(
                old(self)@,
                old(queue)@,
                settings_open,
                ready,
            ),
            old(self)@.wf() ==> final(self)@.wf(),
    {
        let ghost m = self@;
        let ghost evs = queue@;
        let ghost before = out@;
        let ghost mut k: int = 0;
        assert(evs.take(0) =~= Seq::empty());
        assert(evs.skip(0) =~= evs);
        assert(before + Seq::<BarAction>::empty() =~= before);
        while queue.len() > 0
            invariant
                0 <= k <= evs.len(),
                queue@ == evs.skip(k),
                self@ == after_events(m, evs.take(k), settings_open, ready),
                out@ == before + events_actions(m, evs.take(k), settings_open, ready),
                m.wf() ==> self@.wf(),
            decreases evs.len() - k,
        {
            if let Some(ev) = queue.pop_front() {
                let ghost so_far = out@;
                assert(ev == evs[k]);
                assert(evs.take(k + 1).drop_last() =~= evs.take(k));
                assert(evs.take(k + 1).last() == ev);
                self.apply_event(ev, settings_open, ready, out);
                assert(out@ =~= before + events_actions(
                    m,
                    evs.take(k + 1),
                    settings_open,
                    ready,
                ));
                assert(queue@ =~= evs.skip(k + 1));
                proof {
                    k = k + 1;
                }
            }
        }
        assert(k == evs.len());
        assert(evs.take(k) =~= evs);
        assert(queue@ =~= Seq::empty());
    }

    /// Takes over a changed theme, works off the queue and draws the window.
    pub fn reconcile(
        &mut self,
        queue: &mut VecDeque<BarEvent>,
        theme_changed: bool,
        settings_open: bool,
        ready: bool,
        out: &mut Vec<BarAction>,
    )
        ensures
            final(queue)@ == Seq::<BarEvent>::empty(),
            final(self)@ == after_events(old(self)@, old(queue)@, settings_open, ready),
            final(out)@ == old(out)@ + refresh_actions(
                old(self)@,
                old(queue)@,
                theme_changed,
                settings_open,
                ready,
            ),
            old(self)@.wf() ==> final(self)@.wf(),
    {
        let ghost m = self@;
        let ghost evs = queue@;
        let ghost before = out@;
        if theme_changed {
            out.push(BarAction::ApplyTheme);
        }
        self.drain_requests(queue, settings_open, ready, out);
        if self.shown && self.drag.is_none() {
            out.push(BarAction::Repaint);
        }
        assert(out@ =~= before + refresh_actions(m, evs, theme_changed, settings_open, ready));
    }

    /// Where the window goes when it is shown: the remembered place kept inside the work area
    /// around it, or the corner of the main screen. `area` is the work area at that place.
    pub fn show_position(&self, w: i32, h: i32, area: Option<Rect>) -> (r: (i32, i32))
        ensures
            ({
                let a = geometry::area_or_fallback(area);
                match self@.board.pos {
                    Some((x, y)) => {
                        &&& r.0 == geometry::saturated(
                            geometry::kept_inside(
                                x as int,
                                w as int,
                                a.left as int,
                                a.right as int,
                            ),
                        )
                        &&& r.1 == geometry::saturated(
                            geometry::kept_inside(
                                y as int,
                                h as int,
                                a.top as int,
                                a.bottom as int,
                            ),
                        )
                    },
                    None => {
                        &&& r.0 == geometry::saturated(
                            a.right - w - geometry::DEFAULT_MARGIN,
                        )
                        &&& r.1 == geometry::saturated(
                            a.bottom - h - geometry::DEFAULT_MARGIN,
                        )
                    },
                }
            }),
    {
        match self.board.pos() {
            Some((x, y)) => clamp_to_work(x, y, w, h, area),
            None => default_pos(w, h, area),
        }
    }
}

/// The widths of the bar and of the pet's zone make up the drawing's, and so do the heights of
/// the bar and of what stands out above it.
pub proof fn law_parts_fill_drawing(d: Drawing)
    requires
        d.wf(),
    ensures
        parts(d).toolbar_w + d.pet_zone == d.w,
        parts(d).toolbar_h + parts(d).overhang == d.h,
{
}

/// Turning the preference over twice leaves the table as it was.
pub proof fn law_toggle_twice(m: WindowModel, settings_open: bool, ready: bool)
    ensures
        after_event(
            after_event(m, BarEvent::ToggleVisible, settings_open, ready),
            BarEvent::ToggleVisible,
            settings_open,
            ready,
        ).board == m.board,
{
    assert(after_event(
        after_event(m, BarEvent::ToggleVisible, settings_open, ready),
        BarEvent::ToggleVisible,
        settings_open,
        ready,
    ).board =~= m.board);
}

/// When the focus goes from one instance to another, the two messages about it may come in
/// either order: the toolbar ends up bound to the same instance, with the same table. Where it
/// can be drawn, it shows or does not show alike.
pub proof fn law_focus_order(
    m: WindowModel,
    a: (u32, u32),
    b: (u32, u32),
    state: ImeState,
    settings_open: bool,
    ready: bool,
)
    requires
        a != b,
        m.board.focused == Some(a),
    ensures
        ({
            let lost = BarEvent::FocusLost { pid: a.0, tid: a.1 };
            let gained = BarEvent::FocusGained { pid: b.0, tid: b.1, state };
            let one = after_events(m, seq![gained, lost], settings_open, ready);
            let other = after_events(m, seq![lost, gained], settings_open, ready);
            &&& one.board == other.board
            &&& one.board.focused == Some(b)
            &&& m.wf() && ready ==> one.shown == other.shown && one.shown == m.board.visible
        }),
{
    let lost = BarEvent::FocusLost { pid: a.0, tid: a.1 };
    let gained = BarEvent::FocusGained { pid: b.0, tid: b.1, state };
    reveal_with_fuel(after_events, 3);
    assert(seq![gained, lost].drop_last() =~= seq![gained]);
    assert(seq![lost, gained].drop_last() =~= seq![lost]);
    assert(seq![gained].drop_last() =~= Seq::empty());
    assert(seq![lost].drop_last() =~= Seq::empty());
    let one = after_events(m, seq![gained, lost], settings_open, ready);
    let other = after_events(m, seq![lost, gained], settings_open, ready);
    assert(one.board.instances =~= other.board.instances);
}

/// Events are worked off one after the other: a queue does what its first part does, followed
/// by what the rest does.
pub proof fn law_events_in_order(
    m: WindowModel,
    first: Seq<BarEvent>,
    rest: Seq<BarEvent>,
    settings_open: bool,
    ready: bool,
)
    ensures
        after_events(m, first + rest, settings_open, ready) == after_events(
            after_events(m, first, settings_open, ready),
            rest,
            settings_open,
            ready,
        ),
        events_actions(m, first + rest, settings_open, ready) == events_actions(
            m,
            first,
            settings_open,
            ready,
        ) + events_actions(
            after_events(m, first, settings_open, ready),
            rest,
            settings_open,
            ready,
        ),
    decreases rest.len(),
{
    if rest.len() == 0 {
        assert(first + rest =~= first);
        assert(events_actions(m, first, settings_open, ready) + Seq::empty() =~= events_actions(
            m,
            first,
            settings_open,
            ready,
        ));
    } else {
        law_events_in_order(m, first, rest.drop_last(), settings_open, ready);
        assert((first + rest).drop_last() =~= first + rest.drop_last());
        assert((first + rest).last() == rest.last());
        assert(events_actions(m, first + rest, settings_open, ready) =~= events_actions(
            m,
            first,
            settings_open,
            ready,
        ) + events_actions(
            after_events(m, first, settings_open, ready),
            rest,
            settings_open,
            ready,
        ));
    }
}

/// Whatever happens, a window shows only while the preference allows it and an instance is
/// bound.
pub proof fn law_shows_only_when_wanted(
    m: WindowModel,
    evs: Seq<BarEvent>,
    settings_open: bool,
    ready: bool,
)
    requires
        m.wf(),
    ensures
        after_events(m, evs, settings_open, ready).wf(),
    decreases evs.len(),
{
    if evs.len() > 0 {
        law_shows_only_when_wanted(m, evs.drop_last(), settings_open, ready);
    }
}

/// An instance that gains the focus is bound, with its switches, and marked active; no other
/// instance changes. The toolbar shows afterwards where it did already, or where it may show and
/// can be drawn.
pub proof fn law_focus_binds(
    m: WindowModel,
    id: (u32, u32),
    state: ImeState,
    other: (u32, u32),
    settings_open: bool,
    ready: bool,
)
    ensures
        ({
            let ev = BarEvent::FocusGained { pid: id.0, tid: id.1, state };
            let n = after_event(m, ev, settings_open, ready);
            &&& n.board.focused == Some(id)
            &&& n.board.instances.contains_key(id)
            &&& n.board.instances[id].state == state
            &&& n.board.instances[id].active
            &&& n.board.focused_state() == state
            &&& other != id ==> n.board.instances.contains_key(other)
                == m.board.instances.contains_key(other) && n.board.instances[other]
                == m.board.instances[other]
            &&& n.shown == (m.shown || (m.board.visible && ready))
            &&& n.pref() == m.pref()
            &&& n.hover == m.hover && n.pressed == m.pressed && n.drag == m.drag && n.pet_down
                == m.pet_down && n.frame == m.frame
        }),
{
}

/// The bound instance that loses the focus is unbound, and the toolbar goes off the screen with
/// all that was begun with the pointer; another one that loses it changes nothing but its own
/// mark. While the settings are open nothing happens.
pub proof fn law_focus_lost(
    m: WindowModel,
    id: (u32, u32),
    other: (u32, u32),
    settings_open: bool,
    ready: bool,
)
    ensures
        ({
            let ev = BarEvent::FocusLost { pid: id.0, tid: id.1 };
            let n = after_event(m, ev, settings_open, ready);
            let bound = m.board.focused == Some(id);
            &&& settings_open ==> n == m
            &&& !settings_open && bound ==> n.board.focused is None && !n.shown
            &&& !settings_open && bound && m.shown ==> n.hover is None && n.pressed is None
                && n.pet_down is None
            &&& !bound ==> n.board.focused == m.board.focused && n.shown == m.shown && n.hover
                == m.hover && n.pressed == m.pressed
            &&& !settings_open && m.board.instances.contains_key(id) ==> {
                &&& n.board.instances.contains_key(id)
                &&& !n.board.instances[id].active
                &&& n.board.instances[id].state == m.board.instances[id].state
            }
            &&& other != id ==> n.board.instances.contains_key(other)
                == m.board.instances.contains_key(other) && n.board.instances[other]
                == m.board.instances[other]
            &&& n.pref() == m.pref()
            &&& n.drag == m.drag && n.frame == m.frame
        }),
{
}

/// Switches that change are taken over for their instance, if it is in the table, and for no
/// other.
pub proof fn law_switches_taken_over(
    m: WindowModel,
    id: (u32, u32),
    state: ImeState,
    other: (u32, u32),
    settings_open: bool,
    ready: bool,
)
    ensures
        ({
            let ev = BarEvent::StateChanged { pid: id.0, tid: id.1, state };
            let n = after_event(m, ev, settings_open, ready);
            &&& m.board.instances.contains_key(id) ==> n.board.instances[id].state == state
                && n.board.instances[id].active == m.board.instances[id].active
            &&& n.board.instances.dom() =~= m.board.instances.dom()
            &&& other != id ==> n.board.instances[other] == m.board.instances[other]
            &&& n.board.focused == m.board.focused
            &&& n.pref() == m.pref()
            &&& n.shown == m.shown
        }),
{
}

/// The preference is turned over, and nothing in the table else. A toolbar that shows goes off
/// with it; one that does not comes up where an active instance is bound and it can be drawn.
pub proof fn law_preference_turned_over(m: WindowModel, settings_open: bool, ready: bool)
    ensures
        ({
            let n = after_event(m, BarEvent::ToggleVisible, settings_open, ready);
            &&& n.board.visible == !m.board.visible
            &&& n.board.pos == m.board.pos
            &&& n.board.focused == m.board.focused
            &&& n.board.instances == m.board.instances
            &&& m.board.visible ==> !n.shown
            &&& !m.board.visible && !m.shown ==> n.shown == (ready && m.board.bound_active())
            &&& m.board.bound_active() <==> (m.board.focused is Some
                && m.board.instances.contains_key(m.board.focused->0)
                && m.board.instances[m.board.focused->0].active)
        }),
{
}

/// The events about hotkeys and about typing leave the window as it is.
pub proof fn law_quiet_events(m: WindowModel, ev: BarEvent, settings_open: bool, ready: bool)
    requires
        ev is HotkeysChanged || ev is CaptureMode || ev is TypingState,
    ensures
        after_event(m, ev, settings_open, ready) == m,
{
}

/// The screen follows the state, whatever the event: the window is put up exactly where it comes
/// to show, and taken off exactly where it ceases to. The preferences are stored exactly where
/// they change, as they are then.
pub proof fn law_screen_follows_state(
    m: WindowModel,
    ev: BarEvent,
    settings_open: bool,
    ready: bool,
)
    ensures
        ({
            let n = after_event(m, ev, settings_open, ready);
            let done = event_actions(m, ev, settings_open, ready);
            &&& done.contains(BarAction::Show) <==> !m.shown && n.shown
            &&& done.contains(BarAction::Hide) <==> m.shown && !n.shown
            &&& done.contains(BarAction::SavePref(n.pref())) <==> n.pref() != m.pref()
            &&& forall|p: ToolbarPref| #[trigger]
                done.contains(BarAction::SavePref(p)) ==> p == n.pref()
            &&& done.contains(BarAction::Hide) ==> done.contains(BarAction::TipHide)
                && done.contains(BarAction::KillPetTimer)
        }),
{
    let n = after_event(m, ev, settings_open, ready);
    let done = event_actions(m, ev, settings_open, ready);
    match ev {
        BarEvent::FocusGained { pid, tid, state } => {
            if m.board.visible && !m.shown && ready {
                assert(done[2] == BarAction::Show);
            }
        },
        BarEvent::FocusLost { pid, tid } => {
            if m.shown && !n.shown {
                assert(done[0] == BarAction::TipHide);
                assert(done[1] == BarAction::KillPetTimer);
                assert(done[2] == BarAction::Hide);
            }
        },
        BarEvent::ToggleVisible => {
            assert(done[0] == BarAction::SavePref(n.pref()));
            if m.shown && !n.shown {
                assert(done[1] == BarAction::TipHide);
                assert(done[2] == BarAction::KillPetTimer);
                assert(done[3] == BarAction::Hide);
            }
            if !m.shown && n.shown {
                assert(done[1] == BarAction::Show);
            }
        },
        _ => {},
    }
}

/// What shows is drawn anew exactly where what it shows has changed: another instance is bound,
/// or the bound one has other switches or begins or ends to type. A window that is dragged is
/// not drawn.
pub proof fn law_drawn_where_changed(
    m: WindowModel,
    id: (u32, u32),
    state: ImeState,
    typing: bool,
    settings_open: bool,
    ready: bool,
)
    ensures
        ({
            let bound = m.board.focused == Some(id);
            let (pid, tid) = id;
            let free = m.shown && m.drag is None;
            &&& event_actions(
                m,
                BarEvent::FocusGained { pid, tid, state },
                settings_open,
                ready,
            ).contains(BarAction::Repaint) <==> free && !bound && m.board.visible
            &&& event_actions(
                m,
                BarEvent::StateChanged { pid, tid, state },
                settings_open,
                ready,
            ).contains(BarAction::Repaint) <==> free && bound
            &&& event_actions(
                m,
                BarEvent::TypingState { pid, tid, active: typing },
                settings_open,
                ready,
            ).contains(BarAction::Repaint) <==> free && bound
        }),
{
    let bound = m.board.focused == Some(id);
    let free = m.shown && m.drag is None;
    let a = event_actions(
        m,
        BarEvent::FocusGained { pid: id.0, tid: id.1, state },
        settings_open,
        ready,
    );
    if free && !bound && m.board.visible {
        assert(a[2] == BarAction::Repaint);
    }
    let b = event_actions(
        m,
        BarEvent::StateChanged { pid: id.0, tid: id.1, state },
        settings_open,
        ready,
    );
    if free && bound {
        assert(b[1] == BarAction::Repaint);
    }
    let c = event_actions(
        m,
        BarEvent::TypingState { pid: id.0, tid: id.1, active: typing },
        settings_open,
        ready,
    );
    if free && bound {
        assert(c[2] == BarAction::Repaint);
    }
}

/// The pet hears of the bound instance only: it begins anew with an instance that was not bound
/// before, and takes over the switches and the typing of the one that is.
pub proof fn law_pet_follows_bound_instance(
    m: WindowModel,
    id: (u32, u32),
    state: ImeState,
    typing: bool,
    settings_open: bool,
    ready: bool,
)
    ensures
        ({
            let bound = m.board.focused == Some(id);
            let (pid, tid) = id;
            let gained = event_actions(
                m,
                BarEvent::FocusGained { pid, tid, state },
                settings_open,
                ready,
            );
            let changed = event_actions(
                m,
                BarEvent::StateChanged { pid, tid, state },
                settings_open,
                ready,
            );
            let types = event_actions(
                m,
                BarEvent::TypingState { pid, tid, active: typing },
                settings_open,
                ready,
            );
            &&& gained.contains(BarAction::PetReset(state)) <==> !bound
            &&& gained.contains(BarAction::PetState(state)) <==> bound
            &&& changed.contains(BarAction::PetState(state)) <==> bound
            &&& types.contains(BarAction::PetTyping(typing)) <==> bound
            &&& !bound ==> types.len() == 0
            &&& changed.contains(BarAction::SyncPetTimer)
        }),
{
    let bound = m.board.focused == Some(id);
    let (pid, tid) = id;
    let gained = event_actions(
        m,
        BarEvent::FocusGained { pid, tid, state },
        settings_open,
        ready,
    );
    let changed = event_actions(
        m,
        BarEvent::StateChanged { pid, tid, state },
        settings_open,
        ready,
    );
    let types = event_actions(
        m,
        BarEvent::TypingState { pid, tid, active: typing },
        settings_open,
        ready,
    );
    assert(gained[0] == BarAction::PetReset(state) || gained[0] == BarAction::PetState(state));
    assert(changed.last() == BarAction::SyncPetTimer);
    if bound {
        assert(changed[0] == BarAction::PetState(state));
        assert(types[0] == BarAction::PetTyping(typing));
    }
}

/// Hotkeys are given back while a combination is recorded, so that it reaches the recorder, and
/// taken again afterwards and whenever they have changed.
pub proof fn law_hotkeys_give_way(m: WindowModel, settings_open: bool, ready: bool)
    ensures
        event_actions(m, BarEvent::CaptureMode(true), settings_open, ready) == seq![
            BarAction::UnregisterHotkeys,
        ],
        event_actions(m, BarEvent::CaptureMode(false), settings_open, ready) == seq![
            BarAction::ReregisterHotkeys,
        ],
        event_actions(m, BarEvent::HotkeysChanged, settings_open, ready) == seq![
            BarAction::ReregisterHotkeys,
        ],
{
}

/// Taking in what has happened: a changed theme comes first, then the events in their order, and
/// at the end the window is drawn exactly where it shows and is not dragged.
pub proof fn law_refresh_order(
    m: WindowModel,
    evs: Seq<BarEvent>,
    theme_changed: bool,
    settings_open: bool,
    ready: bool,
)
    ensures
        ({
            let done = refresh_actions(m, evs, theme_changed, settings_open, ready);
            let n = after_events(m, evs, settings_open, ready);
            let middle = events_actions(m, evs, settings_open, ready);
            let first = if theme_changed {
                1int
            } else {
                0int
            };
            &&& theme_changed ==> done[0] == BarAction::ApplyTheme
            &&& done.subrange(first, first + middle.len()) =~= middle
            &&& n.shown && n.drag is None ==> done.last() == BarAction::Repaint && done.len()
                == first + middle.len() + 1
            &&& !(n.shown && n.drag is None) ==> done.len() == first + middle.len()
        }),
{
}

/// What a drawing tells is kept: where the pet is, how far it stands out and how round the bar is.
/// A window begins hidden, with nothing bound, and with what was remembered.
pub proof fn law_drawing_kept(d: Drawing, pref: ToolbarPref)
    ensures
        parts(d).pet == d.pet,
        parts(d).overhang == d.overhang,
        parts(d).radius == d.radius,
        fresh_window(pref).pref() == pref,
        !fresh_window(pref).shown,
        fresh_window(pref).board.focused is None,
        fresh_window(pref).board.instances.dom() =~= Set::empty(),
        fresh_window(pref).drag is None && fresh_window(pref).pressed is None,
{
}

/// A button says what it turns; the logo, which turns nothing, says nothing.
pub proof fn law_tooltips()
    ensures
        tooltip_of(ToolbarButton::Logo) is None,
        tooltip_of(ToolbarButton::Mode) == Some("中/英"@),
        tooltip_of(ToolbarButton::Width) == Some("全半角"@),
        tooltip_of(ToolbarButton::Punct) == Some("中英文标点"@),
        tooltip_of(ToolbarButton::Script) == Some("简体/繁体"@),
        tooltip_of(ToolbarButton::Gear) == Some("设置"@),
{
}

/// The buttons that turn something have a tooltip, the logo has none; no two buttons share one.
pub proof fn law_tooltips_differ(a: ToolbarButton, b: ToolbarButton)
    ensures
        tooltip_of(a) is None <==> a == ToolbarButton::Logo,
        tooltip_of(a) is Some && tooltip_of(a) == tooltip_of(b) ==> a == b,
{
    reveal_strlit("中/英");
    reveal_strlit("全半角");
    reveal_strlit("中英文标点");
    reveal_strlit("简体/繁体");
    reveal_strlit("设置");
    let (mode, width) = ("中/英"@, "全半角"@);
    let (punct, script) = ("中英文标点"@, "简体/繁体"@);
    assert(mode.len() == 3 && width.len() == 3 && "设置"@.len() == 2);
    assert(punct.len() == 5 && script.len() == 5);
    assert(mode[0] != width[0]);
    assert(punct[0] != script[0]);
}

} // verus!
