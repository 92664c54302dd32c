//! The toolbar that looks for itself which program is in front, four times a second.

use vstd::prelude::*;

use crate::ime::{ImeState, InitialMode, PunctMode, ScriptMode, WidthMode};
use crate::toolbar::board::{Board, BoardModel, ToolbarInstance};
use crate::toolbar::prefs::ToolbarPref;
use crate::toolbar::window;
use crate::toolbar::window::{BarAction, ToolbarButton};
use crate::wire::{CtlResult, Request};

verus! {

/// How often to look, in milliseconds.
pub const TOOLBAR_POLL_MS: u32 = 250;

/// The toolbar with the table that the requests fill.
pub struct ToolbarHost {
    pub board: Board,
    pub shown: bool,
    pub hover: Option<ToolbarButton>,
    pub pressed: Option<ToolbarButton>,
    pub drag: Option<(i32, i32)>,
}

/// The table after a request; `None` for a request that is not for the toolbar.
pub open spec fn after_request(b: BoardModel, req: Request) -> Option<BoardModel> {
    match req {
        Request::Register { pid, tid, state } => Some(
            b.with_instance((pid, tid), ToolbarInstance { state, active: false }),
        ),
        Request::StateSync { pid, tid, state } => Some(b.with_state((pid, tid), state)),
        Request::Active { pid, tid, active } => Some(b.with_active((pid, tid), active)),
        Request::Unregister { pid, tid } => Some(
            BoardModel { instances: b.instances.remove((pid, tid)), ..b },
        ),
        Request::ToggleToolbar => Some(BoardModel { visible: !b.visible, ..b }),
        _ => None,
    }
}

/// The instance in front, where it is in the table and active.
pub open spec fn front_instance(b: BoardModel, front: (u32, u32)) -> Option<(u32, u32)> {
    if b.instances.contains_key(front) && b.instances[front].active {
        Some(front)
    } else {
        None
    }
}

impl ToolbarHost {
    /// A toolbar that does not show yet.
    pub fn spawn(pref: ToolbarPref) -> (r: ToolbarHost)
        ensures
            !r.shown,
            r.hover is None,
            r.pressed is None,
            r.drag is None,
            r.board@.instances == Map::<(u32, u32), ToolbarInstance>::empty(),
            r.board@.focused is None,
            r.board@.visible == pref.visible,
            r.board@.pos == pref.pos,
    {
        ToolbarHost {
            board: Board::new(pref),
            shown: false,
            hover: None,
            pressed: None,
            drag: None,
        }
    }

    /// Takes a request: says whether it was for the toolbar, and which preferences to store.
    pub fn handle_request(&mut self, req: &Request) -> (r: (bool, Option<ToolbarPref>))
        ensures
            r.0 == (after_request(old(self).board@, *req) is Some),
            r.0 ==> final(self).board@ == after_request(old(self).board@, *req)->0,
            !r.0 ==> final(self).board@ == old(self).board@,
            r.1 == (if *req is ToggleToolbar {
                Some(
                    ToolbarPref { visible: !old(self).board@.visible, pos: old(self).board@.pos },
                )
            } else {
                None::<ToolbarPref>
            }),
            final(self).shown == old(self).shown,
            final(self).hover == old(self).hover,
            final(self).pressed == old(self).pressed,
            final(self).drag == old(self).drag,
    {
        match req {
            Request::Register { pid, tid, state } => {
                self.board.put(*pid, *tid, ToolbarInstance { state: *state, active: false });
                (true, None)
            },
            Request::StateSync { pid, tid, state } => {
                self.board.set_state(*pid, *tid, *state);
                (true, None)
            },
            Request::Active { pid, tid, active } => {
                self.board.set_active(*pid, *tid, *active);
                (true, None)
            },
            Request::Unregister { pid, tid } => {
                self.board.drop_instance(*pid, *tid);
                (true, None)
            },
            Request::ToggleToolbar => {
                let visible: bool = !self.board.visible();
                self.board.set_visible(visible);
                (true, Some(ToolbarPref { visible, pos: self.board.pos() }))
            },
            _ => (false, None),
        }
    }

    /// Looks at the program in front: the toolbar shows while that is an active instance and
    /// the preference allows it. A toolbar that shows already is not moved.
    pub fn poll_foreground(&mut self, front: (u32, u32), ready: bool, out: &mut Vec<BarAction>)
        ensures
            final(self).board@ == (BoardModel {
                focused: front_instance(old(self).board@, front),
                ..old(self).board@
            }),
            ({
                let wanted = front_instance(old(self).board@, front) is Some
                    && old(self).board@.visible;
                &&& final(self).shown == (wanted && (old(self).shown || ready))
                &&& final(out)@ == old(out)@ + window::given(
                    wanted && !old(self).shown && ready,
                    seq![BarAction::Show],
                ) + window::given(
                    !wanted && old(self).shown,
                    seq![BarAction::TipHide, BarAction::Hide],
                )
                &&& final(self).hover == if !wanted && old(self).shown {
                    None
                } else {
                    old(self).hover
                }
                &&& final(self).pressed == if !wanted && old(self).shown {
                    None
                } else {
                    old(self).pressed
                }
            }),
            final(self).drag == old(self).drag,
    {
        let ghost before = out@;
        let (pid, tid) = front;
        let active: bool = match self.board.instance(pid, tid) {
            Some(i) => i.active,
            None => false,
        };
        self.board.bind(
            if active {
                Some((pid, tid))
            } else {
                None
            },
        );
        if active && self.board.visible() {
            if !self.shown && ready {
                self.shown = true;
                out.push(BarAction::Show);
            }
        } else if self.shown {
            self.shown = false;
            self.hover = None;
            self.pressed = None;
            out.push(BarAction::TipHide);
            out.push(BarAction::Hide);
        }
        assert(self.board@ =~= BoardModel {
            focused: front_instance(old(self).board@, front),
            ..old(self).board@
        });
        let ghost wanted = front_instance(old(self).board@, front) is Some
            && old(self).board@.visible;
        assert(out@ =~= before + window::given(
            wanted && !old(self).shown && ready,
            seq![BarAction::Show],
        ) + window::given(!wanted && old(self).shown, seq![BarAction::TipHide, BarAction::Hide]));
    }

    /// What the timer and the wake-up message do: take over a changed theme, look at the program
    /// in front, then draw the window if it shows and is not being dragged.
    pub fn reconcile(
        &mut self,
        front: (u32, u32),
        theme_changed: bool,
        ready: bool,
        out: &mut Vec<BarAction>,
    )
        ensures
            final(self).board@ == (BoardModel {
                focused: front_instance(old(self).board@, front),
                ..old(self).board@
            }),
            ({
                let wanted = front_instance(old(self).board@, front) is Some
                    && old(self).board@.visible;
                &&& final(self).shown == (wanted && (old(self).shown || ready))
                &&& final(out)@ == old(out)@ + window::given(
                    theme_changed,
                    seq![BarAction::ApplyTheme],
                ) + window::given(
                    wanted && !old(self).shown && ready,
                    seq![BarAction::Show],
                ) + window::given(
                    !wanted && old(self).shown,
                    seq![BarAction::TipHide, BarAction::Hide],
                ) + window::given(
                    final(self).shown && old(self).drag is None,
                    seq![BarAction::Repaint],
                )
                &&& final(self).hover == if !wanted && old(self).shown {
                    None
                } else {
                    old(self).hover
                }
                &&& final(self).pressed == if !wanted && old(self).shown {
                    None
                } else {
                    old(self).pressed
                }
            }),
            final(self).drag == old(self).drag,
    {
        let ghost before = out@;
        if theme_changed {
            out.push(BarAction::ApplyTheme);
        }
        assert(out@ =~= before + window::given(theme_changed, seq![BarAction::ApplyTheme]));
        self.poll_foreground(front, ready, out);
        let ghost polled = out@;
        if self.shown && self.drag.is_none() {
            out.push(BarAction::Repaint);
        }
        assert(out@ =~= polled + window::given(
            self.shown && self.drag is None,
            seq![BarAction::Repaint],
        ));
    }
}

/// A switch of an instance.
#[derive(Clone, Copy, Debug, PartialEq, Eq, Structural)]
pub enum Field {
    Mode,
    Width,
    Script,
    Punct,
}

/// A switch as a number: 0 in its first state, 1 in its second.
pub open spec fn field_value(s: ImeState, f: Field) -> int {
    let second = match f {
        Field::Mode => s.mode == InitialMode::English,
        Field::Width => s.width == WidthMode::Full,
        Field::Script => s.script == ScriptMode::Traditional,
        Field::Punct => s.punct == PunctMode::English,
    };
    if second {
        1
    } else {
        0
    }
}

/// A switch as a number.
pub fn field(s: ImeState, f: Field) -> (r: u8)
    ensures
        r == field_value(s, f),
        r <= 1,
{
    let second: bool = match f {
        Field::Mode => s.mode == InitialMode::English,
        Field::Width => s.width == WidthMode::Full,
        Field::Script => s.script == ScriptMode::Traditional,
        Field::Punct => s.punct == PunctMode::English,
    };
    if second {
        1
    } else {
        0
    }
}

/// The other state of a switch.
pub fn toggle_value(cur: u8) -> (r: u8)
    requires
        cur <= 1,
    ensures
        r == 1 - cur,
{
    1 - cur
}

/// What a click on a button comes to.
#[derive(Clone, Copy, Debug, PartialEq, Eq, Structural)]
pub enum Click {
    Nothing,
    OpenSettings,
    /// Set a switch of an instance.
    SetState { pid: u32, tid: u32, field: Field, value: u8 },
}

/// The switch that a button turns over.
pub open spec fn field_of(b: ToolbarButton) -> Option<Field> {
    match b {
        ToolbarButton::Mode => Some(Field::Mode),
        ToolbarButton::Width => Some(Field::Width),
        ToolbarButton::Punct => Some(Field::Punct),
        ToolbarButton::Script => Some(Field::Script),
        _ => None,
    }
}

impl ToolbarHost {
    /// A click on a button: without an instance in front it does nothing; the gear opens the
    /// settings, the logo does nothing, and a switch of the instance in front is turned over.
    pub fn on_click(&self, b: ToolbarButton) -> (r: Click)
        ensures
            r == (match self.board@.focused {
                None => Click::Nothing,
                Some(id) => match field_of(b) {
                    Some(f) => Click::SetState {
                        pid: id.0,
                        tid: id.1,
                        field: f,
                        value: (1 - field_value(self.board@.state_of(id), f)) as u8,
                    },
                    None => if b == ToolbarButton::Gear {
                        Click::OpenSettings
                    } else {
                        Click::Nothing
                    },
                },
            }),
    {
        match self.board.focused() {
            None => Click::Nothing,
            Some((pid, tid)) => {
                let f: Field = match b {
                    ToolbarButton::Logo => return Click::Nothing,
                    ToolbarButton::Gear => return Click::OpenSettings,
                    ToolbarButton::Mode => Field::Mode,
                    ToolbarButton::Width => Field::Width,
                    ToolbarButton::Punct => Field::Punct,
                    ToolbarButton::Script => Field::Script,
                };
                let value: u8 = toggle_value(field(self.board.state_of(pid, tid), f));
                Click::SetState { pid, tid, field: f, value }
            },
        }
    }

    /// The answer of an instance whose switch was to be set; `None` where it could not be
    /// reached. Where the switch was set, the table takes over the switches of the answer, if the
    /// instance is still in it; else the table stays. The window is drawn either way, if it shows.
    pub fn ctl_reply(
        &mut self,
        pid: u32,
        tid: u32,
        answer: Option<&CtlResult>,
        out: &mut Vec<BarAction>,
    )
        ensures
            final(self).board@ == (match answer {
                Some(CtlResult::Applied { state }) => old(self).board@.with_state(
                    (pid, tid),
                    *state,
                ),
                _ => old(self).board@,
            }),
            final(self).shown == old(self).shown,
            final(self).hover == old(self).hover,
            final(self).pressed == old(self).pressed,
            final(self).drag == old(self).drag,
            final(out)@ == old(out)@ + window::given(old(self).shown, seq![BarAction::Repaint]),
    {
        let ghost before = out@;
        match answer {
            Some(CtlResult::Applied { state }) => {
                self.board.set_state(pid, tid, *state);
            },
            _ => {},
        }
        if self.shown {
            out.push(BarAction::Repaint);
        }
        assert(out@ =~= before + window::given(old(self).shown, seq![BarAction::Repaint]));
    }
}

/// What a report of an instance does to the table: a new one is entered with its switches and not
/// active yet; its switches and its mark are replaced where it is there; one that leaves is gone.
/// No report touches another instance, the bound one or what is remembered.
pub proof fn law_reports_fill_the_table(
    b: BoardModel,
    id: (u32, u32),
    state: ImeState,
    active: bool,
    other: (u32, u32),
)
    requires
        other != id,
    ensures
        ({
            let (pid, tid) = id;
            let entered = after_request(b, Request::Register { pid, tid, state });
            let synced = after_request(b, Request::StateSync { pid, tid, state });
            let marked = after_request(b, Request::Active { pid, tid, active });
            let gone = after_request(b, Request::Unregister { pid, tid });
            let there = b.instances.contains_key(id);
            &&& entered is Some && synced is Some && marked is Some && gone is Some
            &&& entered->0.instances.contains_key(id)
            &&& entered->0.instances[id].state == state
            &&& !entered->0.instances[id].active
            &&& synced->0.instances.contains_key(id) == there
            &&& there ==> synced->0.instances[id].state == state && synced->0.instances[id].active
                == b.instances[id].active
            &&& marked->0.instances.contains_key(id) == there
            &&& there ==> marked->0.instances[id].active == active
                && marked->0.instances[id].state == b.instances[id].state
            &&& !gone->0.instances.contains_key(id)
            &&& untouched(b, entered->0, other)
            &&& untouched(b, synced->0, other)
            &&& untouched(b, marked->0, other)
            &&& untouched(b, gone->0, other)
        }),
{
}

/// Whether an instance, the bound one and what is remembered are the same in two tables.
pub open spec fn untouched(b: BoardModel, c: BoardModel, other: (u32, u32)) -> bool {
    &&& c.instances.contains_key(other) == b.instances.contains_key(other)
    &&& b.instances.contains_key(other) ==> c.instances[other] == b.instances[other]
    &&& c.focused == b.focused
    &&& c.visible == b.visible
    &&& c.pos == b.pos
}

/// Turning the toolbar on or off turns over the preference alone. Any other request is not for
/// the toolbar.
pub proof fn law_other_requests(b: BoardModel, req: Request)
    ensures
        after_request(b, Request::ToggleToolbar) matches Some(c) && c.visible == !b.visible
            && c.instances == b.instances && c.pos == b.pos && c.focused == b.focused,
        after_request(b, req) is Some <==> req is Register || req is StateSync || req is Active
            || req is Unregister || req is ToggleToolbar,
{
}

/// The toolbar stands for the instance in front exactly where that one is in the table and
/// active.
pub proof fn law_front_instance(b: BoardModel, front: (u32, u32))
    ensures
        front_instance(b, front) matches Some(id) ==> id == front,
        front_instance(b, front) is Some <==> b.instances.contains_key(front)
            && b.instances[front].active,
{
}

/// The button of a switch is for that switch, and a switch counts 0 exactly in the state that an
/// instance starts in.
pub proof fn law_field_of_button(s: ImeState, b: ToolbarButton)
    ensures
        field_of(b) is None <==> b == ToolbarButton::Logo || b == ToolbarButton::Gear,
        field_of(ToolbarButton::Mode) == Some(Field::Mode),
        field_of(ToolbarButton::Width) == Some(Field::Width),
        field_of(ToolbarButton::Punct) == Some(Field::Punct),
        field_of(ToolbarButton::Script) == Some(Field::Script),
        field_value(s, Field::Mode) == 0 <==> s.mode == InitialMode::Chinese,
        field_value(s, Field::Width) == 0 <==> s.width == WidthMode::Half,
        field_value(s, Field::Script) == 0 <==> s.script == ScriptMode::Simplified,
        field_value(s, Field::Punct) == 0 <==> s.punct == PunctMode::Chinese,
        forall|f: Field| 0 <= #[trigger] field_value(s, f) <= 1,
{
}

} // verus!
