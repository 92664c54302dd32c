//! The toolbar's window procedure: the mouse, the pet, the hotkeys.

use vstd::prelude::*;

use std::collections::VecDeque;

use crate::geometry;
use crate::geometry::{clamp_to_work, client_pos, in_rounded_rect, saturate, square, Rect};
use crate::hotkey;
use crate::hotkey::hotkey_from_id;
use crate::ime::{GlobalAction, ImeState, InitialMode, PunctMode, ScriptMode, WidthMode};
use crate::toolbar::board::BoardModel;
use crate::toolbar::prefs::ToolbarPref;
use crate::toolbar::window;
use crate::toolbar::window::{
    button_tooltip, BarAction, BarEvent, BarFrame, ToolbarButton, ToolbarWindow, WindowModel,
};
use crate::wire;
use crate::wire::CtlCmd;

verus! {

/// The command that turns over the switch of a button, given the switches; none for the logo
/// and the gear.
pub open spec fn flip_of(b: ToolbarButton, s: ImeState) -> Option<CtlCmd> {
    match b {
        ToolbarButton::Mode => Some(CtlCmd::SetMode(s.mode == InitialMode::Chinese)),
        ToolbarButton::Width => Some(CtlCmd::SetWidth(s.width == WidthMode::Half)),
        ToolbarButton::Punct => Some(CtlCmd::SetPunct(s.punct == PunctMode::Chinese)),
        ToolbarButton::Script => Some(CtlCmd::SetScript(s.script == ScriptMode::Simplified)),
        _ => None,
    }
}

fn flip(b: ToolbarButton, s: ImeState) -> (r: Option<CtlCmd>)
    ensures
        r == flip_of(b, s),
{
    match b {
        ToolbarButton::Mode => Some(CtlCmd::SetMode(s.mode == InitialMode::Chinese)),
        ToolbarButton::Width => Some(CtlCmd::SetWidth(s.width == WidthMode::Half)),
        ToolbarButton::Punct => Some(CtlCmd::SetPunct(s.punct == PunctMode::Chinese)),
        ToolbarButton::Script => Some(CtlCmd::SetScript(s.script == ScriptMode::Simplified)),
        _ => None,
    }
}

/// The command of a button, once carried out, turns the button's switch over and leaves the
/// others; the command for the new switches turns it back.
pub proof fn law_flip(b: ToolbarButton, s: ImeState)
    requires
        flip_of(b, s) is Some,
    ensures
        ({
            let t = wire::after_cmd(s, flip_of(b, s)->0);
            &&& (t.mode != s.mode) == (b == ToolbarButton::Mode)
            &&& (t.width != s.width) == (b == ToolbarButton::Width)
            &&& (t.punct != s.punct) == (b == ToolbarButton::Punct)
            &&& (t.script != s.script) == (b == ToolbarButton::Script)
            &&& wire::after_cmd(t, flip_of(b, t)->0) == s
        }),
{
}

/// What a click on a button makes the caller do: nothing without a bound instance.
pub open spec fn click_actions(board: BoardModel, b: ToolbarButton) -> Seq<BarAction> {
    match board.focused {
        None => Seq::empty(),
        Some(id) => match b {
            ToolbarButton::Logo => Seq::empty(),
            ToolbarButton::Gear => seq![BarAction::OpenSettings],
            _ => seq![
                BarAction::Control {
                    pid: id.0,
                    tid: id.1,
                    cmd: flip_of(b, board.state_of(id))->0,
                },
            ],
        },
    }
}

/// The button that does what a hotkey does to the switches.
pub open spec fn button_of(a: GlobalAction) -> Option<ToolbarButton> {
    match a {
        GlobalAction::ToggleMode => Some(ToolbarButton::Mode),
        GlobalAction::ToggleWidth => Some(ToolbarButton::Width),
        GlobalAction::ToggleScript => Some(ToolbarButton::Script),
        GlobalAction::TogglePunct => Some(ToolbarButton::Punct),
        _ => None,
    }
}

/// What a hotkey makes the caller do. The settings and the toolbar itself need no bound
/// instance.
pub open spec fn hotkey_actions(board: BoardModel, a: GlobalAction) -> Seq<BarAction> {
    match a {
        GlobalAction::OpenSettings => seq![BarAction::OpenSettings],
        GlobalAction::ToggleToolbar => seq![BarAction::ToggleToolbar],
        _ => click_actions(board, button_of(a)->0),
    }
}

/// What resting the pointer on `hit` makes the caller do.
pub open spec fn hover_actions(m: WindowModel, hit: Option<ToolbarButton>) -> Seq<BarAction> {
    let changed = hit != m.hover;
    let tip = match hit {
        Some(b) => if window::tooltip_of(b) is Some {
            window::given(changed, seq![BarAction::TipShow(b)])
        } else {
            seq![BarAction::TipHide]
        },
        None => seq![BarAction::TipHide],
    };
    tip + window::given(changed && m.shown, seq![BarAction::Repaint])
}

fn same_button(a: Option<ToolbarButton>, b: Option<ToolbarButton>) -> (r: bool)
    ensures
        r == (a == b),
{
    match (a, b) {
        (Some(x), Some(y)) => x == y,
        (None, None) => true,
        _ => false,
    }
}

/// What the caller knows about the screen when a message comes.
pub struct World {
    /// Where the window stands.
    pub window: Option<Rect>,
    /// Where the pointer is on the screen.
    pub cursor: (i32, i32),
    /// The work area of the monitor at `work_point`.
    pub work: Option<Rect>,
    /// The button at `hit_point`.
    pub hit: Option<ToolbarButton>,
    /// How opaque the pet is at `hit_point`.
    pub pet_alpha: u8,
    /// Whether the settings window is open.
    pub settings_open: bool,
    /// Whether the toolbar can be drawn.
    pub ready: bool,
    /// Whether the theme of the settings is another than the one in use.
    pub theme_changed: bool,
}

/// From this opacity on, exclusively, a pixel of the pet can be clicked.
pub const PET_HIT_ALPHA: u8 = 0x20;

/// The period of the animation timer in milliseconds.
pub const PET_TIMER_MS: u32 = 33;

/// The number of the animation timer.
pub const PET_TIMER_ID: usize = 0xBADC0DE;

/// How far the pointer may move, in pixels, before a press on the pet becomes a drag.
pub const PET_DRAG_THRESHOLD: i32 = 4;

/// Whether a point is on an opaque pixel of the pet.
pub open spec fn pet_hit(f: BarFrame, x: int, y: int, alpha: u8) -> bool {
    &&& f.pet matches Some(p)
    &&& p.x <= x < p.x + p.w
    &&& p.y <= y < p.y + p.h
    &&& alpha > PET_HIT_ALPHA
}

/// The window while it is dragged from the pointer's place `cursor`.
pub open spec fn drag_started(m: WindowModel, cursor: (i32, i32), window: Option<Rect>) -> WindowModel {
    match window {
        Some(rc) => WindowModel {
            drag: Some(
                (
                    geometry::saturated(cursor.0 - rc.left) as i32,
                    geometry::saturated(cursor.1 - rc.top) as i32,
                ),
            ),
            ..m
        },
        None => m,
    }
}

/// What starting a drag makes the caller do.
pub open spec fn drag_start_actions(window: Option<Rect>) -> Seq<BarAction> {
    window::given(window is Some, seq![BarAction::CaptureMouse])
}

/// A place kept inside the work area, for a window as large as the rectangle.
pub open spec fn kept_place(x: int, y: int, rc: Rect, work: Option<Rect>) -> (i32, i32) {
    let a = geometry::area_or_fallback(work);
    (
        geometry::saturated(geometry::kept_inside(x, geometry::saturated(rc.width()), a.left as int, a.right as int)) as i32,
        geometry::saturated(geometry::kept_inside(y, geometry::saturated(rc.height()), a.top as int, a.bottom as int)) as i32,
    )
}

/// Where a dragged window would go, before it is kept inside the work area.
pub open spec fn drag_target(offset: (i32, i32), cursor: (i32, i32)) -> (int, int) {
    (geometry::saturated(cursor.0 - offset.0), geometry::saturated(cursor.1 - offset.1))
}

/// What moving the pointer makes the caller do while the window is dragged.
pub open spec fn drag_move_actions(m: WindowModel, w: World) -> Seq<BarAction> {
    match m.drag {
        None => Seq::empty(),
        Some(offset) => {
            let (x, y) = drag_target(offset, w.cursor);
            match w.window {
                Some(rc) => {
                    let p = kept_place(x, y, rc, w.work);
                    seq![BarAction::MoveTo(p.0, p.1)]
                },
                None => seq![BarAction::MoveTo(x as i32, y as i32)],
            }
        },
    }
}

/// The window after a drag: its place, kept inside the work area, is remembered.
pub open spec fn drag_ended(m: WindowModel, w: World) -> WindowModel {
    match w.window {
        Some(rc) => WindowModel {
            drag: None,
            board: BoardModel {
                pos: Some(kept_place(rc.left as int, rc.top as int, rc, w.work)),
                ..m.board
            },
            ..m
        },
        None => WindowModel { drag: None, ..m },
    }
}

/// What ending a drag makes the caller do.
pub open spec fn drag_end_actions(m: WindowModel, w: World) -> Seq<BarAction> {
    seq![BarAction::ReleaseMouse] + window::given(
        w.window is Some,
        seq![BarAction::SavePref(drag_ended(m, w).pref())],
    )
}

/// What a click on the pet makes the caller do.
pub open spec fn pet_click_actions(m: WindowModel) -> Seq<BarAction> {
    seq![BarAction::PetClick, BarAction::SyncPetTimer] + window::given(m.idle(), seq![BarAction::Repaint])
}

/// What a tick of the animation makes the caller do.
pub open spec fn pet_tick_actions(m: WindowModel) -> Seq<BarAction> {
    seq![BarAction::PetAdvance(PET_TIMER_MS), BarAction::SyncPetTimer] + window::given(
        m.idle(),
        seq![BarAction::Repaint],
    )
}

impl ToolbarWindow {
    /// A click on a button: the gear opens the settings, a switch is turned over in the bound
    /// instance, the logo does nothing.
    pub fn on_click(&self, b: ToolbarButton, out: &mut Vec<BarAction>)
        ensures
            final(out)@ == old(out)@ + click_actions(self@.board, b),
    {
        let ghost before = out@;
        if let Some((pid, tid)) = self.board.focused() {
            match b {
                ToolbarButton::Logo => {},
                ToolbarButton::Gear => {
                    out.push(BarAction::OpenSettings);
                },
                _ => {
                    if let Some(cmd) = flip(b, self.board.state_of(pid, tid)) {
                        out.push(BarAction::Control { pid, tid, cmd });
                    }
                },
            }
        }
        assert(out@ =~= before + click_actions(self@.board, b));
    }

    /// A hotkey: it does what the button of the same name does, opens the settings, or turns
    /// the toolbar on or off.
    pub fn on_hotkey(&self, a: GlobalAction, out: &mut Vec<BarAction>)
        ensures
            final(out)@ == old(out)@ + hotkey_actions(self@.board, a),
    {
        let ghost before = out@;
        match a {
            GlobalAction::ToggleMode => self.on_click(ToolbarButton::Mode, out),
            GlobalAction::ToggleWidth => self.on_click(ToolbarButton::Width, out),
            GlobalAction::ToggleScript => self.on_click(ToolbarButton::Script, out),
            GlobalAction::TogglePunct => self.on_click(ToolbarButton::Punct, out),
            GlobalAction::OpenSettings => {
                out.push(BarAction::OpenSettings);
            },
            GlobalAction::ToggleToolbar => {
                out.push(BarAction::ToggleToolbar);
            },
        }
        assert(out@ =~= before + hotkey_actions(self@.board, a));
    }

    /// The answer of an instance to a command: where it was carried out, the table takes over
    /// the new switches. The window is drawn either way.
    pub fn ctl_reply(
        &mut self,
        pid: u32,
        tid: u32,
        state: Option<ImeState>,
        out: &mut Vec<BarAction>,
    )
        ensures
            final(self)@ == (WindowModel {
                board: match state {
                    Some(s) => old(self)@.board.with_state((pid, tid), s),
                    None => old(self)@.board,
                },
                ..old(self)@
            }),
            final(out)@ == old(out)@ + window::given(old(self)@.shown, seq![BarAction::Repaint]),
    {
        if let Some(s) = state {
            self.board.set_state(pid, tid, s);
        }
        self.repaint(out);
    }

    /// The pointer rests on `hit`.
    pub fn on_hover(&mut self, hit: Option<ToolbarButton>, out: &mut Vec<BarAction>)
        ensures
            final(self)@ == (WindowModel { hover: hit, ..old(self)@ }),
            final(out)@ == old(out)@ + hover_actions(old(self)@, hit),
    {
        let ghost before = out@;
        let changed: bool = !same_button(hit, self.hover);
        self.hover = hit;
        match hit {
            Some(b) => {
                if button_tooltip(b).is_some() {
                    if changed {
                        out.push(BarAction::TipShow(b));
                    }
                } else {
                    out.push(BarAction::TipHide);
                }
            },
            None => {
                out.push(BarAction::TipHide);
            },
        }
        if changed {
            self.repaint(out);
        }
        assert(out@ =~= before + hover_actions(old(self)@, hit));
    }

    /// Starts to drag the window. The pointer's place is taken on the screen, since the window
    /// moves under it.
    pub fn start_drag(&mut self, w: &World, out: &mut Vec<BarAction>)
        ensures
            final(self)@ == drag_started(old(self)@, w.cursor, w.window),
            final(out)@ == old(out)@ + drag_start_actions(w.window),
    {
        let ghost before = out@;
        if let Some(rc) = w.window {
            let (cx, cy) = w.cursor;
            self.drag = Some(
                (saturate(cx as i64 - rc.left as i64), saturate(cy as i64 - rc.top as i64)),
            );
            out.push(BarAction::CaptureMouse);
        }
        assert(out@ =~= before + drag_start_actions(w.window));
    }

    /// Moves the dragged window with the pointer, wholly inside the work area.
    pub fn drag_move(&self, w: &World, out: &mut Vec<BarAction>)
        ensures
            final(out)@ == old(out)@ + drag_move_actions(self@, *w),
    {
        let ghost before = out@;
        if let Some((ox, oy)) = self.drag {
            let (cx, cy) = w.cursor;
            let x: i32 = saturate(cx as i64 - ox as i64);
            let y: i32 = saturate(cy as i64 - oy as i64);
            match w.window {
                Some(rc) => {
                    let (px, py) = clamp_to_work(
                        x,
                        y,
                        saturate(rc.right as i64 - rc.left as i64),
                        saturate(rc.bottom as i64 - rc.top as i64),
                        w.work,
                    );
                    out.push(BarAction::MoveTo(px, py));
                },
                None => {
                    out.push(BarAction::MoveTo(x, y));
                },
            }
        }
        assert(out@ =~= before + drag_move_actions(self@, *w));
    }

    /// Ends the drag, and remembers and stores the window's place.
    pub fn end_drag(&mut self, w: &World, out: &mut Vec<BarAction>)
        ensures
            final(self)@ == drag_ended(old(self)@, *w),
            final(out)@ == old(out)@ + drag_end_actions(old(self)@, *w),
    {
        let ghost before = out@;
        self.drag = None;
        out.push(BarAction::ReleaseMouse);
        if let Some(rc) = w.window {
            let (x, y) = clamp_to_work(
                rc.left,
                rc.top,
                saturate(rc.right as i64 - rc.left as i64),
                saturate(rc.bottom as i64 - rc.top as i64),
                w.work,
            );
            self.board.set_pos(Some((x, y)));
            out.push(
                BarAction::SavePref(
                    ToolbarPref { visible: self.board.visible(), pos: Some((x, y)) },
                ),
            );
        }
        assert(self@ =~= drag_ended(old(self)@, *w));
        assert(out@ =~= before + drag_end_actions(old(self)@, *w));
    }

    /// A click on the pet.
    pub fn on_pet_click(&self, out: &mut Vec<BarAction>)
        ensures
            final(out)@ == old(out)@ + pet_click_actions(self@),
    {
        let ghost before = out@;
        out.push(BarAction::PetClick);
        out.push(BarAction::SyncPetTimer);
        if self.shown && self.drag.is_none() {
            out.push(BarAction::Repaint);
        }
        assert(out@ =~= before + pet_click_actions(self@));
    }

    /// A tick of the animation timer.
    pub fn on_pet_tick(&self, out: &mut Vec<BarAction>)
        ensures
            final(out)@ == old(out)@ + pet_tick_actions(self@),
    {
        let ghost before = out@;
        out.push(BarAction::PetAdvance(PET_TIMER_MS));
        out.push(BarAction::SyncPetTimer);
        if self.shown && self.drag.is_none() {
            out.push(BarAction::Repaint);
        }
        assert(out@ =~= before + pet_tick_actions(self@));
    }

    /// Whether a point is on an opaque pixel of the pet.
    pub fn pet_pixel_hit(&self, x: i64, y: i64, alpha: u8) -> (r: bool)
        ensures
            r == pet_hit(self@.frame, x as int, y as int, alpha),
    {
        match self.frame.pet {
            Some(p) => {
                x >= p.x as i64 && x < p.x as i64 + p.w as i64 && y >= p.y as i64 && y < p.y as i64
                    + p.h as i64 && alpha > PET_HIT_ALPHA
            },
            None => false,
        }
    }
}

/// The window messages that the toolbar takes.
#[derive(Clone, Copy, Debug, PartialEq, Eq, Structural)]
pub enum BarMessage {
    /// Its own message: there is something in the queue.
    Refresh,
    Timer,
    Paint,
    EraseBackground,
    MouseActivate,
    Hotkey,
    SetCursor,
    HitTest,
    MouseMove,
    MouseLeave,
    ButtonDown,
    ButtonUp,
    Destroy,
    Other,
}

/// The message of a number.
pub open spec fn message_of(msg: u32) -> BarMessage {
    if msg == 0x8029 {
        BarMessage::Refresh
    } else if msg == 0x0113 {
        BarMessage::Timer
    } else if msg == 0x000F {
        BarMessage::Paint
    } else if msg == 0x0014 {
        BarMessage::EraseBackground
    } else if msg == 0x0021 {
        BarMessage::MouseActivate
    } else if msg == 0x0312 {
        BarMessage::Hotkey
    } else if msg == 0x0020 {
        BarMessage::SetCursor
    } else if msg == 0x0084 {
        BarMessage::HitTest
    } else if msg == 0x0200 {
        BarMessage::MouseMove
    } else if msg == 0x02A3 {
        BarMessage::MouseLeave
    } else if msg == 0x0201 {
        BarMessage::ButtonDown
    } else if msg == 0x0202 {
        BarMessage::ButtonUp
    } else if msg == 0x0002 {
        BarMessage::Destroy
    } else {
        BarMessage::Other
    }
}

/// The message of a number.
pub fn bar_message(msg: u32) -> (r: BarMessage)
    ensures
        r == message_of(msg),
{
    match msg {
        0x8029 => BarMessage::Refresh,
        0x0113 => BarMessage::Timer,
        0x000F => BarMessage::Paint,
        0x0014 => BarMessage::EraseBackground,
        0x0021 => BarMessage::MouseActivate,
        0x0312 => BarMessage::Hotkey,
        0x0020 => BarMessage::SetCursor,
        0x0084 => BarMessage::HitTest,
        0x0200 => BarMessage::MouseMove,
        0x02A3 => BarMessage::MouseLeave,
        0x0201 => BarMessage::ButtonDown,
        0x0202 => BarMessage::ButtonUp,
        0x0002 => BarMessage::Destroy,
        _ => BarMessage::Other,
    }
}

/// The answer to a hit test, and the place of the pointer in a cursor message, that stand for
/// the inside of the window.
pub const HT_CLIENT: isize = 1;

/// The answer to a hit test that lets the click through to what is below.
pub const HT_TRANSPARENT: isize = -1;

/// The answer that takes a click without activating the window.
pub const MA_NO_ACTIVATE: isize = 3;

/// The point of the window, relative to its corner, that a message is about.
pub open spec fn point_of(
    msg: BarMessage,
    lparam: isize,
    cursor: (i32, i32),
    window: Option<Rect>,
) -> Option<(int, int)> {
    let x = geometry::low_half(lparam as int);
    let y = geometry::high_half(lparam as int);
    match msg {
        BarMessage::MouseMove | BarMessage::ButtonDown => Some((x, y)),
        BarMessage::HitTest => match window {
            Some(rc) => Some((x - rc.left, y - rc.top)),
            None => None,
        },
        BarMessage::SetCursor => match window {
            Some(rc) => Some((cursor.0 - rc.left, cursor.1 - rc.top)),
            None => None,
        },
        _ => None,
    }
}

/// The point of the window, relative to its corner, at which the caller looks for a button and
/// for the pet before it hands a message in.
pub fn hit_point(
    msg: BarMessage,
    lparam: isize,
    cursor: (i32, i32),
    window: Option<Rect>,
) -> (r: Option<(i64, i64)>)
    ensures
        r is Some <==> point_of(msg, lparam, cursor, window) is Some,
        r matches Some(p) ==> point_of(msg, lparam, cursor, window) == Some(
            (p.0 as int, p.1 as int),
        ),
{
    let (x, y) = client_pos(lparam);
    match msg {
        BarMessage::MouseMove | BarMessage::ButtonDown => Some((x as i64, y as i64)),
        BarMessage::HitTest => match window {
            Some(rc) => Some((x as i64 - rc.left as i64, y as i64 - rc.top as i64)),
            None => None,
        },
        BarMessage::SetCursor => match window {
            Some(rc) => Some((cursor.0 as i64 - rc.left as i64, cursor.1 as i64 - rc.top as i64)),
            None => None,
        },
        _ => None,
    }
}

/// What a message comes to: the window after it, the answer (none where the system answers) and
/// what the caller has to do.
pub struct Outcome {
    pub model: WindowModel,
    pub reply: Option<isize>,
    pub actions: Seq<BarAction>,
}

/// Whether the pet is hit at the point of a message.
pub open spec fn pet_at(m: WindowModel, msg: BarMessage, lparam: isize, w: World) -> bool {
    &&& point_of(msg, lparam, w.cursor, w.window) matches Some(p)
    &&& pet_hit(m.frame, p.0, p.1, w.pet_alpha)
}

/// The answer to a hit test: the pet and the rounded bar are inside of the window, everything
/// else lets the click through.
pub open spec fn hit_test_reply(m: WindowModel, lparam: isize, w: World) -> isize {
    match point_of(BarMessage::HitTest, lparam, w.cursor, w.window) {
        None => HT_CLIENT,
        Some(p) => {
            let f = m.frame;
            let ty = p.1 - f.overhang;
            if pet_at(m, BarMessage::HitTest, lparam, w) || (0 <= ty < f.toolbar_h && 0 <= p.0
                < f.toolbar_w && geometry::in_rounded(
                p.0,
                ty,
                f.toolbar_w as int,
                f.toolbar_h as int,
                f.radius,
            )) {
                HT_CLIENT
            } else {
                HT_TRANSPARENT
            }
        },
    }
}

/// Whether the pointer shows as a hand: over the pet and over a button other than the logo.
pub open spec fn shows_hand(m: WindowModel, lparam: isize, w: World) -> bool {
    &&& w.window is Some
    &&& pet_at(m, BarMessage::SetCursor, lparam, w) || (w.hit is Some && w.hit != Some(
        ToolbarButton::Logo,
    ))
}

/// Whether the pointer has left the place where the pet was pressed.
pub open spec fn moved_off(p: (i32, i32), cursor: (i32, i32)) -> bool {
    let dx = cursor.0 - p.0;
    let dy = cursor.1 - p.1;
    dx * dx + dy * dy > PET_DRAG_THRESHOLD * PET_DRAG_THRESHOLD
}

/// Moving the pointer moves a dragged window, or else changes what is hovered. A press on the
/// pet becomes a drag once the pointer has moved off.
pub open spec fn move_outcome(m: WindowModel, w: World) -> Outcome {
    let (first, done) = if m.drag is Some {
        (m, drag_move_actions(m, w))
    } else {
        (
            WindowModel { hover: w.hit, ..m },
            seq![BarAction::TrackLeave] + hover_actions(m, w.hit),
        )
    };
    if m.pet_down is Some && moved_off(m.pet_down->0, w.cursor) {
        Outcome {
            model: drag_started(WindowModel { pet_down: None, ..first }, w.cursor, w.window),
            reply: Some(0),
            actions: done + drag_start_actions(w.window),
        }
    } else {
        Outcome { model: first, reply: Some(0), actions: done }
    }
}

/// Pressing the button holds the pet, drags the window by its blank parts or the logo, or
/// presses a button.
pub open spec fn down_outcome(m: WindowModel, lparam: isize, w: World) -> Outcome {
    if pet_at(m, BarMessage::ButtonDown, lparam, w) {
        Outcome {
            model: WindowModel { pet_down: Some(w.cursor), ..m },
            reply: Some(0),
            actions: seq![BarAction::CaptureMouse],
        }
    } else if w.hit is None || w.hit == Some(ToolbarButton::Logo) {
        Outcome {
            model: drag_started(m, w.cursor, w.window),
            reply: Some(0),
            actions: drag_start_actions(w.window),
        }
    } else {
        Outcome {
            model: WindowModel { pressed: w.hit, ..m },
            reply: Some(0),
            actions: window::given(m.shown, seq![BarAction::Repaint]),
        }
    }
}

/// Letting the button go clicks the pet or the pressed button, and ends a drag.
pub open spec fn up_outcome(m: WindowModel, w: World) -> Outcome {
    if m.pet_down is Some {
        let free = WindowModel { pet_down: None, ..m };
        if m.drag is None {
            Outcome {
                model: free,
                reply: Some(0),
                actions: seq![BarAction::ReleaseMouse] + pet_click_actions(free),
            }
        } else {
            Outcome {
                model: drag_ended(free, w),
                reply: Some(0),
                actions: drag_end_actions(free, w),
            }
        }
    } else {
        let free = WindowModel { pressed: None, ..m };
        let clicked = match m.pressed {
            Some(b) => window::given(m.shown, seq![BarAction::Repaint]) + window::given(
                m.drag is None,
                seq![BarAction::ReleaseMouse],
            ) + click_actions(m.board, b),
            None => Seq::empty(),
        };
        if m.drag is Some {
            Outcome {
                model: drag_ended(free, w),
                reply: Some(0),
                actions: clicked + drag_end_actions(free, w),
            }
        } else {
            Outcome { model: free, reply: Some(0), actions: clicked }
        }
    }
}

/// What a message comes to. `evs` is the queue.
pub open spec fn outcome(
    m: WindowModel,
    evs: Seq<BarEvent>,
    msg: BarMessage,
    wparam: usize,
    lparam: isize,
    w: World,
) -> Outcome {
    match msg {
        BarMessage::Refresh => Outcome {
            model: window::after_events(m, evs, w.settings_open, w.ready),
            reply: Some(0),
            actions: window::refresh_actions(m, evs, w.theme_changed, w.settings_open, w.ready),
        },
        BarMessage::Timer => Outcome {
            model: m,
            reply: Some(0),
            actions: window::given(wparam == PET_TIMER_ID, pet_tick_actions(m)),
        },
        BarMessage::Paint => Outcome {
            model: m,
            reply: Some(0),
            actions: seq![BarAction::Validate],
        },
        BarMessage::EraseBackground => Outcome { model: m, reply: Some(1), actions: Seq::empty() },
        BarMessage::MouseActivate => Outcome {
            model: m,
            reply: Some(MA_NO_ACTIVATE),
            actions: Seq::empty(),
        },
        BarMessage::Hotkey => {
            let id = wparam as int % 0x10000;
            Outcome {
                model: m,
                reply: Some(0),
                actions: window::given(
                    id < 12,
                    hotkey_actions(m.board, hotkey::all_actions()[id / 2]),
                ),
            }
        },
        BarMessage::SetCursor => if geometry::low_half(lparam as int) == HT_CLIENT {
            Outcome {
                model: m,
                reply: Some(1),
                actions: seq![BarAction::SetCursor(shows_hand(m, lparam, w))],
            }
        } else {
            Outcome { model: m, reply: None, actions: Seq::empty() }
        },
        BarMessage::HitTest => Outcome {
            model: m,
            reply: Some(hit_test_reply(m, lparam, w)),
            actions: Seq::empty(),
        },
        BarMessage::MouseMove => move_outcome(m, w),
        BarMessage::MouseLeave => Outcome {
            model: WindowModel { hover: None, ..m },
            reply: Some(0),
            actions: seq![BarAction::TipHide] + window::given(m.shown, seq![BarAction::Repaint]),
        },
        BarMessage::ButtonDown => down_outcome(m, lparam, w),
        BarMessage::ButtonUp => up_outcome(m, w),
        BarMessage::Destroy => Outcome { model: m, reply: Some(0), actions: Seq::empty() },
        BarMessage::Other => Outcome { model: m, reply: None, actions: Seq::empty() },
    }
}

impl ToolbarWindow {
    fn pet_under(&self, msg: BarMessage, lparam: isize, w: &World) -> (r: bool)
        ensures
            r == pet_at(self@, msg, lparam, *w),
    {
        match hit_point(msg, lparam, w.cursor, w.window) {
            Some((x, y)) => self.pet_pixel_hit(x, y, w.pet_alpha),
            None => false,
        }
    }

    fn hit_test(&self, lparam: isize, w: &World) -> (r: isize)
        ensures
            r == hit_test_reply(self@, lparam, *w),
    {
        match hit_point(BarMessage::HitTest, lparam, w.cursor, w.window) {
            None => HT_CLIENT,
            Some((x, y)) => {
                if self.pet_under(BarMessage::HitTest, lparam, w) {
                    return HT_CLIENT;
                }
                let f: BarFrame = self.frame;
                let ty: i64 = y - f.overhang as i64;
                if ty >= 0 && ty < f.toolbar_h as i64 && x >= 0 && x < f.toolbar_w as i64
                    && in_rounded_rect(x as i32, ty as i32, f.toolbar_w, f.toolbar_h, f.radius) {
                    HT_CLIENT
                } else {
                    HT_TRANSPARENT
                }
            },
        }
    }

    fn on_move(&mut self, w: &World, out: &mut Vec<BarAction>)
        ensures
            final(self)@ == move_outcome(old(self)@, *w).model,
            final(out)@ == old(out)@ + move_outcome(old(self)@, *w).actions,
    {
        let ghost m = self@;
        let ghost before = out@;
        if self.drag.is_some() {
            self.drag_move(w, out);
        } else {
            out.push(BarAction::TrackLeave);
            self.on_hover(w.hit, out);
        }
        if let Some((px, py)) = self.pet_down {
            let dx: i64 = w.cursor.0 as i64 - px as i64;
            let dy: i64 = w.cursor.1 as i64 - py as i64;
            if square(dx) + square(dy) > (PET_DRAG_THRESHOLD * PET_DRAG_THRESHOLD) as i128 {
                self.pet_down = None;
                self.start_drag(w, out);
            }
        }
        assert(self@ =~= move_outcome(m, *w).model);
        assert(out@ =~= before + move_outcome(m, *w).actions);
    }

    fn on_down(&mut self, lparam: isize, w: &World, out: &mut Vec<BarAction>)
        ensures
            final(self)@ == down_outcome(old(self)@, lparam, *w).model,
            final(out)@ == old(out)@ + down_outcome(old(self)@, lparam, *w).actions,
    {
        let ghost m = self@;
        let ghost before = out@;
        if self.pet_under(BarMessage::ButtonDown, lparam, w) {
            self.pet_down = Some(w.cursor);
            out.push(BarAction::CaptureMouse);
        } else {
            match w.hit {
                None | Some(ToolbarButton::Logo) => self.start_drag(w, out),
                Some(b) => {
                    self.pressed = Some(b);
                    self.repaint(out);
                },
            }
        }
        assert(self@ =~= down_outcome(m, lparam, *w).model);
        assert(out@ =~= before + down_outcome(m, lparam, *w).actions);
    }

    fn on_up(&mut self, w: &World, out: &mut Vec<BarAction>)
        ensures
            final(self)@ == up_outcome(old(self)@, *w).model,
            final(out)@ == old(out)@ + up_outcome(old(self)@, *w).actions,
    {
        let ghost m = self@;
        let ghost before = out@;
        if self.pet_down.is_some() {
            self.pet_down = None;
            if self.drag.is_none() {
                out.push(BarAction::ReleaseMouse);
                self.on_pet_click(out);
            } else {
                self.end_drag(w, out);
            }
        } else {
            if let Some(b) = self.pressed {
                self.pressed = None;
                self.repaint(out);
                if self.drag.is_none() {
                    out.push(BarAction::ReleaseMouse);
                }
                self.on_click(b, out);
            }
            if self.drag.is_some() {
                self.end_drag(w, out);
            }
        }
        assert(self@ =~= up_outcome(m, *w).model);
        assert(out@ =~= before + up_outcome(m, *w).actions);
    }

    /// The window procedure: takes a message, answers it (`None` where the system is to
    /// answer), and says what the caller has to do.
    pub fn bar_wnd_proc(
        &mut self,
        queue: &mut VecDeque<BarEvent>,
        msg: BarMessage,
        wparam: usize,
        lparam: isize,
        w: &World,
        out: &mut Vec<BarAction>,
    ) -> (reply: Option<isize>)
        ensures
            ({
                let o = outcome(old(self)@, old(queue)@, msg, wparam, lparam, *w);
                &&& final(self)@ == o.model
                &&& reply == o.reply
                &&& final(out)@ == old(out)@ + o.actions
                &&& final(queue)@ == if msg == BarMessage::Refresh {
                    Seq::<BarEvent>::empty()
                } else {
                    old(queue)@
                }
            }),
    {
        let ghost m = self@;
        let ghost evs = queue@;
        let ghost before = out@;
        let reply: Option<isize> = match msg {
            BarMessage::Refresh => {
                self.reconcile(queue, w.theme_changed, w.settings_open, w.ready, out);
                Some(0)
            },
            BarMessage::Timer => {
                if wparam == PET_TIMER_ID {
                    self.on_pet_tick(out);
                }
                Some(0)
            },
            BarMessage::Paint => {
                out.push(BarAction::Validate);
                Some(0)
            },
            BarMessage::EraseBackground => Some(1),
            BarMessage::MouseActivate => Some(MA_NO_ACTIVATE),
            BarMessage::Hotkey => {
                let id: usize = wparam % 0x10000;
                if let Some((a, secondary)) = hotkey_from_id(id) {
                    proof {
                        assert(hotkey::all_actions()[hotkey::action_number(a)] == a);
                        assert(id as int / 2 == hotkey::action_number(a));
                    }
                    self.on_hotkey(a, out);
                }
                Some(0)
            },
            BarMessage::SetCursor => {
                if client_pos(lparam).0 as isize == HT_CLIENT {
                    let on_button: bool = match w.hit {
                        None | Some(ToolbarButton::Logo) => false,
                        Some(_) => true,
                    };
                    let hand: bool = w.window.is_some() && (self.pet_under(
                        BarMessage::SetCursor,
                        lparam,
                        w,
                    ) || on_button);
                    out.push(BarAction::SetCursor(hand));
                    Some(1)
                } else {
                    None
                }
            },
            BarMessage::HitTest => Some(self.hit_test(lparam, w)),
            BarMessage::MouseMove => {
                self.on_move(w, out);
                Some(0)
            },
            BarMessage::MouseLeave => {
                self.hover = None;
                out.push(BarAction::TipHide);
                self.repaint(out);
                Some(0)
            },
            BarMessage::ButtonDown => {
                self.on_down(lparam, w, out);
                Some(0)
            },
            BarMessage::ButtonUp => {
                self.on_up(w, out);
                Some(0)
            },
            BarMessage::Destroy => Some(0),
            BarMessage::Other => None,
        };
        assert(self@ =~= outcome(m, evs, msg, wparam, lparam, *w).model);
        assert(out@ =~= before + outcome(m, evs, msg, wparam, lparam, *w).actions);
        reply
    }

    /// Where the caller looks up the work area before it hands a message in: at the place that
    /// a dragged window is moved to, or was left at.
    pub fn work_point(
        &self,
        msg: BarMessage,
        cursor: (i32, i32),
        window: Option<Rect>,
    ) -> (r: Option<(i32, i32)>)
        ensures
            r == (match self@.drag {
                None => None::<(i32, i32)>,
                Some(offset) => match msg {
                    BarMessage::MouseMove => Some(
                        (
                            drag_target(offset, cursor).0 as i32,
                            drag_target(offset, cursor).1 as i32,
                        ),
                    ),
                    BarMessage::ButtonUp => match window {
                        Some(rc) => Some((rc.left, rc.top)),
                        None => None,
                    },
                    _ => None,
                },
            }),
    {
        match self.drag {
            None => None,
            Some((ox, oy)) => match msg {
                BarMessage::MouseMove => Some(
                    (saturate(cursor.0 as i64 - ox as i64), saturate(cursor.1 as i64 - oy as i64)),
                ),
                BarMessage::ButtonUp => match window {
                    Some(rc) => Some((rc.left, rc.top)),
                    None => None,
                },
                _ => None,
            },
        }
    }
}

/// A drag begins and ends with the same pointer where the window is: moving the pointer by some
/// distance moves the window by the same distance, as long as it stays inside the work area.
pub proof fn law_drag_follows_pointer(
    m: WindowModel,
    cursor: (i32, i32),
    rc: Rect,
    w: World,
    work: Rect,
)
    requires
        w.window == Some(rc),
        w.work == Some(work),
        0 <= rc.width() <= i32::MAX,
        0 <= rc.height() <= i32::MAX,
        i32::MIN <= cursor.0 - rc.left <= i32::MAX,
        i32::MIN <= cursor.1 - rc.top <= i32::MAX,
        work.contains_window(
            rc.left + (w.cursor.0 - cursor.0),
            rc.top + (w.cursor.1 - cursor.1),
            rc.width(),
            rc.height(),
        ),
    ensures
        drag_move_actions(drag_started(m, cursor, Some(rc)), w) == seq![
            BarAction::MoveTo(
                (rc.left + (w.cursor.0 - cursor.0)) as i32,
                (rc.top + (w.cursor.1 - cursor.1)) as i32,
            ),
        ],
{
}

/// No message makes the toolbar show against the preference or without a bound instance.
pub proof fn law_messages_keep_wf(
    m: WindowModel,
    evs: Seq<BarEvent>,
    msg: BarMessage,
    wparam: usize,
    lparam: isize,
    w: World,
)
    requires
        m.wf(),
    ensures
        outcome(m, evs, msg, wparam, lparam, w).model.wf(),
{
    window::law_shows_only_when_wanted(m, evs, w.settings_open, w.ready);
}

/// Pressing and letting go over a switch, off the pet, sends the instance the one command that
/// turns the switch over, and leaves no button pressed.
pub proof fn law_press_and_release(m: WindowModel, lparam: isize, w: World, v: World)
    requires
        !pet_at(m, BarMessage::ButtonDown, lparam, w),
        m.pet_down is None,
        m.drag is None,
        w.hit is Some,
        flip_of(w.hit->0, m.board.focused_state()) is Some,
        m.board.focused is Some,
    ensures
        ({
            let down = down_outcome(m, lparam, w);
            let up = up_outcome(down.model, v);
            let id = m.board.focused->0;
            let redraw = window::given(m.shown, seq![BarAction::Repaint]);
            &&& up.model == (WindowModel { pressed: None, ..m })
            &&& down.actions == redraw
            &&& up.actions == redraw + seq![
                BarAction::ReleaseMouse,
                BarAction::Control {
                    pid: id.0,
                    tid: id.1,
                    cmd: flip_of(w.hit->0, m.board.focused_state())->0,
                },
            ]
        }),
{
    assert(up_outcome(down_outcome(m, lparam, w).model, v).actions =~= window::given(
        m.shown,
        seq![BarAction::Repaint],
    ) + seq![
        BarAction::ReleaseMouse,
        BarAction::Control {
            pid: (m.board.focused->0).0,
            tid: (m.board.focused->0).1,
            cmd: flip_of(w.hit->0, m.board.focused_state())->0,
        },
    ]);
}

/// Whether actions are one command for an instance that changes of the switches `s` those that
/// are named, and no other.
pub open spec fn turns_over(
    done: Seq<BarAction>,
    id: (u32, u32),
    s: ImeState,
    mode: bool,
    width: bool,
    script: bool,
    punct: bool,
) -> bool {
    &&& done.len() == 1
    &&& done[0] matches BarAction::Control { pid, tid, cmd }
    &&& (pid, tid) == id
    &&& (wire::after_cmd(s, cmd).mode != s.mode) == mode
    &&& (wire::after_cmd(s, cmd).width != s.width) == width
    &&& (wire::after_cmd(s, cmd).script != s.script) == script
    &&& (wire::after_cmd(s, cmd).punct != s.punct) == punct
}

/// The hotkey of a switch turns over that switch of the bound instance, and no other; without
/// one it does nothing. The hotkeys of the settings and of the toolbar work without one too.
pub proof fn law_hotkey_turns_its_switch(board: BoardModel)
    ensures
        board.focused matches Some(id) ==> {
            let s = board.state_of(id);
            &&& turns_over(
                hotkey_actions(board, GlobalAction::ToggleMode),
                id,
                s,
                true,
                false,
                false,
                false,
            )
            &&& turns_over(
                hotkey_actions(board, GlobalAction::ToggleWidth),
                id,
                s,
                false,
                true,
                false,
                false,
            )
            &&& turns_over(
                hotkey_actions(board, GlobalAction::ToggleScript),
                id,
                s,
                false,
                false,
                true,
                false,
            )
            &&& turns_over(
                hotkey_actions(board, GlobalAction::TogglePunct),
                id,
                s,
                false,
                false,
                false,
                true,
            )
        },
        board.focused is None ==> forall|a: GlobalAction|
            a != GlobalAction::OpenSettings && a != GlobalAction::ToggleToolbar
                ==> #[trigger] hotkey_actions(board, a) =~= Seq::<BarAction>::empty(),
        hotkey_actions(board, GlobalAction::OpenSettings) == seq![BarAction::OpenSettings],
        hotkey_actions(board, GlobalAction::ToggleToolbar) == seq![BarAction::ToggleToolbar],
{
}

/// A click on a button turns over the switch that the button stands for, of the bound instance,
/// and no other; the gear opens the settings, and the logo does nothing. Without a bound instance
/// no click does anything.
pub proof fn law_click_turns_its_switch(board: BoardModel, b: ToolbarButton)
    ensures
        board.focused is None ==> click_actions(board, b) =~= Seq::<BarAction>::empty(),
        board.focused matches Some(id) ==> {
            let s = board.state_of(id);
            &&& turns_over(
                click_actions(board, ToolbarButton::Mode),
                id,
                s,
                true,
                false,
                false,
                false,
            )
            &&& turns_over(
                click_actions(board, ToolbarButton::Width),
                id,
                s,
                false,
                true,
                false,
                false,
            )
            &&& turns_over(
                click_actions(board, ToolbarButton::Script),
                id,
                s,
                false,
                false,
                true,
                false,
            )
            &&& turns_over(
                click_actions(board, ToolbarButton::Punct),
                id,
                s,
                false,
                false,
                false,
                true,
            )
            &&& click_actions(board, ToolbarButton::Gear) == seq![BarAction::OpenSettings]
            &&& click_actions(board, ToolbarButton::Logo) =~= Seq::<BarAction>::empty()
        },
{
}

/// A hotkey that was registered for an action, in either of its slots, does that action when it
/// is pressed; a number that was given to none does nothing. The window stays as it is.
pub proof fn law_hotkey_message_acts(
    m: WindowModel,
    evs: Seq<BarEvent>,
    a: GlobalAction,
    secondary: bool,
    wparam: usize,
    lparam: isize,
    w: World,
)
    ensures
        ({
            let o = outcome(m, evs, BarMessage::Hotkey, wparam, lparam, w);
            &&& o.model == m
            &&& o.reply == Some(0isize)
            &&& wparam == hotkey::id_of(a, secondary) ==> o.actions == hotkey_actions(m.board, a)
            &&& 12 <= wparam < 0x10000 ==> o.actions =~= Seq::<BarAction>::empty()
        }),
{
}

/// A drag that ends leaves the window where it was let go: where it is wholly on the work area,
/// the place that is remembered is its left top corner, that is what is stored, and there it is
/// put when it shows again. A window that stands out is remembered wholly inside, if it fits.
/// Where the window cannot be found, the place remembered before stays, and nothing is stored.
/// All else stays as it is.
pub proof fn law_drag_is_remembered(m: WindowModel, w: World)
    ensures
        ({
            let n = drag_ended(m, w);
            let done = drag_end_actions(m, w);
            let a = geometry::area_or_fallback(w.work);
            &&& n.drag is None
            &&& n == (WindowModel { drag: None, board: n.board, ..m })
            &&& n.board == (BoardModel { pos: n.board.pos, ..m.board })
            &&& done[0] == BarAction::ReleaseMouse
            &&& w.window is None ==> n.board.pos == m.board.pos && done.len() == 1
            &&& w.window is Some ==> {
                let rc = w.window->0;
                &&& n.board.pos is Some
                &&& done.len() == 2
                &&& done[1] == BarAction::SavePref(
                    ToolbarPref { visible: m.board.visible, pos: n.board.pos },
                )
                &&& 0 <= rc.width() && 0 <= rc.height() && a.contains_window(
                    rc.left as int,
                    rc.top as int,
                    rc.width(),
                    rc.height(),
                ) ==> {
                    &&& n.board.pos == Some((rc.left, rc.top))
                    &&& geometry::kept_inside(
                        (n.board.pos->0).0 as int,
                        rc.width(),
                        a.left as int,
                        a.right as int,
                    ) == rc.left
                    &&& geometry::kept_inside(
                        (n.board.pos->0).1 as int,
                        rc.height(),
                        a.top as int,
                        a.bottom as int,
                    ) == rc.top
                }
                &&& 0 <= rc.width() <= i32::MAX && 0 <= rc.height() <= i32::MAX && rc.width()
                    <= a.width() && rc.height() <= a.height() ==> a.contains_window(
                    (n.board.pos->0).0 as int,
                    (n.board.pos->0).1 as int,
                    rc.width(),
                    rc.height(),
                )
            }
        }),
{
    if let Some(rc) = w.window {
        let a = geometry::area_or_fallback(w.work);
        if 0 <= rc.width() <= i32::MAX && 0 <= rc.height() <= i32::MAX && rc.width() <= a.width()
            && rc.height() <= a.height() {
            geometry::law_clamped_window_inside(
                rc.left as int,
                rc.top as int,
                rc.width(),
                rc.height(),
                a,
            );
        }
    }
}

/// A drag begins by holding on to the window where the pointer is: pointer less corner is what is
/// kept, and the mouse is captured. While it is dragged a window that fits stays wholly on the
/// work area; without a drag the pointer moves nothing.
pub proof fn law_drag_holds_on(m: WindowModel, w: World)
    ensures
        w.window matches Some(rc) ==> {
            let n = drag_started(m, w.cursor, w.window);
            &&& n.drag is Some
            &&& i32::MIN <= w.cursor.0 - rc.left <= i32::MAX ==> (n.drag->0).0 + rc.left == w.cursor.0
            &&& i32::MIN <= w.cursor.1 - rc.top <= i32::MAX ==> (n.drag->0).1 + rc.top == w.cursor.1
            &&& n == (WindowModel { drag: n.drag, ..m })
            &&& drag_start_actions(w.window) == seq![BarAction::CaptureMouse]
        },
        w.window is None ==> drag_started(m, w.cursor, w.window) == m,
        w.window is None ==> drag_start_actions(w.window) =~= Seq::<BarAction>::empty(),
        m.drag is None ==> drag_move_actions(m, w) =~= Seq::<BarAction>::empty(),
        m.drag is Some ==> drag_move_actions(m, w).len() == 1 && drag_move_actions(m, w)[0]
            is MoveTo,
        (w.window matches Some(rc) && m.drag is Some && 0 <= rc.width() <= i32::MAX && 0
            <= rc.height() <= i32::MAX && rc.width() <= geometry::area_or_fallback(w.work).width()
            && rc.height() <= geometry::area_or_fallback(w.work).height()) ==> (
        drag_move_actions(m, w)[0] matches BarAction::MoveTo(x, y) && geometry::area_or_fallback(
            w.work,
        ).contains_window(x as int, y as int, w.window->0.width(), w.window->0.height())),
{
    if let Some(rc) = w.window {
        if let Some(offset) = m.drag {
            let a = geometry::area_or_fallback(w.work);
            let (x, y) = drag_target(offset, w.cursor);
            if 0 <= rc.width() <= i32::MAX && 0 <= rc.height() <= i32::MAX && rc.width()
                <= a.width() && rc.height() <= a.height() {
                geometry::law_clamped_window_inside(x, y, rc.width(), rc.height(), a);
            }
        }
    }
}

/// The pet is there for the pointer where it is drawn: inside its box, on points that are not
/// nearly transparent; without a pet nowhere.
pub proof fn law_pet_is_where_drawn(f: BarFrame, x: int, y: int, alpha: u8)
    ensures
        pet_hit(f, x, y, alpha) ==> f.pet is Some && alpha > 32,
        f.pet matches Some(p) ==> (pet_hit(f, x, y, alpha) <==> alpha > 32 && 0 <= x - p.x < p.w
            && 0 <= y - p.y < p.h),
{
}

/// Pressing the pet and letting go without moving away is a click on it; moving more than four
/// pixels away begins a drag instead, and there is no click then.
pub proof fn law_pet_click_or_drag(m: WindowModel, lparam: isize, w: World, v: World, u: World)
    requires
        pet_at(m, BarMessage::ButtonDown, lparam, w),
        m.drag is None,
        v.window is Some,
    ensures
        ({
            let down = down_outcome(m, lparam, w);
            let still = up_outcome(down.model, u);
            let moved = move_outcome(down.model, v);
            let far = v.cursor.0 - w.cursor.0 > 4 || w.cursor.0 - v.cursor.0 > 4 || v.cursor.1
                - w.cursor.1 > 4 || w.cursor.1 - v.cursor.1 > 4;
            let dragged = up_outcome(moved.model, u);
            &&& down.actions == seq![BarAction::CaptureMouse]
            &&& down.model == (WindowModel { pet_down: Some(w.cursor), ..m })
            &&& still.actions.contains(BarAction::PetClick)
            &&& still.actions[0] == BarAction::ReleaseMouse
            &&& still.model == (WindowModel { pet_down: None, ..m })
            &&& far ==> {
                &&& moved.model.drag is Some
                &&& moved.model.pet_down is None
                &&& moved.actions.contains(BarAction::CaptureMouse)
                &&& !dragged.actions.contains(BarAction::PetClick)
                &&& dragged.model.drag is None
            }
            &&& v.cursor == w.cursor ==> moved.model.drag is None && moved.model.pet_down
                == Some(w.cursor)
        }),
{
    let down = down_outcome(m, lparam, w);
    let still = up_outcome(down.model, u);
    let moved = move_outcome(down.model, v);
    assert(still.actions[1] == BarAction::PetClick);
    let dx = v.cursor.0 - w.cursor.0;
    let dy = v.cursor.1 - w.cursor.1;
    assert(dx * dx >= 0 && dy * dy >= 0) by (nonlinear_arith);
    assert(dx > 4 || dx < -4 ==> dx * dx > 16) by (nonlinear_arith);
    assert(dy > 4 || dy < -4 ==> dy * dy > 16) by (nonlinear_arith);
    assert(dx == 0 ==> dx * dx == 0) by (nonlinear_arith);
    assert(dy == 0 ==> dy * dy == 0) by (nonlinear_arith);
    if moved_off(w.cursor, v.cursor) {
        assert(moved.actions.last() == BarAction::CaptureMouse);
        let n = moved.model;
        let dragged = up_outcome(n, u);
        assert(n.pet_down is None && n.drag is Some);
        if let Some(b) = n.pressed {
            law_click_turns_its_switch(n.board, b);
        }
    }
}

/// How far off the pointer has to be for a drag of the pet: by its distance.
pub proof fn law_moved_off(p: (i32, i32), q: (i32, i32))
    ensures
        moved_off(p, q) == moved_off(q, p),
        -2 <= p.0 - q.0 <= 2 && -2 <= p.1 - q.1 <= 2 ==> !moved_off(p, q),
        p.0 == q.0 ==> (moved_off(p, q) <==> !(-4 <= p.1 - q.1 <= 4)),
        p.1 == q.1 ==> (moved_off(p, q) <==> !(-4 <= p.0 - q.0 <= 4)),
{
    let dx = q.0 - p.0;
    let dy = q.1 - p.1;
    assert((p.0 - q.0) * (p.0 - q.0) == dx * dx) by (nonlinear_arith)
        requires
            dx == q.0 - p.0,
    ;
    assert((p.1 - q.1) * (p.1 - q.1) == dy * dy) by (nonlinear_arith)
        requires
            dy == q.1 - p.1,
    ;
    assert(-2 <= dx <= 2 ==> dx * dx <= 4) by (nonlinear_arith);
    assert(-2 <= dy <= 2 ==> dy * dy <= 4) by (nonlinear_arith);
    assert(dx * dx > 16 <==> !(-4 <= dx <= 4)) by (nonlinear_arith);
    assert(dy * dy > 16 <==> !(-4 <= dy <= 4)) by (nonlinear_arith);
    assert(dx == 0 ==> dx * dx == 0) by (nonlinear_arith);
    assert(dy == 0 ==> dy * dy == 0) by (nonlinear_arith);
}

/// Pressing the bar away from its buttons, or on the logo, takes hold of it; pressing a button
/// marks the button, takes hold of nothing, and does nothing else until it is let go.
pub proof fn law_pressing(m: WindowModel, lparam: isize, w: World)
    requires
        !pet_at(m, BarMessage::ButtonDown, lparam, w),
    ensures
        ({
            let down = down_outcome(m, lparam, w);
            let blank = w.hit is None || w.hit == Some(ToolbarButton::Logo);
            &&& blank && w.window is Some ==> down.model.drag is Some && down.actions == seq![
                BarAction::CaptureMouse,
            ]
            &&& blank ==> down.model == (WindowModel { drag: down.model.drag, ..m })
            &&& !blank ==> down.model == (WindowModel { pressed: w.hit, ..m })
            &&& !blank ==> forall|a: BarAction| #[trigger]
                down.actions.contains(a) ==> a == BarAction::Repaint
            &&& !blank && m.shown ==> down.actions.len() == 1
            &&& down.reply == Some(0isize)
        }),
{
}

/// Letting go ends what was begun: no button is pressed and nothing is dragged any more. A button
/// that was pressed is clicked, a drag that was going on is remembered, and where neither was,
/// nothing happens.
pub proof fn law_letting_go(m: WindowModel, w: World)
    requires
        m.pet_down is None,
    ensures
        ({
            let up = up_outcome(m, w);
            let clicked = click_actions(m.board, m.pressed->0);
            &&& up.model.pressed is None
            &&& up.model.drag is None
            &&& up.reply == Some(0isize)
            &&& m.pressed is None && m.drag is None ==> up.actions =~= Seq::<BarAction>::empty()
                && up.model == m
            &&& m.drag is Some ==> up.model.board == drag_ended(m, w).board
            &&& m.drag is None ==> up.model.board == m.board
            &&& m.drag is Some && m.pressed is None ==> up.actions =~= drag_end_actions(m, w)
            &&& m.drag is None && m.pressed is Some ==> up.actions.len() >= clicked.len()
                && up.actions.skip(up.actions.len() - clicked.len()) =~= clicked
                && up.actions.contains(BarAction::ReleaseMouse)
        }),
{
    let up = up_outcome(m, w);
    if m.drag is None && m.pressed is Some {
        let i: int = if m.shown {
            1
        } else {
            0
        };
        assert(up.actions[i] == BarAction::ReleaseMouse);
    }
}

/// The pointer over the bar: the button below it is noted, its tooltip comes up once when the
/// pointer comes to it, and goes where there is none; the bar is drawn anew exactly where the
/// noted button changes and it shows. A bar that is dragged follows the pointer instead.
pub proof fn law_hovering(m: WindowModel, w: World)
    requires
        m.pet_down is None,
    ensures
        ({
            let o = move_outcome(m, w);
            let hover = hover_actions(m, w.hit);
            &&& m.drag is Some ==> o.model == m && o.actions == drag_move_actions(m, w)
            &&& m.drag is None ==> o.model == (WindowModel { hover: w.hit, ..m }) && o.actions
                == seq![BarAction::TrackLeave] + hover
            &&& hover.contains(BarAction::Repaint) <==> m.shown && w.hit != m.hover
            &&& (w.hit matches Some(b) && b != ToolbarButton::Logo) ==> (hover.contains(
                BarAction::TipShow(w.hit->0),
            ) <==> w.hit != m.hover)
            &&& w.hit is None || w.hit == Some(ToolbarButton::Logo) ==> hover.contains(
                BarAction::TipHide,
            )
            &&& forall|b: ToolbarButton| #[trigger]
                hover.contains(BarAction::TipShow(b)) ==> w.hit == Some(b)
        }),
{
    let hover = hover_actions(m, w.hit);
    if let Some(b) = w.hit {
        window::law_tooltips_differ(b, b);
        if b != ToolbarButton::Logo && w.hit != m.hover {
            assert(hover[0] == BarAction::TipShow(b));
        }
    }
    if w.hit is None || w.hit == Some(ToolbarButton::Logo) {
        assert(hover[0] == BarAction::TipHide);
    }
    if m.shown && w.hit != m.hover {
        assert(hover.last() == BarAction::Repaint);
    }
}

/// The pointer that leaves takes the mark and the tooltip with it.
pub proof fn law_leaving(
    m: WindowModel,
    evs: Seq<BarEvent>,
    wparam: usize,
    lparam: isize,
    w: World,
)
    ensures
        ({
            let o = outcome(m, evs, BarMessage::MouseLeave, wparam, lparam, w);
            &&& o.model == (WindowModel { hover: None, ..m })
            &&& o.actions[0] == BarAction::TipHide
            &&& m.shown ==> o.actions.len() == 2 && o.actions[1] == BarAction::Repaint
            &&& !m.shown ==> o.actions.len() == 1
        }),
{
}

/// Clicks go through the window wherever nothing is drawn: outside of the bar and of the pet, and
/// outside of the bar's rounded corners. The bar and the pet take them.
pub proof fn law_clicks_go_through(m: WindowModel, lparam: isize, w: World)
    requires
        w.window is Some,
    ensures
        ({
            let rc = w.window->0;
            let x = geometry::low_half(lparam as int) - rc.left;
            let y = geometry::high_half(lparam as int) - rc.top;
            let f = m.frame;
            let on_pet = pet_hit(f, x, y, w.pet_alpha);
            let on_bar = 0 <= x < f.toolbar_w && f.overhang <= y < f.overhang + f.toolbar_h;
            let reply = hit_test_reply(m, lparam, w);
            &&& on_pet ==> reply == 1
            &&& !on_pet && !on_bar ==> reply == -1
            &&& !on_pet && on_bar ==> (reply == 1 <==> geometry::in_rounded(
                x,
                y - f.overhang,
                f.toolbar_w as int,
                f.toolbar_h as int,
                f.radius,
            ))
            &&& reply == 1 || reply == -1
        }),
{
}

/// The pointer is a hand exactly over the pet and over a button that does something.
pub proof fn law_hand_over_what_acts(m: WindowModel, lparam: isize, w: World)
    ensures
        w.window is None ==> !shows_hand(m, lparam, w),
        w.window matches Some(rc) ==> (shows_hand(m, lparam, w) <==> pet_hit(
            m.frame,
            w.cursor.0 - rc.left,
            w.cursor.1 - rc.top,
            w.pet_alpha,
        ) || (w.hit matches Some(b) && b != ToolbarButton::Logo)),
{
}

/// Where a message happened, in the window: the pointer messages tell it themselves, a hit test
/// tells a place on the screen.
pub proof fn law_point_in_window(msg: BarMessage, lparam: isize, cursor: (i32, i32), rc: Rect)
    ensures
        point_of(BarMessage::MouseMove, lparam, cursor, Some(rc)) == Some(
            (geometry::low_half(lparam as int), geometry::high_half(lparam as int)),
        ),
        point_of(BarMessage::ButtonDown, lparam, cursor, Some(rc)) == point_of(
            BarMessage::MouseMove,
            lparam,
            cursor,
            None,
        ),
        point_of(BarMessage::HitTest, lparam, cursor, Some(rc)) matches Some(p) && p.0 + rc.left
            == geometry::low_half(lparam as int) && p.1 + rc.top == geometry::high_half(
            lparam as int,
        ),
        point_of(BarMessage::SetCursor, lparam, cursor, Some(rc)) matches Some(p) && p.0 + rc.left
            == cursor.0 && p.1 + rc.top == cursor.1,
{
}

/// A click never activates the window, its background is never erased by the system, painting
/// only validates it, and only the pet's own timer moves the pet, by the time that it runs. None
/// of these messages, nor one that the window does not know, changes it.
pub proof fn law_plain_messages(
    m: WindowModel,
    evs: Seq<BarEvent>,
    wparam: usize,
    lparam: isize,
    w: World,
)
    ensures
        ({
            let erase = outcome(m, evs, BarMessage::EraseBackground, wparam, lparam, w);
            let press = outcome(m, evs, BarMessage::MouseActivate, wparam, lparam, w);
            let paint = outcome(m, evs, BarMessage::Paint, wparam, lparam, w);
            let timer = outcome(m, evs, BarMessage::Timer, wparam, lparam, w);
            let hit = outcome(m, evs, BarMessage::HitTest, wparam, lparam, w);
            let cursor = outcome(m, evs, BarMessage::SetCursor, wparam, lparam, w);
            let other = outcome(m, evs, BarMessage::Other, wparam, lparam, w);
            let gone = outcome(m, evs, BarMessage::Destroy, wparam, lparam, w);
            let none = Seq::<BarAction>::empty();
            &&& erase.model == m && erase.reply == Some(1isize) && erase.actions =~= none
            &&& press.model == m && press.reply == Some(3isize) && press.actions =~= none
            &&& paint.model == m && paint.reply == Some(0isize) && paint.actions == seq![
                BarAction::Validate,
            ]
            &&& timer.model == m && timer.reply == Some(0isize)
            &&& wparam != 0xBADC0DE ==> timer.actions =~= none
            &&& wparam == 0xBADC0DE ==> timer.actions[0] == BarAction::PetAdvance(33)
                && timer.actions[1] == BarAction::SyncPetTimer
            &&& wparam == 0xBADC0DE ==> (timer.actions.contains(BarAction::Repaint) <==> m.shown
                && m.drag is None)
            &&& hit.model == m && hit.actions =~= none && hit.reply == Some(
                hit_test_reply(m, lparam, w),
            )
            &&& cursor.model == m
            &&& geometry::low_half(lparam as int) == 1 ==> cursor.reply == Some(1isize)
                && cursor.actions == seq![BarAction::SetCursor(shows_hand(m, lparam, w))]
            &&& geometry::low_half(lparam as int) != 1 ==> cursor.reply is None && cursor.actions
                =~= none
            &&& other.model == m && other.reply is None && other.actions =~= none
            &&& gone.model == m && gone.actions =~= none
        }),
{
    let timer = outcome(m, evs, BarMessage::Timer, wparam, lparam, w);
    if m.idle() && wparam == PET_TIMER_ID {
        assert(timer.actions[2] == BarAction::Repaint);
    }
}

/// Each message that the window knows has one number, that of the system or its own.
pub proof fn law_messages_differ(a: u32, b: u32)
    ensures
        message_of(a) == message_of(b) && message_of(a) != BarMessage::Other ==> a == b,
        message_of(a) == BarMessage::Refresh <==> a == 0x8029,
        message_of(a) == BarMessage::Timer <==> a == 0x0113,
        message_of(a) == BarMessage::Paint <==> a == 0x000F,
        message_of(a) == BarMessage::EraseBackground <==> a == 0x0014,
        message_of(a) == BarMessage::MouseActivate <==> a == 0x0021,
        message_of(a) == BarMessage::Hotkey <==> a == 0x0312,
        message_of(a) == BarMessage::SetCursor <==> a == 0x0020,
        message_of(a) == BarMessage::HitTest <==> a == 0x0084,
        message_of(a) == BarMessage::MouseMove <==> a == 0x0200,
        message_of(a) == BarMessage::MouseLeave <==> a == 0x02A3,
        message_of(a) == BarMessage::ButtonDown <==> a == 0x0201,
        message_of(a) == BarMessage::ButtonUp <==> a == 0x0202,
        message_of(a) == BarMessage::Destroy <==> a == 0x0002,
{
}

/// A click on the pet reaches it, its timer runs as it needs, and what shows is drawn anew.
pub proof fn law_clicking_the_pet(m: WindowModel)
    ensures
        pet_click_actions(m)[0] == BarAction::PetClick,
        pet_click_actions(m)[1] == BarAction::SyncPetTimer,
        pet_click_actions(m).contains(BarAction::Repaint) <==> m.shown && m.drag is None,
{
    if m.idle() {
        assert(pet_click_actions(m)[2] == BarAction::Repaint);
    }
}

/// The pointer's messages and the wake-up message do what the pointer and the queue are for.
pub proof fn law_messages_reach_their_work(
    m: WindowModel,
    evs: Seq<BarEvent>,
    wparam: usize,
    lparam: isize,
    w: World,
)
    ensures
        outcome(m, evs, BarMessage::Refresh, wparam, lparam, w).model == window::after_events(
            m,
            evs,
            w.settings_open,
            w.ready,
        ),
        outcome(m, evs, BarMessage::Refresh, wparam, lparam, w).actions == window::refresh_actions(
            m,
            evs,
            w.theme_changed,
            w.settings_open,
            w.ready,
        ),
        outcome(m, evs, BarMessage::MouseMove, wparam, lparam, w) == move_outcome(m, w),
        outcome(m, evs, BarMessage::ButtonDown, wparam, lparam, w) == down_outcome(m, lparam, w),
        outcome(m, evs, BarMessage::ButtonUp, wparam, lparam, w) == up_outcome(m, w),
{
}

/// What the window answers: the system is left to answer what is none of the window's messages,
/// and for the shape of the pointer outside of it. An erased background and a pointer that was set
/// are answered by one, a press on it does not activate it, and a point is inside or lets through.
/// Everything else is answered by nothing.
pub proof fn law_answers(
    m: WindowModel,
    evs: Seq<BarEvent>,
    msg: BarMessage,
    wparam: usize,
    lparam: isize,
    w: World,
)
    ensures
        ({
            let reply = outcome(m, evs, msg, wparam, lparam, w).reply;
            let inside = geometry::low_half(lparam as int) == 1;
            &&& reply is None <==> msg == BarMessage::Other || (msg == BarMessage::SetCursor
                && !inside)
            &&& msg == BarMessage::EraseBackground ==> reply == Some(1isize)
            &&& msg == BarMessage::SetCursor && inside ==> reply == Some(1isize)
            &&& msg == BarMessage::MouseActivate ==> reply == Some(3isize)
            &&& msg == BarMessage::HitTest ==> reply == Some(1isize) || reply == Some(-1isize)
            &&& msg != BarMessage::EraseBackground && msg != BarMessage::SetCursor && msg
                != BarMessage::MouseActivate && msg != BarMessage::HitTest && msg
                != BarMessage::Other ==> reply == Some(0isize)
        }),
{
}

} // verus!
