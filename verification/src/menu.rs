//! Menus: the one of the tray icon and the one of the language bar.

use vstd::prelude::*;

use crate::geometry;
use crate::geometry::{clamp_to_work, clamp_to_work_area, Rect};

verus! {

/// A line of a menu; a separator has no text and the number 0.
#[derive(Debug, PartialEq, Eq)]
pub struct MenuEntry {
    pub label: String,
    pub id: u16,
}

/// What the lines of a menu say, and their numbers.
pub open spec fn lines_of(items: Seq<MenuEntry>) -> Seq<(Seq<char>, u16)> {
    items.map_values(|e: MenuEntry| (e.label@, e.id))
}

pub(crate) fn entry(label: &str, id: u16) -> (r: MenuEntry)
    ensures
        r.label@ == label@,
        r.id == id,
{
    MenuEntry { label: label.to_owned(), id }
}

pub const MENU_OPEN_SETTINGS: u16 = 1;

pub const MENU_ABOUT: u16 = 2;

pub const MENU_EXIT: u16 = 3;

/// The lines of the tray icon's menu.
pub fn tray_menu() -> (r: Vec<MenuEntry>)
    ensures
        lines_of(r@) == seq![
            ("打开设置"@, MENU_OPEN_SETTINGS),
            (""@, 0u16),
            ("关于 iuv"@, MENU_ABOUT),
            (""@, 0u16),
            ("退出 iuv"@, MENU_EXIT),
        ],
{
    let mut v: Vec<MenuEntry> = Vec::new();
    v.push(entry("打开设置", MENU_OPEN_SETTINGS));
    v.push(entry("", 0));
    v.push(entry("关于 iuv", MENU_ABOUT));
    v.push(entry("", 0));
    v.push(entry("退出 iuv", MENU_EXIT));
    assert(lines_of(v@) =~= seq![
        ("打开设置"@, MENU_OPEN_SETTINGS),
        (""@, 0u16),
        ("关于 iuv"@, MENU_ABOUT),
        (""@, 0u16),
        ("退出 iuv"@, MENU_EXIT),
    ]);
    v
}

/// What the tray icon's window has to do.
#[derive(Clone, Copy, Debug, PartialEq, Eq, Structural)]
pub enum TrayAction {
    OpenSettings,
    ShowMenu,
    /// Write the dictionary if it changed.
    Flush,
    /// Leave the message to the system.
    Default,
}

/// The message of the tray icon.
pub const WM_TRAY: u32 = 0x8001;

/// The number of the timer that writes the dictionary.
pub const TIMER_FLUSH: usize = 1;

/// The tray icon's window procedure: a click opens the settings, a right click the menu, the
/// timer writes the dictionary.
pub fn tray_wnd_proc(msg: u32, wparam: usize, event: u32) -> (r: TrayAction)
    ensures
        r == (if msg == WM_TRAY && event == 0x0202 {
            TrayAction::OpenSettings
        } else if msg == WM_TRAY && (event == 0x0205 || event == 0x007B) {
            TrayAction::ShowMenu
        } else if msg == 0x0113 && wparam == TIMER_FLUSH {
            TrayAction::Flush
        } else {
            TrayAction::Default
        }),
{
    if msg == WM_TRAY {
        match event {
            0x0202 => TrayAction::OpenSettings,
            0x0205 | 0x007B => TrayAction::ShowMenu,
            _ => TrayAction::Default,
        }
    } else if msg == 0x0113 && wparam == TIMER_FLUSH {
        TrayAction::Flush
    } else {
        TrayAction::Default
    }
}

/// The menu of the tray icon, while it is open.
pub struct TrayMenu {
    /// The menu's window; 0 while it is closed.
    pub current: usize,
    pub selected: Option<usize>,
    pub items: Vec<MenuEntry>,
}

/// Whether a menu of the given size was drawn: an empty drawing is none.
pub open spec fn drawn(size: Option<(i32, i32)>) -> bool {
    size matches Some(s) && s.0 != 0 && s.1 != 0
}

/// What is needed to open the menu.
#[derive(Clone, Copy, Debug)]
pub struct MenuPlan {
    /// A menu that is open already, and is closed first.
    pub destroy: Option<usize>,
    /// Where the new one goes; `None` where it cannot be opened.
    pub place: Option<(i32, i32)>,
}

impl TrayMenu {
    /// A closed menu.
    pub fn new() -> (r: TrayMenu)
        ensures
            r.current == 0,
            r.selected is None,
            lines_of(r.items@) == seq![
                ("打开设置"@, MENU_OPEN_SETTINGS),
                (""@, 0u16),
                ("关于 iuv"@, MENU_ABOUT),
                (""@, 0u16),
                ("退出 iuv"@, MENU_EXIT),
            ],
    {
        TrayMenu { current: 0, selected: None, items: tray_menu() }
    }

    /// Opens the menu at the pointer, wholly in the work area. `cursor` is where the pointer is,
    /// `size` how large the menu was drawn; without either, or drawn empty, it stays closed. A
    /// menu that is open is closed in any case.
    pub fn show_menu(
        &mut self,
        cursor: Option<(i32, i32)>,
        size: Option<(i32, i32)>,
        work: Rect,
    ) -> (r: MenuPlan)
        ensures
            final(self).current == 0,
            final(self).selected is None,
            final(self).items == old(self).items,
            r.destroy == (if old(self).current != 0 {
                Some(old(self).current)
            } else {
                None::<usize>
            }),
            r.place is Some <==> cursor is Some && drawn(size),
            r.place matches Some(at) ==> {
                let p = cursor->0;
                let s = size->0;
                &&& at.0 == geometry::between(p.0 as int, work.left as int, work.right - s.0)
                &&& at.1 == geometry::between(p.1 as int, work.top as int, work.bottom - s.1)
            },
    {
        let destroy: Option<usize> = if self.current != 0 {
            Some(self.current)
        } else {
            None
        };
        self.current = 0;
        self.selected = None;
        let place: Option<(i32, i32)> = match cursor {
            Some((x, y)) => match size {
                Some((w, h)) => if w == 0 || h == 0 {
                    None
                } else {
                    Some(clamp_to_work_area(x, y, w, h, work))
                },
                None => None,
            },
            None => None,
        };
        MenuPlan { destroy, place }
    }

    /// The menu's window was made.
    pub fn opened(&mut self, hwnd: usize)
        ensures
            final(self).current == hwnd,
            final(self).selected == old(self).selected,
            final(self).items == old(self).items,
    {
        self.current = hwnd;
    }
}

/// The messages that the menu of the tray icon takes.
#[derive(Clone, Copy, Debug, PartialEq, Eq, Structural)]
pub enum MenuMessage {
    MouseMove,
    LeftUp,
    /// Any other button was pressed or let go.
    OtherButton,
    Destroy,
    EraseBackground,
    Other,
}

/// The message of a number.
pub fn menu_message(msg: u32) -> (r: MenuMessage)
    ensures
        r == (if msg == 0x0200 {
            MenuMessage::MouseMove
        } else if msg == 0x0202 {
            MenuMessage::LeftUp
        } else if msg == 0x0201 || msg == 0x0204 || msg == 0x0205 || msg == 0x0208 {
            MenuMessage::OtherButton
        } else if msg == 0x0002 {
            MenuMessage::Destroy
        } else if msg == 0x0014 {
            MenuMessage::EraseBackground
        } else {
            MenuMessage::Other
        }),
{
    match msg {
        0x0200 => MenuMessage::MouseMove,
        0x0202 => MenuMessage::LeftUp,
        0x0201 | 0x0204 | 0x0205 | 0x0208 => MenuMessage::OtherButton,
        0x0002 => MenuMessage::Destroy,
        0x0014 => MenuMessage::EraseBackground,
        _ => MenuMessage::Other,
    }
}

/// What the menu of the tray icon has to do.
#[derive(Clone, Copy, Debug, PartialEq, Eq, Structural)]
pub struct MenuReply {
    /// The answer; `None` where the system is to answer.
    pub reply: Option<isize>,
    /// Draw the menu anew.
    pub redraw: bool,
    /// Carry out the line of this number.
    pub dispatch: Option<u16>,
    /// Close the menu.
    pub close: bool,
    /// Let go of the mouse and free the menu.
    pub free: bool,
}

/// A reply that does nothing but answer.
pub open spec fn plain_reply(reply: Option<isize>) -> MenuReply {
    MenuReply { reply, redraw: false, dispatch: None, close: false, free: false }
}

fn same_line(a: Option<usize>, b: Option<usize>) -> (r: bool)
    ensures
        r == (a == b),
{
    match (a, b) {
        (Some(x), Some(y)) => x == y,
        (None, None) => true,
        _ => false,
    }
}

impl TrayMenu {
    /// The menu's window procedure. `hit` is the line at the pointer. A line is chosen by
    /// letting the button go on it; the menu then closes, as it does on a click beside it.
    pub fn menu_wnd_proc(
        &mut self,
        hwnd: usize,
        msg: MenuMessage,
        hit: Option<usize>,
    ) -> (r: MenuReply)
        requires
            hit matches Some(i) ==> i < old(self).items@.len(),
        ensures
            final(self).items == old(self).items,
            final(self).selected == (if msg == MenuMessage::MouseMove {
                hit
            } else {
                old(self).selected
            }),
            final(self).current == (if msg == MenuMessage::Destroy && old(self).current == hwnd {
                0
            } else {
                old(self).current
            }),
            r == (match msg {
                MenuMessage::MouseMove => MenuReply {
                    redraw: hit != old(self).selected,
                    ..plain_reply(Some(0))
                },
                MenuMessage::LeftUp => MenuReply {
                    dispatch: match hit {
                        Some(i) => if old(self).items@[i as int].id != 0 {
                            Some(old(self).items@[i as int].id)
                        } else {
                            None
                        },
                        None => None,
                    },
                    close: true,
                    ..plain_reply(Some(0))
                },
                MenuMessage::OtherButton => MenuReply {
                    close: hit is None,
                    ..plain_reply(Some(0))
                },
                MenuMessage::Destroy => MenuReply { free: true, ..plain_reply(Some(0)) },
                MenuMessage::EraseBackground => plain_reply(Some(1)),
                MenuMessage::Other => plain_reply(None),
            }),
    {
        let mut r = MenuReply {
            reply: Some(0),
            redraw: false,
            dispatch: None,
            close: false,
            free: false,
        };
        match msg {
            MenuMessage::MouseMove => {
                if !same_line(hit, self.selected) {
                    self.selected = hit;
                    r.redraw = true;
                }
            },
            MenuMessage::LeftUp => {
                if let Some(i) = hit {
                    let id: u16 = self.items[i].id;
                    if id != 0 {
                        r.dispatch = Some(id);
                    }
                }
                r.close = true;
            },
            MenuMessage::OtherButton => {
                r.close = hit.is_none();
            },
            MenuMessage::Destroy => {
                if self.current == hwnd {
                    self.current = 0;
                }
                r.free = true;
            },
            MenuMessage::EraseBackground => {
                r.reply = Some(1);
            },
            MenuMessage::Other => {
                r.reply = None;
            },
        }
        r
    }
}

/// What a line of the menu does.
#[derive(Clone, Copy, Debug, PartialEq, Eq, Structural)]
pub enum MenuCommand {
    OpenSettings,
    About,
    /// Close the settings window and end.
    Exit,
    Nothing,
}

/// What the line of a number does.
pub fn dispatch_menu(id: u16) -> (r: MenuCommand)
    ensures
        r == (if id == MENU_OPEN_SETTINGS {
            MenuCommand::OpenSettings
        } else if id == MENU_ABOUT {
            MenuCommand::About
        } else if id == MENU_EXIT {
            MenuCommand::Exit
        } else {
            MenuCommand::Nothing
        }),
{
    if id == MENU_OPEN_SETTINGS {
        MenuCommand::OpenSettings
    } else if id == MENU_ABOUT {
        MenuCommand::About
    } else if id == MENU_EXIT {
        MenuCommand::Exit
    } else {
        MenuCommand::Nothing
    }
}

/// The menu of the language bar.
pub struct MenuWindow {
    pub items: Vec<MenuEntry>,
    pub selected: Option<usize>,
    pub visible: bool,
}

/// The messages that the menu of the language bar takes.
#[derive(Clone, Copy, Debug, PartialEq, Eq, Structural)]
pub enum BarMenuMessage {
    Paint,
    EraseBackground,
    MouseMove,
    LeftDown,
    RightDown,
    /// A key was pressed, with this virtual key.
    KeyDown(u32),
    /// The window was activated (`true`) or left.
    Activate(bool),
    Other,
}

/// What the menu of the language bar has to do.
#[derive(Clone, Copy, Debug, PartialEq, Eq, Structural)]
pub struct BarMenuReply {
    /// The answer; `None` where the system is to answer.
    pub reply: Option<isize>,
    pub repaint: bool,
    pub close: bool,
    /// Tell the owner that the line of this number was chosen.
    pub chosen: Option<u16>,
}

impl MenuWindow {
    /// A menu with the given lines that does not show.
    pub fn new(items: Vec<MenuEntry>) -> (r: MenuWindow)
        ensures
            r.items == items,
            r.selected is None,
            !r.visible,
    {
        MenuWindow { items, selected: None, visible: false }
    }

    /// Opens the menu at a place, inside of the work area there. `size` is how large it was
    /// drawn; without it, or drawn empty, the menu stays as it is. Gives the place.
    pub fn show_at(
        &mut self,
        x: i32,
        y: i32,
        size: Option<(i32, i32)>,
        area: Option<Rect>,
    ) -> (r: Option<(i32, i32)>)
        ensures
            final(self).items == old(self).items,
            final(self).selected == old(self).selected,
            final(self).visible == (old(self).visible || drawn(size)),
            r is Some <==> drawn(size),
            r matches Some(at) ==> {
                let s = size->0;
                let a = geometry::area_or_fallback(area);
                &&& at.0 == geometry::saturated(
                    geometry::kept_inside(x as int, s.0 as int, a.left as int, a.right as int),
                )
                &&& at.1 == geometry::saturated(
                    geometry::kept_inside(y as int, s.1 as int, a.top as int, a.bottom as int),
                )
            },
    {
        match size {
            Some((w, h)) => {
                if w == 0 || h == 0 {
                    return None;
                }
                self.visible = true;
                Some(clamp_to_work(x, y, w, h, area))
            },
            None => None,
        }
    }

    /// Closes the menu.
    pub fn dismiss(&mut self)
        ensures
            final(self).items == old(self).items,
            final(self).selected == old(self).selected,
            !final(self).visible,
    {
        self.visible = false;
    }

    /// The menu's window procedure. `hit` is the line at the pointer. A line is chosen by
    /// pressing on it; that, a press beside it, Escape and losing the focus close the menu.
    pub fn wnd_proc(&mut self, msg: BarMenuMessage, hit: Option<usize>) -> (r: BarMenuReply)
        ensures
            final(self).items == old(self).items,
            ({
                let moved = msg == BarMenuMessage::MouseMove;
                let close = match msg {
                    BarMenuMessage::LeftDown | BarMenuMessage::RightDown => true,
                    BarMenuMessage::KeyDown(vk) => vk == 0x1B,
                    BarMenuMessage::Activate(active) => !active,
                    _ => false,
                };
                &&& final(self).selected == (if moved {
                    hit
                } else {
                    old(self).selected
                })
                &&& final(self).visible == (old(self).visible && !close)
                &&& r.close == close
                &&& r.repaint == (moved && hit != old(self).selected && old(self).visible)
                &&& r.chosen == (if msg == BarMenuMessage::LeftDown {
                    match hit {
                        Some(i) => if i < old(self).items@.len() {
                            Some(old(self).items@[i as int].id)
                        } else {
                            None
                        },
                        None => None,
                    }
                } else {
                    None::<u16>
                })
                &&& r.reply == (match msg {
                    BarMenuMessage::EraseBackground => Some(1isize),
                    BarMenuMessage::Other => None::<isize>,
                    _ => Some(0isize),
                })
            }),
    {
        let mut r = BarMenuReply { reply: Some(0), repaint: false, close: false, chosen: None };
        match msg {
            BarMenuMessage::Paint => {},
            BarMenuMessage::EraseBackground => {
                r.reply = Some(1);
            },
            BarMenuMessage::MouseMove => {
                if !same_line(hit, self.selected) {
                    self.selected = hit;
                    r.repaint = self.visible;
                }
            },
            BarMenuMessage::LeftDown => {
                if let Some(i) = hit {
                    if i < self.items.len() {
                        r.chosen = Some(self.items[i].id);
                    }
                }
                r.close = true;
            },
            BarMenuMessage::RightDown => {
                r.close = true;
            },
            BarMenuMessage::KeyDown(vk) => {
                r.close = vk == 0x1B;
            },
            BarMenuMessage::Activate(active) => {
                r.close = !active;
            },
            BarMenuMessage::Other => {
                r.reply = None;
            },
        }
        if r.close {
            self.dismiss();
        }
        r
    }
}

/// A menu is drawn exactly where it has a size in both directions.
pub proof fn law_drawn(w: i32, h: i32)
    ensures
        !drawn(None),
        drawn(Some((w, h))) <==> w != 0 && h != 0,
{
}

} // verus!
