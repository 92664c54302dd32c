//! The tray icon of the input method: one program of the session hosts it.

use vstd::prelude::*;

use crate::menu;
use crate::menu::{entry, MenuEntry};

verus! {

/// The name of the mutex that the host holds, and nothing behind it.
pub const MUTEX_NAME: [u16; 32] = [
    0x4C, 0x6F, 0x63, 0x61, 0x6C, 0x5C, 0x69, 0x75, 0x76, 0x2D, 0x74, 0x72, 0x61, 0x79, 0x2D, 0x68,
    0x6F, 0x73, 0x74, 0, 0, 0, 0, 0, 0, 0, 0, 0, 0, 0, 0, 0,
];

/// The message of the icon.
pub const TRAY_CALLBACK_MSG: u32 = 0x8001;

/// The line of the settings.
pub const MENU_SETTINGS: u16 = 1;

/// The line that ends hosting.
pub const MENU_QUIT: u16 = 3;

/// The character at a place of a fixed text: a byte of the text, and 0 behind it. The last place
/// is always 0.
pub open spec fn wide_at(s: Seq<char>, i: int) -> u16 {
    let bytes = vstd::utf8::encode_utf8(s);
    if 0 <= i < bytes.len() && i < 31 {
        bytes[i] as u16
    } else {
        0
    }
}

/// A text as the system takes it: at most thirty-one characters and a 0 behind them. Meant for
/// ASCII; of any other text it holds the bytes.
pub fn wide(s: &str) -> (r: [u16; 32])
    ensures
        forall|i: int| 0 <= i < 32 ==> #[trigger] r@[i] == wide_at(s@, i),
{
    let mut out: [u16; 32] = [0u16;32];
    let bytes: &[u8] = s.as_bytes();
    let mut i: usize = 0;
    while i < bytes.len() && i < 31
        invariant
            i <= 31,
            i <= bytes@.len(),
            bytes@ == vstd::utf8::encode_utf8(s@),
            forall|k: int| 0 <= k < i ==> #[trigger] out@[k] == wide_at(s@, k),
            forall|k: int| i <= k < 32 ==> #[trigger] out@[k] == 0,
        decreases 31 - i,
    {
        out[i] = bytes[i] as u16;
        i = i + 1;
    }
    out
}

/// Text that fits is followed by 0, and ASCII is kept as it is.
pub proof fn law_wide_ends(s: Seq<char>)
    requires
        s.len() < 32,
        vstd::utf8::is_ascii_chars(s),
    ensures
        forall|i: int| 0 <= i < s.len() ==> #[trigger] wide_at(s, i) == s[i] as u16,
        wide_at(s, s.len() as int) == 0,
{
    vstd::utf8::is_ascii_chars_encode_utf8(s);
}

/// The name of the mutex is that of the host of the icon.
pub proof fn law_mutex_name(i: int)
    requires
        0 <= i < 32,
    ensures
        MUTEX_NAME@[i] == wide_at("Local\\iuv-tray-host"@, i),
{
    reveal_strlit("Local\\iuv-tray-host");
    law_wide_ends("Local\\iuv-tray-host"@);
    vstd::utf8::is_ascii_chars_encode_utf8("Local\\iuv-tray-host"@);
    if i < 19 {
        assert(wide_at("Local\\iuv-tray-host"@, i) == "Local\\iuv-tray-host"@[i] as u16);
    }
}

/// Where the icon stands.
#[derive(Clone, Copy, Debug, PartialEq, Eq, Structural)]
pub struct TrayState {
    /// Whether this program hosts the icon.
    pub hosting: bool,
    /// Whether the user ended hosting: this program does not begin again.
    pub quit: bool,
    /// The mutex, while it is held.
    pub mutex_handle: Option<usize>,
    /// The window of the icon.
    pub tray_hwnd: Option<usize>,
}

/// Stands for hosting the icon.
#[derive(Debug, PartialEq, Eq)]
pub struct TrayHost {}

/// What came of making the mutex.
#[derive(Clone, Copy, Debug, PartialEq, Eq, Structural)]
pub enum MutexResult {
    Failed,
    /// Another program has it; this handle is of no use.
    Taken(usize),
    Made(usize),
}

/// What an attempt to host the icon comes to.
#[derive(Debug, PartialEq, Eq)]
pub struct HostAttempt {
    pub host: Option<TrayHost>,
    /// The window to destroy.
    pub destroy: Option<usize>,
    /// The mutex to close.
    pub close: Option<usize>,
}

impl TrayState {
    /// Whether what is held fits whether the icon is hosted.
    pub open spec fn wf(self) -> bool {
        self.hosting == (self.mutex_handle is Some) && self.hosting == (self.tray_hwnd is Some)
    }

    /// Nothing is hosted.
    pub fn new() -> (r: TrayState)
        ensures
            r == (TrayState { hosting: false, quit: false, mutex_handle: None, tray_hwnd: None }),
            r.wf(),
    {
        TrayState { hosting: false, quit: false, mutex_handle: None, tray_hwnd: None }
    }

    /// Whether hosting may be tried: not twice, and not after the user ended it.
    pub fn may_host(&self) -> (r: bool)
        ensures
            r == (!self.hosting && !self.quit),
    {
        !self.hosting && !self.quit
    }

    /// The state after an attempt to host the icon, and what the attempt comes to.
    pub open spec fn attempted(
        self,
        mutex: MutexResult,
        window: Option<usize>,
        icon: bool,
    ) -> (TrayState, HostAttempt) {
        let nothing = HostAttempt { host: None, destroy: None, close: None };
        if self.hosting || self.quit {
            (self, nothing)
        } else {
            match mutex {
                MutexResult::Failed => (self, nothing),
                MutexResult::Taken(h) => (self, HostAttempt { close: Some(h), ..nothing }),
                MutexResult::Made(h) => if window is Some && icon {
                    (
                        TrayState {
                            hosting: true,
                            quit: false,
                            mutex_handle: Some(h),
                            tray_hwnd: window,
                        },
                        HostAttempt { host: Some(TrayHost {  }), ..nothing },
                    )
                } else {
                    (self, HostAttempt { destroy: window, close: Some(h), ..nothing })
                },
            }
        }
    }

    /// Tries to host the icon, for which the mutex has to be new. `window` is the window that
    /// was made, looked at only where the mutex was; `icon` whether the icon was put up, looked
    /// at only where the window was made. Whatever an attempt that fails has made is taken back.
    pub fn try_host(&mut self, mutex: MutexResult, window: Option<usize>, icon: bool) -> (r:
        HostAttempt)
        requires
            old(self).wf(),
        ensures
            final(self).wf(),
            (*final(self), r) == old(self).attempted(mutex, window, icon),
    {
        if self.hosting || self.quit {
            return HostAttempt { host: None, destroy: None, close: None };
        }
        match mutex {
            MutexResult::Failed => HostAttempt { host: None, destroy: None, close: None },
            MutexResult::Taken(h) => HostAttempt { host: None, destroy: None, close: Some(h) },
            MutexResult::Made(h) => {
                if let Some(w) = window {
                    if icon {
                        self.tray_hwnd = Some(w);
                        self.mutex_handle = Some(h);
                        self.hosting = true;
                        return HostAttempt { host: Some(TrayHost {  }), destroy: None, close: None };
                    }
                }
                HostAttempt { host: None, destroy: window, close: Some(h) }
            },
        }
    }
}

/// Something to do when hosting ends.
#[derive(Clone, Copy, Debug, PartialEq, Eq, Structural)]
pub enum TearDown {
    RemoveIcon(usize),
    DestroyWindow(usize),
    ReleaseMutex(usize),
    CloseMutex(usize),
    HideMenu,
}

/// What ending hosting takes, in order.
pub open spec fn tear_down_of(s: TrayState) -> Seq<TearDown> {
    if !s.hosting {
        Seq::empty()
    } else {
        (match s.tray_hwnd {
            Some(w) => seq![TearDown::RemoveIcon(w), TearDown::DestroyWindow(w)],
            None => Seq::empty(),
        }) + (match s.mutex_handle {
            Some(h) => seq![TearDown::ReleaseMutex(h), TearDown::CloseMutex(h)],
            None => Seq::empty(),
        }) + seq![TearDown::HideMenu]
    }
}

impl TrayState {
    /// The state after hosting has ended.
    pub open spec fn torn_down(self) -> TrayState {
        if self.hosting {
            TrayState { hosting: false, mutex_handle: None, tray_hwnd: None, ..self }
        } else {
            self
        }
    }

    /// Ends hosting: the icon goes, and another program may host it.
    pub fn teardown(&mut self) -> (r: Vec<TearDown>)
        requires
            old(self).wf(),
        ensures
            final(self).wf(),
            r@ == tear_down_of(*old(self)),
            *final(self) == old(self).torn_down(),
    {
        let mut out: Vec<TearDown> = Vec::new();
        if !self.hosting {
            assert(out@ =~= tear_down_of(*old(self)));
            return out;
        }
        self.hosting = false;
        if let Some(w) = self.tray_hwnd {
            out.push(TearDown::RemoveIcon(w));
            out.push(TearDown::DestroyWindow(w));
            self.tray_hwnd = None;
        }
        if let Some(h) = self.mutex_handle {
            out.push(TearDown::ReleaseMutex(h));
            out.push(TearDown::CloseMutex(h));
            self.mutex_handle = None;
        }
        out.push(TearDown::HideMenu);
        assert(out@ =~= tear_down_of(*old(self)));
        out
    }

    /// Ends hosting for good.
    pub fn quit_host(&mut self) -> (r: Vec<TearDown>)
        requires
            old(self).wf(),
        ensures
            final(self).wf(),
            r@ == tear_down_of(*old(self)),
            *final(self) == (TrayState { quit: true, ..old(self).torn_down() }),
    {
        self.quit = true;
        self.teardown()
    }
}

/// Ending hosting twice does no more than once. One who ended it for good never hosts again,
/// however hosting is tried.
pub proof fn law_tray_ends(s: TrayState, mutex: MutexResult, window: Option<usize>, icon: bool)
    requires
        s.wf(),
    ensures
        tear_down_of(s.torn_down()) =~= Seq::<TearDown>::empty(),
        s.torn_down().torn_down() == s.torn_down(),
        ({
            let over = TrayState { quit: true, ..s.torn_down() };
            &&& over.attempted(mutex, window, icon).0 == over
            &&& over.attempted(mutex, window, icon).1.host is None
            &&& over.torn_down() == over
        }),
{
}

/// Whatever an attempt to host the icon has made is either kept or given back: the mutex is held
/// or to be closed, the window is kept or to be destroyed.
pub proof fn law_attempt_leaves_nothing(s: TrayState, handle: usize, window: usize, icon: bool)
    requires
        s.wf(),
        !s.hosting,
        !s.quit,
    ensures
        ({
            let (t, a) = s.attempted(MutexResult::Made(handle), Some(window), icon);
            &&& (t.mutex_handle == Some(handle)) != (a.close == Some(handle))
            &&& (t.tray_hwnd == Some(window)) != (a.destroy == Some(window))
            &&& (a.host is Some) == t.hosting
        }),
{
}

/// What the window of the icon does with a message.
#[derive(Clone, Copy, Debug, PartialEq, Eq, Structural)]
pub enum TrayMessage {
    /// The system answers it.
    System,
    Nothing,
    /// Open the menu at the pointer.
    Popup,
}

/// Whether an event of the icon asks for the menu: a right click, or the icon was chosen.
pub open spec fn asks_for_menu(lparam: isize) -> bool {
    crate::geometry::low_half(lparam as int) == 0x7B || crate::geometry::high_half(lparam as int)
        == 0x400
}

impl TrayState {
    /// The procedure of the window of the icon.
    pub fn tray_wnd_proc(&self, msg: u32, lparam: isize) -> (r: TrayMessage)
        ensures
            r == (if msg != TRAY_CALLBACK_MSG {
                TrayMessage::System
            } else if asks_for_menu(lparam) && self.hosting {
                TrayMessage::Popup
            } else {
                TrayMessage::Nothing
            }),
    {
        if msg != TRAY_CALLBACK_MSG {
            return TrayMessage::System;
        }
        let (lo, hi) = crate::geometry::client_pos(lparam);
        if (lo == 0x7B || hi == 0x400) && self.hosting {
            TrayMessage::Popup
        } else {
            TrayMessage::Nothing
        }
    }
}

/// The lines of the menu.
pub fn tray_popup() -> (r: Vec<MenuEntry>)
    ensures
        menu::lines_of(r@) == seq![
            ("设置…"@, MENU_SETTINGS),
            ("帮助 / 关于"@, menu::MENU_ABOUT),
            (""@, 0u16),
            ("退出 iuv"@, MENU_QUIT),
        ],
{
    let mut v: Vec<MenuEntry> = Vec::new();
    v.push(entry("设置…", MENU_SETTINGS));
    v.push(entry("帮助 / 关于", menu::MENU_ABOUT));
    v.push(entry("", 0));
    v.push(entry("退出 iuv", MENU_QUIT));
    assert(menu::lines_of(v@) =~= seq![
        ("设置…"@, MENU_SETTINGS),
        ("帮助 / 关于"@, menu::MENU_ABOUT),
        (""@, 0u16),
        ("退出 iuv"@, MENU_QUIT),
    ]);
    v
}

/// What a line of the menu does.
#[derive(Clone, Copy, Debug, PartialEq, Eq, Structural)]
pub enum TrayCommand {
    Settings,
    About,
    Quit,
    Nothing,
}

/// What the line of a number does.
pub fn on_menu_select(id: u16) -> (r: TrayCommand)
    ensures
        r == (if id == MENU_SETTINGS {
            TrayCommand::Settings
        } else if id == menu::MENU_ABOUT {
            TrayCommand::About
        } else if id == MENU_QUIT {
            TrayCommand::Quit
        } else {
            TrayCommand::Nothing
        }),
{
    if id == MENU_SETTINGS {
        TrayCommand::Settings
    } else if id == menu::MENU_ABOUT {
        TrayCommand::About
    } else if id == MENU_QUIT {
        TrayCommand::Quit
    } else {
        TrayCommand::Nothing
    }
}

/// Hosting begins exactly where it has not begun nor been given up, the mutex is this process's
/// own, and window and icon could be made. The host then holds that mutex and that window; what an
/// attempt got in vain it hands back, and it changes nothing else.
pub proof fn law_hosting_begins(
    s: TrayState,
    mutex: MutexResult,
    window: Option<usize>,
    icon: bool,
)
    ensures
        ({
            let (t, a) = s.attempted(mutex, window, icon);
            let hosts = !s.hosting && !s.quit && mutex is Made && window is Some && icon;
            &&& a.host is Some <==> hosts
            &&& hosts ==> t.hosting && !t.quit && t.tray_hwnd == window && mutex
                == MutexResult::Made(t.mutex_handle->0) && t.mutex_handle is Some
            &&& hosts ==> a.destroy is None && a.close is None
            &&& !hosts ==> t == s
            &&& s.hosting || s.quit ==> a.destroy is None && a.close is None
            &&& !hosts && !s.hosting && !s.quit && mutex is Made ==> a.destroy == window
            &&& !(mutex is Made) ==> a.destroy is None
            &&& mutex is Taken && !s.hosting && !s.quit ==> a.close == Some(mutex->Taken_0)
            &&& mutex is Made && !hosts && !s.hosting && !s.quit ==> a.close == Some(mutex->Made_0)
            &&& mutex is Failed ==> a.close is None
        }),
{
}

/// What a host holds is taken down: first the icon, then its window, then the mutex, released
/// before it is closed, and the menu. Where nothing is hosted, nothing is.
pub proof fn law_host_taken_down(s: TrayState)
    requires
        s.wf(),
    ensures
        ({
            let done = tear_down_of(s);
            &&& !s.hosting ==> done.len() == 0
            &&& s.hosting ==> {
                &&& done.len() == 5
                &&& s.tray_hwnd == Some(done[0]->RemoveIcon_0) && done[0] is RemoveIcon
                &&& s.tray_hwnd == Some(done[1]->DestroyWindow_0) && done[1] is DestroyWindow
                &&& s.mutex_handle == Some(done[2]->ReleaseMutex_0) && done[2] is ReleaseMutex
                &&& s.mutex_handle == Some(done[3]->CloseMutex_0) && done[3] is CloseMutex
                &&& done[4] is HideMenu
            }
            &&& !s.torn_down().hosting
            &&& s.torn_down().mutex_handle is None
            &&& s.torn_down().tray_hwnd is None
            &&& s.torn_down().quit == s.quit
        }),
{
}

/// The menu is asked for by the event in the low half or by the code in the high half; every other
/// message of the icon is none.
pub proof fn law_menu_asked_for(lparam: isize, low: int, high: int)
    requires
        0 <= low < 0x10000,
        0 <= high < 0x8000,
        lparam == high * 0x10000 + low,
    ensures
        asks_for_menu(lparam) <==> low == 0x7B || high == 0x400,
{
    assert((high * 0x10000 + low) / 0x10000 == high) by (nonlinear_arith)
        requires
            0 <= low < 0x10000,
    ;
}

} // verus!
