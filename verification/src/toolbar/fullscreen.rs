//! Whether the program in front fills its screen.

use vstd::prelude::*;

use crate::geometry;
use crate::geometry::{covers_monitor, Rect, TOLERANCE};
use crate::text::same_text;

verus! {

/// How often to look, in milliseconds.
pub const PROBE_INTERVAL_MS: u32 = 1000;

/// Whether a window is the desktop: the shell's own window, or one of the classes that draw the
/// wallpaper.
pub open spec fn desktop(hwnd: usize, shell: usize, class: Seq<char>) -> bool {
    (shell != 0 && shell == hwnd) || class == "Progman"@ || class == "WorkerW"@
}

/// Whether a window is the desktop. `shell` is 0 where there is no shell window.
pub fn is_desktop(hwnd: usize, shell: usize, class: &str) -> (r: bool)
    ensures
        r == desktop(hwnd, shell, class@),
{
    (shell != 0 && shell == hwnd) || same_text(class, "Progman") || same_text(class, "WorkerW")
}

/// The window in front, as far as it could be looked up.
pub struct Foreground {
    pub hwnd: usize,
    pub shell: usize,
    pub class: String,
    pub window: Option<Rect>,
    pub monitor: Option<Rect>,
}

/// Whether the window in front fills its screen; `None` where that cannot be told, and the last
/// answer stays. The desktop and a window without extent never fill it.
pub fn probe(front: Option<&Foreground>) -> (r: Option<bool>)
    ensures
        r == (match front {
            None => None::<bool>,
            Some(f) => if desktop(f.hwnd, f.shell, f.class@) {
                Some(false)
            } else {
                match f.window {
                    None => None,
                    Some(win) => if win.width() <= 0 || win.height() <= 0 {
                        Some(false)
                    } else {
                        match f.monitor {
                            None => None,
                            Some(mon) => Some(geometry::covers(win, mon, TOLERANCE as int)),
                        }
                    },
                }
            },
        }),
{
    match front {
        None => None,
        Some(f) => {
            if is_desktop(f.hwnd, f.shell, f.class.as_str()) {
                return Some(false);
            }
            match f.window {
                None => None,
                Some(win) => {
                    if win.right <= win.left || win.bottom <= win.top {
                        return Some(false);
                    }
                    match f.monitor {
                        None => None,
                        Some(mon) => Some(covers_monitor(&win, &mon, TOLERANCE)),
                    }
                },
            }
        },
    }
}

/// The desktop is the shell's own window, where there is one, and the windows of its two classes;
/// a window of another class that is not the shell's is none.
pub proof fn law_desktop(hwnd: usize, shell: usize, class: Seq<char>)
    ensures
        hwnd != 0 ==> desktop(hwnd, hwnd, class),
        desktop(hwnd, shell, "Progman"@),
        desktop(hwnd, shell, "WorkerW"@),
        class != "Progman"@ && class != "WorkerW"@ && (shell == 0 || shell != hwnd) ==> !desktop(
            hwnd,
            shell,
            class,
        ),
{
}

} // verus!
