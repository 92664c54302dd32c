//! The note that shows beside the pointer over a button.

use vstd::prelude::*;

use crate::candwin::{HTTRANSPARENT, MA_NOACTIVATE};
use crate::geometry;
use crate::geometry::{clamp_to_work, saturate, Rect};

verus! {

/// How far the note stands to the right of the pointer.
pub const TIP_RIGHT: i32 = 8;

/// How far it stands below.
pub const TIP_DOWN: i32 = 12;

/// Where the note goes: right below the pointer, inside of the work area there. It does not show
/// without a window, where nothing was drawn, and where the pointer is not known.
pub fn show_near(
    window: bool,
    size: Option<(i32, i32)>,
    pointer: Option<(i32, i32)>,
    area: Option<Rect>,
) -> (r: Option<(i32, i32)>)
    ensures
        match (size, pointer) {
            (Some(s), Some(p)) => if window && s.0 != 0 && s.1 != 0 {
                let a = geometry::area_or_fallback(area);
                &&& r matches Some(at)
                &&& at.0 == geometry::saturated(
                    geometry::kept_inside(
                        geometry::saturated(p.0 + 8),
                        s.0 as int,
                        a.left as int,
                        a.right as int,
                    ),
                )
                &&& at.1 == geometry::saturated(
                    geometry::kept_inside(
                        geometry::saturated(p.1 + 12),
                        s.1 as int,
                        a.top as int,
                        a.bottom as int,
                    ),
                )
            } else {
                r is None
            },
            _ => r is None,
        },
{
    if !window {
        return None;
    }
    match size {
        Some((w, h)) => {
            if w == 0 || h == 0 {
                return None;
            }
            match pointer {
                Some((px, py)) => {
                    let x: i32 = saturate(px as i64 + TIP_RIGHT as i64);
                    let y: i32 = saturate(py as i64 + TIP_DOWN as i64);
                    Some(clamp_to_work(x, y, w, h, area))
                },
                None => None,
            }
        },
        None => None,
    }
}

/// The procedure of the note's window: the pointer goes through it. `None` where the system is to
/// answer.
pub fn tip_wnd_proc(msg: u32) -> (r: Option<isize>)
    ensures
        r == (if msg == 0x000F {
            Some(0isize)
        } else if msg == 0x0014 {
            Some(1isize)
        } else if msg == 0x0021 {
            Some(MA_NOACTIVATE)
        } else if msg == 0x0084 {
            Some(HTTRANSPARENT)
        } else {
            None::<isize>
        }),
{
    match msg {
        0x000F => Some(0),
        0x0014 => Some(1),
        0x0021 => Some(MA_NOACTIVATE),
        0x0084 => Some(HTTRANSPARENT),
        _ => None,
    }
}

} // verus!
