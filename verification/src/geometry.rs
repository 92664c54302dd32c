//! Screen geometry: rectangles, where windows go, and what a point hits.
//!
//! Positions are computed without wrapping; one that leaves the range of `i32` stops at its end.

use vstd::prelude::*;

verus! {

/// A rectangle on the screen; `right` and `bottom` are just outside of it.
#[derive(Clone, Copy, Debug, PartialEq, Eq, Structural)]
pub struct Rect {
    pub left: i32,
    pub top: i32,
    pub right: i32,
    pub bottom: i32,
}

impl Rect {
    pub open spec fn width(self) -> int {
        self.right - self.left
    }

    pub open spec fn height(self) -> int {
        self.bottom - self.top
    }

    /// Whether a window of the given size at the given place lies inside the rectangle.
    pub open spec fn contains_window(self, x: int, y: int, w: int, h: int) -> bool {
        self.left <= x && x + w <= self.right && self.top <= y && y + h <= self.bottom
    }
}

/// The work area that is taken where the system gives none.
pub open spec fn fallback_area() -> Rect {
    Rect { left: 0, top: 0, right: 32767, bottom: 32767 }
}

/// The work area: that of the monitor, or the fallback.
pub open spec fn area_or_fallback(area: Option<Rect>) -> Rect {
    match area {
        Some(r) => r,
        None => fallback_area(),
    }
}

fn work_area(area: Option<Rect>) -> (r: Rect)
    ensures
        r == area_or_fallback(area),
{
    match area {
        Some(r) => r,
        None => Rect { left: 0, top: 0, right: 32767, bottom: 32767 },
    }
}

/// The resolution at which nothing is scaled, in dots per inch.
pub const PLAIN_DPI: u32 = 96;

/// The resolution to draw for: what the system gives, or the plain one where it gives none or
/// nonsense.
pub fn dpi_of(given: Option<i32>) -> (r: u32)
    ensures
        r == match given {
            Some(d) => if d > 0 {
                d as u32
            } else {
                PLAIN_DPI
            },
            None => PLAIN_DPI,
        },
{
    match given {
        Some(d) => if d > 0 {
            d as u32
        } else {
            PLAIN_DPI
        },
        None => PLAIN_DPI,
    }
}

/// A number brought into the range of `i32`.
pub open spec fn saturated(v: int) -> int {
    if v < i32::MIN {
        i32::MIN as int
    } else if v > i32::MAX {
        i32::MAX as int
    } else {
        v
    }
}

/// Brings a number into the range of `i32`.
pub fn saturate(v: i64) -> (r: i32)
    ensures
        r == saturated(v as int),
{
    if v < i32::MIN as i64 {
        i32::MIN
    } else if v > i32::MAX as i64 {
        i32::MAX
    } else {
        v as i32
    }
}

/// The low half of a message parameter, without its sign.
pub open spec fn low_half(l: int) -> int {
    l % 0x10000
}

/// The second half of a message parameter, without its sign.
pub open spec fn high_half(l: int) -> int {
    (l / 0x10000) % 0x10000
}

/// A half seen as a signed number of sixteen bits.
pub open spec fn signed_half(h: int) -> int {
    if h >= 0x8000 {
        h - 0x10000
    } else {
        h
    }
}

/// The horizontal coordinate in a mouse message: the low half, with its sign.
pub fn lparam_x(l: isize) -> (r: i32)
    ensures
        r == signed_half(low_half(l as int)),
{
    let h: isize = l & 0xFFFF;
    assert(l & 0xFFFF == l % 0x10000) by (bit_vector);
    if h >= 0x8000 {
        (h - 0x10000) as i32
    } else {
        h as i32
    }
}

/// The vertical coordinate in a mouse message: the second half, with its sign.
pub fn lparam_y(l: isize) -> (r: i32)
    ensures
        r == signed_half(high_half(l as int)),
{
    let h: isize = (l >> 16) & 0xFFFF;
    assert((l >> 16) & 0xFFFF == (l / 0x10000) % 0x10000) by (bit_vector);
    if h >= 0x8000 {
        (h - 0x10000) as i32
    } else {
        h as i32
    }
}

/// The two halves of a message parameter as a point, without their signs.
pub fn client_pos(lparam: isize) -> (r: (i32, i32))
    ensures
        r.0 == low_half(lparam as int),
        r.1 == high_half(lparam as int),
{
    assert(lparam & 0xFFFF == lparam % 0x10000) by (bit_vector);
    assert((lparam >> 16) & 0xFFFF == (lparam / 0x10000) % 0x10000) by (bit_vector);
    ((lparam & 0xFFFF) as i32, ((lparam >> 16) & 0xFFFF) as i32)
}

/// One coordinate of a window kept inside a stretch: the far end is moved in first, then the
/// near end.
pub open spec fn kept_inside(v: int, size: int, lo: int, hi: int) -> int {
    let moved = if v + size > hi {
        hi - size
    } else {
        v
    };
    if moved < lo {
        lo
    } else {
        moved
    }
}

fn keep_inside(v: i32, size: i32, lo: i32, hi: i32) -> (r: i32)
    ensures
        r == saturated(kept_inside(v as int, size as int, lo as int, hi as int)),
{
    let moved: i64 = if v as i64 + size as i64 > hi as i64 {
        hi as i64 - size as i64
    } else {
        v as i64
    };
    if moved < lo as i64 {
        lo
    } else {
        saturate(moved)
    }
}

/// Where a window of the given size is put so that it does not reach over the right or bottom
/// edge of the work area, nor, before all, over the left or top one.
pub fn clamp_to_work(x: i32, y: i32, w: i32, h: i32, area: Option<Rect>) -> (r: (i32, i32))
    ensures
        ({
            let a = area_or_fallback(area);
            &&& r.0 == saturated(kept_inside(x as int, w as int, a.left as int, a.right as int))
            &&& r.1 == saturated(kept_inside(y as int, h as int, a.top as int, a.bottom as int))
        }),
{
    let a: Rect = work_area(area);
    (keep_inside(x, w, a.left, a.right), keep_inside(y, h, a.top, a.bottom))
}

/// A window that fits into the work area is put wholly inside it, and stays where it is if it
/// is inside already.
pub proof fn law_clamped_window_inside(x: int, y: int, w: int, h: int, a: Rect)
    requires
        0 <= w <= a.width(),
        0 <= h <= a.height(),
    ensures
        a.contains_window(
            kept_inside(x, w, a.left as int, a.right as int),
            kept_inside(y, h, a.top as int, a.bottom as int),
            w,
            h,
        ),
        saturated(kept_inside(x, w, a.left as int, a.right as int)) == kept_inside(
            x,
            w,
            a.left as int,
            a.right as int,
        ),
        saturated(kept_inside(y, h, a.top as int, a.bottom as int)) == kept_inside(
            y,
            h,
            a.top as int,
            a.bottom as int,
        ),
        a.contains_window(x, y, w, h) ==> kept_inside(x, w, a.left as int, a.right as int) == x
            && kept_inside(y, h, a.top as int, a.bottom as int) == y,
{
}

/// Keeping a window inside a work area twice is the same as doing it once.
pub proof fn law_clamping_twice(v: int, size: int, lo: int, hi: int)
    ensures
        kept_inside(kept_inside(v, size, lo, hi), size, lo, hi) == kept_inside(v, size, lo, hi),
{
}

/// The margin between the toolbar and the corner of the screen.
pub const DEFAULT_MARGIN: i32 = 12;

/// The place of a toolbar that was never moved: the lower right corner of the work area.
pub fn default_pos(w: i32, h: i32, area: Option<Rect>) -> (r: (i32, i32))
    ensures
        r.0 == saturated(area_or_fallback(area).right - w - DEFAULT_MARGIN),
        r.1 == saturated(area_or_fallback(area).bottom - h - DEFAULT_MARGIN),
{
    let a: Rect = work_area(area);
    (
        saturate(a.right as i64 - w as i64 - DEFAULT_MARGIN as i64),
        saturate(a.bottom as i64 - h as i64 - DEFAULT_MARGIN as i64),
    )
}

/// A coordinate brought between two bounds, where they leave any room; else it is kept.
pub open spec fn between(v: int, lo: int, hi: int) -> int {
    if hi <= lo {
        v
    } else if v < lo {
        lo
    } else if v > hi {
        hi
    } else {
        v
    }
}

fn bring_between(v: i32, lo: i32, hi: i64) -> (r: i32)
    requires
        hi <= i32::MAX || hi <= lo || v <= hi,
    ensures
        r == between(v as int, lo as int, hi as int),
{
    if hi <= lo as i64 {
        v
    } else if v < lo {
        lo
    } else if v as i64 > hi {
        hi as i32
    } else {
        v
    }
}

/// Where a menu of the given size is put so that it shows whole in the work area.
pub fn clamp_to_work_area(mx: i32, my: i32, w: i32, h: i32, work: Rect) -> (r: (i32, i32))
    ensures
        r.0 == between(mx as int, work.left as int, work.right - w),
        r.1 == between(my as int, work.top as int, work.bottom - h),
{
    let hi_x: i64 = work.right as i64 - w as i64;
    let hi_y: i64 = work.bottom as i64 - h as i64;
    (bring_between(mx, work.left, hi_x), bring_between(my, work.top, hi_y))
}

/// A menu for which the work area has room to spare shows whole in it.
pub proof fn law_menu_shows_whole(mx: int, my: int, w: int, h: int, work: Rect)
    requires
        0 <= w < work.width(),
        0 <= h < work.height(),
    ensures
        work.contains_window(
            between(mx, work.left as int, work.right - w),
            between(my, work.top as int, work.bottom - h),
            w,
            h,
        ),
{
}

/// Half of a number, rounded towards zero.
pub open spec fn half(d: int) -> int {
    if d >= 0 {
        d / 2
    } else {
        -((-d) / 2)
    }
}

fn halve(d: i64) -> (r: i64)
    requires
        -0x4_0000_0000 <= d <= 0x4_0000_0000,
    ensures
        r == half(d as int),
{
    if d >= 0 {
        d / 2
    } else {
        -((-d) / 2)
    }
}

/// Where a window goes to stand in the middle of the work area.
pub fn center_window(window: Rect, work: Rect) -> (r: (i32, i32))
    ensures
        r.0 == saturated(work.left + half(work.width() - window.width())),
        r.1 == saturated(work.top + half(work.height() - window.height())),
{
    let dx: i64 = (work.right as i64 - work.left as i64) - (window.right as i64
        - window.left as i64);
    let dy: i64 = (work.bottom as i64 - work.top as i64) - (window.bottom as i64
        - window.top as i64);
    (saturate(work.left as i64 + halve(dx)), saturate(work.top as i64 + halve(dy)))
}

/// The margins left and right of a centred window, and those above and below it, differ by at
/// most one pixel.
pub proof fn law_centred(window: Rect, work: Rect)
    ensures
        ({
            let x = work.left + half(work.width() - window.width());
            let y = work.top + half(work.height() - window.height());
            let right_margin = work.right - (x + window.width());
            let bottom_margin = work.bottom - (y + window.height());
            &&& -1 <= (x - work.left) - right_margin <= 1
            &&& -1 <= (y - work.top) - bottom_margin <= 1
        }),
{
}

/// The radius of the corners of a box: at least one pixel, at most half of either side.
pub open spec fn corner_radius(w: int, h: int, r: int) -> int {
    let a = if r < w / 2 {
        r
    } else {
        w / 2
    };
    let b = if a < h / 2 {
        a
    } else {
        h / 2
    };
    if b < 1 {
        1
    } else {
        b
    }
}

/// Whether a point is at most `r` away from a centre.
pub open spec fn within(x: int, y: int, cx: int, cy: int, r: int) -> bool {
    (x - cx) * (x - cx) + (y - cy) * (y - cy) <= r * r
}

/// Whether a point is in a box of the given size with rounded corners. A point in the square of
/// a corner must be in the corner's arc; any other point is in.
pub open spec fn rounded_hit(x: int, y: int, w: int, h: int, r: int) -> bool {
    let near_x = x < r;
    let far_x = x >= w - r;
    let near_y = y < r;
    let far_y = y >= h - r;
    if (near_x || far_x) && (near_y || far_y) {
        within(
            x,
            y,
            if near_x {
                r
            } else {
                w - r
            },
            if near_y {
                r
            } else {
                h - r
            },
            r,
        )
    } else {
        true
    }
}

/// Whether a point is in a box with rounded corners. `radius` is `None` for square corners. An
/// empty box holds no point.
pub open spec fn in_rounded(x: int, y: int, w: int, h: int, radius: Option<i32>) -> bool {
    &&& w > 0
    &&& h > 0
    &&& radius matches Some(r) ==> rounded_hit(x, y, w, h, corner_radius(w, h, r as int))
}

pub(crate) fn square(v: i64) -> (r: i128)
    requires
        -0x2_0000_0000 <= v <= 0x2_0000_0000,
    ensures
        r == v * v,
        0 <= r <= 0x4_0000_0000_0000_0000,
{
    assert(0 <= v * v <= 0x4_0000_0000_0000_0000) by (nonlinear_arith)
        requires
            -0x2_0000_0000 <= v <= 0x2_0000_0000,
    ;
    let w: i128 = v as i128;
    w * w
}

/// Whether a point is in a box with rounded corners. `radius` is `None` for square corners.
pub fn in_rounded_rect(x: i32, y: i32, w: i32, h: i32, radius: Option<i32>) -> (hit: bool)
    ensures
        hit == in_rounded(x as int, y as int, w as int, h as int, radius),
{
    if w <= 0 || h <= 0 {
        return false;
    }
    let given: i32 = match radius {
        Some(r) => r,
        None => return true,
    };
    let a: i32 = if given < w / 2 {
        given
    } else {
        w / 2
    };
    let b: i32 = if a < h / 2 {
        a
    } else {
        h / 2
    };
    let r: i64 = if b < 1 {
        1
    } else {
        b as i64
    };
    let px: i64 = x as i64;
    let py: i64 = y as i64;
    let near_x: bool = px < r;
    let near_y: bool = py < r;
    if (near_x || px >= w as i64 - r) && (near_y || py >= h as i64 - r) {
        let cx: i64 = if near_x {
            r
        } else {
            w as i64 - r
        };
        let cy: i64 = if near_y {
            r
        } else {
            h as i64 - r
        };
        square(px - cx) + square(py - cy) <= square(r)
    } else {
        true
    }
}

/// The tip of a rounded corner is not in the box, and a point that is clear of the corners on
/// either axis is.
pub proof fn law_rounded_corners(x: int, y: int, w: int, h: int, r: i32)
    requires
        w > 0,
        h > 0,
    ensures
        !in_rounded(0, 0, w, h, Some(r)),
        ({
            let c = corner_radius(w, h, r as int);
            (c <= x < w - c || c <= y < h - c) ==> in_rounded(x, y, w, h, Some(r))
        }),
{
    let c = corner_radius(w, h, r as int);
    assert((0 - c) * (0 - c) + (0 - c) * (0 - c) > c * c) by (nonlinear_arith)
        requires
            c >= 1,
    ;
}

/// The four corners are alike: a point of a box, its edges included, is in exactly if the point
/// mirrored at either middle line is.
pub proof fn law_corners_alike(x: int, y: int, w: int, h: int, radius: Option<i32>)
    requires
        0 <= x <= w,
        0 <= y <= h,
    ensures
        in_rounded(w - x, y, w, h, radius) == in_rounded(x, y, w, h, radius),
        in_rounded(x, h - y, w, h, radius) == in_rounded(x, y, w, h, radius),
{
    if w > 0 && h > 0 {
        if let Some(r) = radius {
            let c = corner_radius(w, h, r as int);
            mirrored(x, y, w, h, c);
            mirrored(y, x, h, w, c);
            assert(rounded_hit(y, x, h, w, c) == rounded_hit(x, y, w, h, c));
            assert(rounded_hit(h - y, x, h, w, c) == rounded_hit(x, h - y, w, h, c));
        }
    }
}

proof fn mirrored(x: int, y: int, w: int, h: int, c: int)
    requires
        0 <= x <= w,
        0 <= y <= h,
        w > 0,
        h > 0,
        c >= 1,
        2 * c <= w || (c == 1 && w == 1),
        2 * c <= h || (c == 1 && h == 1),
    ensures
        rounded_hit(w - x, y, w, h, c) == rounded_hit(x, y, w, h, c),
{
    let cy: int = if y < c {
        c
    } else {
        h - c
    };
    assert((x - c) * (x - c) == (w - x - (w - c)) * (w - x - (w - c))) by (nonlinear_arith);
    assert((x - (w - c)) * (x - (w - c)) == (w - x - c) * (w - x - c)) by (nonlinear_arith);
    if y < c || y >= h - c {
        assert((y - cy) * (y - cy) <= c * c) by (nonlinear_arith)
            requires
                -c <= y - cy <= c,
        ;
    }
    assert((c - c) * (c - c) == 0 && (w - c - (w - c)) * (w - c - (w - c)) == 0)
        by (nonlinear_arith);
}

/// How far the edges of a window may be off those of the monitor that it covers.
pub const TOLERANCE: i32 = 8;

/// Whether a window covers a monitor, up to `tol` pixels at each edge. An empty monitor is
/// covered by nothing.
pub open spec fn covers(win: Rect, mon: Rect, tol: int) -> bool {
    &&& mon.left < mon.right
    &&& mon.top < mon.bottom
    &&& win.left <= mon.left + tol
    &&& win.top <= mon.top + tol
    &&& win.right >= mon.right - tol
    &&& win.bottom >= mon.bottom - tol
}

/// Whether a window covers a monitor, up to `tol` pixels at each edge.
pub fn covers_monitor(win: &Rect, mon: &Rect, tol: i32) -> (r: bool)
    ensures
        r == covers(*win, *mon, tol as int),
{
    if mon.right <= mon.left || mon.bottom <= mon.top {
        return false;
    }
    let t: i64 = tol as i64;
    win.left as i64 <= mon.left as i64 + t && win.top as i64 <= mon.top as i64 + t && win.right
        as i64 >= mon.right as i64 - t && win.bottom as i64 >= mon.bottom as i64 - t
}

/// A window that covers a monitor covers it under any larger tolerance too, and so does any
/// larger window.
pub proof fn law_covering_is_monotone(win: Rect, wider: Rect, mon: Rect, tol: int, more: int)
    requires
        covers(win, mon, tol),
        tol <= more,
        wider.left <= win.left,
        wider.top <= win.top,
        wider.right >= win.right,
        wider.bottom >= win.bottom,
    ensures
        covers(wider, mon, more),
{
}

/// A number that fits is kept; one that does not becomes the nearest that does.
pub proof fn law_nearest_that_fits(v: int, u: i32)
    ensures
        i32::MIN <= saturated(v) <= i32::MAX,
        i32::MIN <= v <= i32::MAX ==> saturated(v) == v,
        v <= u ==> saturated(v) <= u,
        v >= u ==> saturated(v) >= u,
{
}

/// Both coordinates come out of a message as they went in, those left of or above the first screen
/// too.
pub proof fn law_coordinates_come_out(x: int, y: int)
    requires
        -0x8000 <= x < 0x8000,
        -0x8000 <= y < 0x8000,
    ensures
        signed_half(low_half(y * 0x10000 + x % 0x10000)) == x,
        signed_half(high_half(y * 0x10000 + x % 0x10000)) == y,
{
    let low = x % 0x10000;
    let l = y * 0x10000 + low;
    assert(l % 0x10000 == low && l / 0x10000 == y) by (nonlinear_arith)
        requires
            l == y * 0x10000 + low,
            0 <= low < 0x10000,
    ;
}

/// A window that fits is moved no further than needed: no place at which it shows whole is nearer.
/// One that is too large keeps its left or upper edge in sight.
pub proof fn law_moved_no_further(v: int, size: int, lo: int, hi: int, u: int)
    ensures
        size <= hi - lo && lo <= u && u + size <= hi ==> {
            let r = kept_inside(v, size, lo, hi);
            &&& v <= r <= u || u <= r <= v
            &&& lo <= r && r + size <= hi
        },
        size > hi - lo ==> kept_inside(v, size, lo, hi) == lo,
{
}

/// Between two bounds nothing moves; outside it goes to the nearer bound; with no room between
/// them it stays.
pub proof fn law_brought_between(v: int, lo: int, hi: int, u: int)
    ensures
        hi <= lo ==> between(v, lo, hi) == v,
        lo < hi && lo <= u <= hi ==> {
            let r = between(v, lo, hi);
            &&& v <= r <= u || u <= r <= v
            &&& lo <= r <= hi
        },
{
}

/// The area that is given is the one used; without one, there is room to the right and below the
/// origin.
pub proof fn law_area_used(a: Rect)
    ensures
        area_or_fallback(Some(a)) == a,
        area_or_fallback(None).left == 0,
        area_or_fallback(None).top == 0,
        area_or_fallback(None).width() == 32767,
        area_or_fallback(None).height() == 32767,
{
}

/// Half is never more than half, towards neither side.
pub proof fn law_halves(d: int)
    ensures
        d >= 0 ==> d - 1 <= 2 * half(d) <= d,
        d <= 0 ==> d <= 2 * half(d) <= d + 1,
        half(-d) == -half(d),
{
}

/// The radius of the corners is the one asked for where it fits into half the window, and else
/// as large as fits, but never less than one.
pub proof fn law_radius_fits(w: int, h: int, r: int)
    requires
        w > 0,
        h > 0,
    ensures
        corner_radius(w, h, r) >= 1,
        1 <= r <= w / 2 && r <= h / 2 ==> corner_radius(w, h, r) == r,
        corner_radius(w, h, r) > 1 ==> 2 * corner_radius(w, h, r) <= w && 2 * corner_radius(w, h, r)
            <= h && corner_radius(w, h, r) <= r,
        r > w / 2 && w <= h && w >= 2 ==> corner_radius(w, h, r) == w / 2,
        r > h / 2 && h <= w && h >= 2 ==> corner_radius(w, h, r) == h / 2,
{
}

/// Without rounding all of a window is hit. With it, a point in the square at a corner is hit
/// exactly within the circle that touches both edges there.
pub proof fn law_corner_is_round(x: int, y: int, w: int, h: int, r: i32)
    requires
        w > 0,
        h > 0,
    ensures
        in_rounded(x, y, w, h, None),
        !in_rounded(x, y, 0, h, None),
        !in_rounded(x, y, w, 0, None),
        ({
            let c = corner_radius(w, h, r as int);
            x < c && y < c ==> (in_rounded(x, y, w, h, Some(r)) <==> (x - c) * (x - c) + (y - c) * (
            y - c) <= c * c)
        }),
        ({
            let c = corner_radius(w, h, r as int);
            c <= x && x >= w - c && y < c ==> (in_rounded(x, y, w, h, Some(r)) <==> (x - (w - c)) * (
            x - (w - c)) + (y - c) * (y - c) <= c * c)
        }),
{
}

/// A window covers a screen exactly where none of its edges lies further inside than is let pass.
pub proof fn law_covering(win: Rect, mon: Rect, tol: int)
    requires
        mon.left < mon.right,
        mon.top < mon.bottom,
    ensures
        tol >= 0 ==> covers(mon, mon, tol),
        win.left - mon.left > tol ==> !covers(win, mon, tol),
        win.top - mon.top > tol ==> !covers(win, mon, tol),
        mon.right - win.right > tol ==> !covers(win, mon, tol),
        mon.bottom - win.bottom > tol ==> !covers(win, mon, tol),
        win.left - mon.left <= tol && win.top - mon.top <= tol && mon.right - win.right <= tol
            && mon.bottom - win.bottom <= tol ==> covers(win, mon, tol),
{
}

/// A screen without an area is covered by nothing.
pub proof fn law_no_screen(win: Rect, mon: Rect, tol: int)
    requires
        mon.left >= mon.right || mon.top >= mon.bottom,
    ensures
        !covers(win, mon, tol),
{
}

} // verus!
