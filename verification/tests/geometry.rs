use iuv_windows::geometry::{
    center_window, clamp_to_work, clamp_to_work_area, client_pos, covers_monitor, default_pos, dpi_of,
    in_rounded_rect, lparam_x, lparam_y, saturate, Rect, TOLERANCE,
};

/// The whole part of a radius; none for a corner that is square.
fn radius(r: f32) -> Option<i32> {
    if !r.is_finite() || r <= 0.0 {
        None
    } else {
        Some(r as i32)
    }
}

fn rounded(x: i32, y: i32, w: i32, h: i32, r: f32) -> bool {
    in_rounded_rect(x, y, w, h, radius(r))
}

fn r(l: i32, t: i32, rt: i32, b: i32) -> Rect {
    Rect { left: l, top: t, right: rt, bottom: b }
}

fn mon() -> Rect {
    r(0, 0, 1920, 1080)
}

#[test]
fn exact_cover_is_fullscreen() {
    assert!(covers_monitor(&r(0, 0, 1920, 1080), &mon(), TOLERANCE));
}

#[test]
fn within_tolerance_is_fullscreen() {
    assert!(covers_monitor(&r(4, 4, 1916, 1076), &mon(), TOLERANCE));
    assert!(covers_monitor(&r(-4, -4, 1924, 1084), &mon(), TOLERANCE));
}

#[test]
fn beyond_tolerance_not_fullscreen() {
    assert!(!covers_monitor(&r(16, 16, 1904, 1064), &mon(), TOLERANCE));
}

#[test]
fn maximized_window_not_fullscreen() {
    assert!(!covers_monitor(&r(0, 0, 1920, 1040), &mon(), TOLERANCE));
}

#[test]
fn normal_window_not_fullscreen() {
    assert!(!covers_monitor(&r(100, 100, 1200, 800), &mon(), TOLERANCE));
}

#[test]
fn secondary_monitor_origin_respected() {
    let m = r(1920, 0, 3840, 1080);
    assert!(covers_monitor(&r(1920, 0, 3840, 1080), &m, TOLERANCE));
    assert!(!covers_monitor(&r(0, 0, 1920, 1080), &m, TOLERANCE));
}

#[test]
fn degenerate_rects_rejected() {
    assert!(!covers_monitor(&r(0, 0, 1920, 1080), &r(100, 100, 100, 100), TOLERANCE));
    assert!(!covers_monitor(&r(0, 0, 0, 0), &mon(), TOLERANCE));
}

#[test]
fn in_rounded_rect_center_hit() {
    assert!(rounded(50, 50, 200, 100, 8.0), "中心必然命中");
    assert!(rounded(0, 0, 200, 100, 0.0), "半径 0 = 全矩形命中");
}

#[test]
fn in_rounded_rect_corners_transparent() {
    assert!(!rounded(1, 1, 200, 100, 8.0), "左上角圆弧外");
    assert!(!rounded(199, 1, 200, 100, 8.0), "右上角圆弧外");
    assert!(!rounded(1, 99, 200, 100, 8.0), "左下角圆弧外");
    assert!(!rounded(199, 99, 200, 100, 8.0), "右下角圆弧外");
    assert!(rounded(8, 8, 200, 100, 8.0), "圆弧边界命中");
    assert!(rounded(8, 50, 200, 100, 8.0), "左边缘中点命中");
    assert!(rounded(100, 99, 200, 100, 8.0), "下边缘中点命中");
}

#[test]
fn in_rounded_rect_radius_clamped() {
    assert!(
        !rounded(1, 1, 10, 10, 100.0),
        "钳制后圆角 (5,5) r=5：角尖 (1,1) 距圆心 √32>5 → 圆弧外"
    );
    assert!(
        rounded(3, 3, 10, 10, 100.0),
        "钳制后圆角内点 (3,3) 距圆心 √8<5 → 命中"
    );
    assert!(
        !rounded(0, 3, 10, 10, 100.0),
        "左上圆角外 (0,3)：距圆心 (5,5) √29>5 → 穿透"
    );
    assert!(
        rounded(0, 5, 10, 10, 100.0),
        "左缘中点 (0,5) 在竖直边上（非圆角区）→ 命中"
    );
}

#[test]
fn toolbar_in_rounded_rect_center_and_corners() {
    assert!(rounded(50, 50, 200, 100, 8.0), "中心命中");
    assert!(!rounded(1, 1, 200, 100, 8.0), "角尖圆弧外穿透");
    assert!(rounded(100, 99, 200, 100, 8.0), "下边缘中点命中");
    assert!(rounded(0, 5, 10, 10, 100.0), "半径钳制后左缘命中");
}

#[test]
fn mod_in_rounded_rect_center_and_corners() {
    assert!(rounded(50, 50, 200, 100, 8.0), "中心命中");
    assert!(!rounded(1, 1, 200, 100, 8.0), "角尖圆弧外穿透");
    assert!(rounded(100, 99, 200, 100, 8.0), "下边缘中点命中");
    assert!(rounded(0, 5, 10, 10, 100.0), "半径钳制后左缘命中");
}

#[test]
fn empty_box_holds_no_point() {
    assert!(!rounded(0, 0, 0, 100, 0.0));
    assert!(!rounded(0, 0, 100, -1, 8.0));
    assert!(rounded(0, 0, 100, 100, f32::NAN), "a radius that is no number is no radius");
}

#[test]
fn windows_stay_on_the_work_area() {
    let a = Some(r(0, 0, 1000, 800));
    assert_eq!(clamp_to_work(100, 100, 50, 50, a), (100, 100));
    assert_eq!(clamp_to_work(990, 790, 50, 50, a), (950, 750));
    assert_eq!(clamp_to_work(-10, -20, 50, 50, a), (0, 0));
    assert_eq!(clamp_to_work(0, 0, 2000, 50, a), (0, 0), "the left edge counts more");
    let (x, y) = clamp_to_work(950, 750, 50, 50, a);
    assert_eq!(clamp_to_work(x, y, 50, 50, a), (x, y), "clamping twice changes nothing");
    assert_eq!(clamp_to_work(40000, 5, 100, 10, None), (32667, 5), "without a work area");
}

#[test]
fn default_place_is_at_the_lower_right() {
    let (x, y) = default_pos(200, 40, Some(r(0, 0, 1920, 1040)));
    assert!(x + 200 <= 1920 && y + 40 <= 1040);
    assert!(x > 960 && y > 520);
}

#[test]
fn menus_and_windows_are_placed() {
    let work = r(0, 0, 1920, 1040);
    let (x, y) = clamp_to_work_area(1915, 1035, 200, 120, work);
    assert!(x >= 0 && x + 200 <= 1920);
    assert!(y >= 0 && y + 120 <= 1040);
    assert_eq!(center_window(r(0, 0, 920, 540), work), (500, 250));
}

#[test]
fn message_halves() {
    let l: isize = 0xFFF6_0005u32 as i32 as isize;
    assert_eq!(lparam_x(l), 5);
    assert_eq!(lparam_y(l), -10);
    assert_eq!(client_pos(l), (5, 0xFFF6));
    assert_eq!(client_pos(0x0002_0001), (1, 2));
    assert_eq!(saturate(i64::MAX), i32::MAX);
    assert_eq!(saturate(-7), -7);
    assert_eq!(saturate(i64::MIN), i32::MIN);
}

#[test]
fn resolution_is_plain_where_unknown() {
    assert_eq!(dpi_of(Some(144)), 144);
    assert_eq!(dpi_of(Some(0)), 96);
    assert_eq!(dpi_of(Some(-1)), 96);
    assert_eq!(dpi_of(None), 96);
}

#[test]
fn corners_are_alike() {
    for (w, h, r) in [(40, 30, 8), (7, 9, 100), (1, 5, 3), (2, 2, 1)] {
        for x in 0..=w {
            for y in 0..=h {
                let hit = in_rounded_rect(x, y, w, h, Some(r));
                assert_eq!(in_rounded_rect(w - x, y, w, h, Some(r)), hit, "{x} {y}");
                assert_eq!(in_rounded_rect(x, h - y, w, h, Some(r)), hit, "{x} {y}");
            }
        }
    }
}
