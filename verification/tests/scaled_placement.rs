//! Placement scenarios stated in logical pixels of monitors with various
//! scales. The helpers convert logical lengths to physical pixels the way the
//! desktop shell does before it calls the placement functions.

use huali_mascot::desktop::PhysicalRect;
use huali_mascot::placement::{
    anchored_window_physical_geometry, card_physical_geometry,
    mascot_context_menu_physical_geometry, MascotContextMenuPlacement,
};

const MASCOT_WIDTH: f64 = 120.0;
const MASCOT_HEIGHT: f64 = 104.0;
const MASCOT_AVATAR_WIDTH: f64 = 96.0;
const MASCOT_AVATAR_HEIGHT: f64 = 88.0;
const MASCOT_NOTIFICATION_BOTTOM_PADDING: f64 = 8.0;
const MASCOT_NOTIFICATION_WIDTH: f64 = 320.0;
const MASCOT_NOTIFICATION_HEIGHT: f64 = 480.0;
const MASCOT_MESSAGE_WIDTH: f64 = 240.0;
const MASCOT_MESSAGE_HEIGHT: f64 = 176.0;
const PANEL_WIDTH: f64 = 380.0;
const PANEL_COMPACT_HEIGHT: f64 = 78.0;
const PANEL_MAX_HEIGHT: f64 = 380.0;
const SCREEN_MARGIN: f64 = 24.0;
const MASCOT_CONTEXT_MENU_WIDTH: f64 = 216.0;
const MASCOT_CONTEXT_MENU_HEIGHT: f64 = 76.0;
const MASCOT_CONTEXT_MENU_GAP: f64 = 18.0;
const MASCOT_CONTEXT_MENU_ABOVE_VISIBLE_BOTTOM: f64 = 55.0;
const MASCOT_CONTEXT_MENU_BELOW_VISIBLE_TOP: f64 = 9.0;
const MASCOT_CONTEXT_MENU_NAV_LEFT: f64 = 12.0;
const MASCOT_CONTEXT_MENU_TAIL_MIN: f64 = 18.0;
const MASCOT_CONTEXT_MENU_TAIL_MAX: f64 = 174.0;
const MASCOT_SYSTEM_NOTIFICATION_WIDTH: f64 = 320.0;
const MASCOT_SYSTEM_NOTIFICATION_HEIGHT: f64 = 320.0;
const MASCOT_SYSTEM_NOTIFICATION_GAP: f64 = 8.0;
const MASCOT_SYSTEM_NOTIFICATION_MARGIN: f64 = 8.0;

fn px(value: f64, scale: f64) -> i64 {
    (value * scale.max(f64::EPSILON)).round() as i64
}

fn rect(x: i32, y: i32, width: u32, height: u32) -> PhysicalRect {
    PhysicalRect {
        x,
        y,
        width,
        height,
    }
}

/// Offset of the avatar inside a mascot window of the given logical size.
fn avatar_offset(width: f64, height: f64, visible: bool) -> (f64, f64) {
    (
        (width - MASCOT_AVATAR_WIDTH) / 2.0,
        if visible {
            height - MASCOT_NOTIFICATION_BOTTOM_PADDING - MASCOT_AVATAR_HEIGHT
        } else {
            (height - MASCOT_AVATAR_HEIGHT) / 2.0
        },
    )
}

fn fit_notification_size(width: f64, height: f64, work_width: f64, work_height: f64) -> (f64, f64) {
    let available_width = (work_width - SCREEN_MARGIN * 2.0).max(work_width.min(MASCOT_WIDTH));
    let available_height = (work_height - SCREEN_MARGIN * 2.0).max(work_height.min(MASCOT_HEIGHT));
    (width.min(available_width), height.min(available_height))
}

fn fit_panel_height(requested: f64, work_height: f64) -> f64 {
    let available = (work_height - SCREEN_MARGIN * 2.0).max(PANEL_COMPACT_HEIGHT);
    requested
        .clamp(PANEL_COMPACT_HEIGHT, PANEL_MAX_HEIGHT)
        .min(available)
}

/// The mascot window around `avatar` for a hidden, compact or full notification.
fn notification_geometry(
    avatar: PhysicalRect,
    work_area: PhysicalRect,
    scale: f64,
    visible: bool,
    compact: bool,
) -> PhysicalRect {
    let (width, height) = if !visible {
        (MASCOT_WIDTH, MASCOT_HEIGHT)
    } else if compact {
        (MASCOT_MESSAGE_WIDTH, MASCOT_MESSAGE_HEIGHT)
    } else {
        (MASCOT_NOTIFICATION_WIDTH, MASCOT_NOTIFICATION_HEIGHT)
    };
    let (width, height) = if visible {
        fit_notification_size(
            width,
            height,
            f64::from(work_area.width) / scale,
            f64::from(work_area.height) / scale,
        )
    } else {
        (width, height)
    };
    let (offset_x, offset_y) = avatar_offset(width, height, visible);
    anchored_window_physical_geometry(
        avatar,
        work_area,
        px(width, scale),
        px(height, scale),
        px(offset_x, scale),
        px(offset_y, scale),
        px(SCREEN_MARGIN, scale),
    )
}

fn panel_geometry(avatar: PhysicalRect, work_area: PhysicalRect, scale: f64, requested: f64) -> PhysicalRect {
    card_physical_geometry(
        avatar,
        work_area,
        px(PANEL_WIDTH, scale),
        px(fit_panel_height(requested, f64::from(work_area.height) / scale), scale),
        0,
        px(SCREEN_MARGIN, scale),
    )
}

fn system_notification_geometry(avatar: PhysicalRect, work_area: PhysicalRect, scale: f64) -> PhysicalRect {
    card_physical_geometry(
        avatar,
        work_area,
        px(MASCOT_SYSTEM_NOTIFICATION_WIDTH, scale),
        px(MASCOT_SYSTEM_NOTIFICATION_HEIGHT, scale),
        px(MASCOT_SYSTEM_NOTIFICATION_GAP, scale),
        px(MASCOT_SYSTEM_NOTIFICATION_MARGIN, scale),
    )
}

/// The menu window, its placement and the logical tail coordinate inside the nav.
fn context_menu(
    avatar: PhysicalRect,
    work_area: PhysicalRect,
    scale: f64,
) -> (PhysicalRect, MascotContextMenuPlacement, f64) {
    let (menu, placement) = mascot_context_menu_physical_geometry(
        avatar,
        work_area,
        px(MASCOT_CONTEXT_MENU_WIDTH, scale),
        px(MASCOT_CONTEXT_MENU_HEIGHT, scale),
        px(SCREEN_MARGIN, scale),
        px(MASCOT_CONTEXT_MENU_GAP, scale),
        px(MASCOT_CONTEXT_MENU_ABOVE_VISIBLE_BOTTOM, scale),
        px(MASCOT_CONTEXT_MENU_BELOW_VISIBLE_TOP, scale),
    );
    let avatar_center_x = (f64::from(avatar.x) + f64::from(avatar.x) + f64::from(avatar.width)) / 2.0;
    let nav_left = f64::from(menu.x) + MASCOT_CONTEXT_MENU_NAV_LEFT * scale;
    let tail_x = ((avatar_center_x - nav_left) / scale)
        .clamp(MASCOT_CONTEXT_MENU_TAIL_MIN, MASCOT_CONTEXT_MENU_TAIL_MAX);
    (menu, placement, tail_x)
}

/// The avatar inside a collapsed mascot client area at scale 1.
fn collapsed_avatar(origin_x: i32, origin_y: i32) -> PhysicalRect {
    let (offset_x, offset_y) = avatar_offset(MASCOT_WIDTH, MASCOT_HEIGHT, false);
    rect(
        origin_x + offset_x.round() as i32,
        origin_y + offset_y.round() as i32,
        MASCOT_AVATAR_WIDTH as u32,
        MASCOT_AVATAR_HEIGHT as u32,
    )
}

#[test]
fn context_menu_position_keeps_mascot_window_stationary() {
    let client_origin = (1500, 700);
    let avatar = collapsed_avatar(client_origin.0, client_origin.1);
    let (menu, placement, tail_x) = context_menu(avatar, rect(0, 0, 1920, 1040), 1.0);

    assert_eq!(placement, MascotContextMenuPlacement::Above);
    assert_eq!(client_origin, (1500, 700));
    assert_eq!(
        menu.y + MASCOT_CONTEXT_MENU_ABOVE_VISIBLE_BOTTOM as i32,
        avatar.y - MASCOT_CONTEXT_MENU_GAP as i32
    );
    assert_eq!(
        menu.x + MASCOT_CONTEXT_MENU_WIDTH as i32 / 2,
        avatar.x + avatar.width as i32 / 2
    );
    assert_eq!(tail_x, 96.0);
}

#[test]
fn context_menu_uses_target_monitor_physical_pixels_at_fractional_dpi() {
    for scale in [1.0_f64, 1.25, 1.5, 1.75, 2.0] {
        let work_area = rect(
            -(1920.0 * scale) as i32,
            0,
            (1920.0 * scale) as u32,
            (1040.0 * scale) as u32,
        );
        let avatar = rect(
            work_area.x + (12.0 * scale).round() as i32,
            (700.0 * scale).round() as i32,
            (MASCOT_AVATAR_WIDTH * scale).round() as u32,
            (MASCOT_AVATAR_HEIGHT * scale).round() as u32,
        );
        let (menu, _, tail_x) = context_menu(avatar, work_area, scale);
        let margin = (SCREEN_MARGIN * scale).round() as i32;

        assert_eq!(menu.width, (MASCOT_CONTEXT_MENU_WIDTH * scale).round() as u32);
        assert_eq!(menu.height, (MASCOT_CONTEXT_MENU_HEIGHT * scale).round() as u32);
        assert!(menu.x >= work_area.x + margin);
        assert!(menu.x + menu.width as i32 <= work_area.x + work_area.width as i32 - margin);
        assert!(tail_x >= MASCOT_CONTEXT_MENU_TAIL_MIN);
        assert!(tail_x <= MASCOT_CONTEXT_MENU_TAIL_MAX);
    }
}

#[test]
fn context_menu_tail_stays_inside_the_nav_when_window_is_edge_clamped() {
    let work_area = rect(0, 0, 1366, 728);
    let (_, _, left) = context_menu(
        rect(0, 400, MASCOT_AVATAR_WIDTH as u32, MASCOT_AVATAR_HEIGHT as u32),
        work_area,
        1.0,
    );
    let (_, _, right) = context_menu(
        rect(
            1366 - MASCOT_AVATAR_WIDTH as i32,
            400,
            MASCOT_AVATAR_WIDTH as u32,
            MASCOT_AVATAR_HEIGHT as u32,
        ),
        work_area,
        1.0,
    );

    assert_eq!(left, MASCOT_CONTEXT_MENU_TAIL_MIN);
    assert_eq!(right, MASCOT_CONTEXT_MENU_TAIL_MAX);
}

#[test]
fn notification_physical_geometry_uses_target_monitor_pixels_at_supported_dpi() {
    for scale in [1.0_f64, 1.25, 1.5, 1.75, 2.0] {
        let work_area = rect(
            -(1920.0 * scale).round() as i32,
            -(40.0 * scale).round() as i32,
            (1920.0 * scale).round() as u32,
            (1040.0 * scale).round() as u32,
        );
        let avatar = rect(
            work_area.x + (900.0 * scale).round() as i32,
            work_area.y + (760.0 * scale).round() as i32,
            (MASCOT_AVATAR_WIDTH * scale).round() as u32,
            (MASCOT_AVATAR_HEIGHT * scale).round() as u32,
        );

        for (visible, compact, expected_width, expected_height) in [
            (false, false, MASCOT_WIDTH, MASCOT_HEIGHT),
            (true, true, MASCOT_MESSAGE_WIDTH, MASCOT_MESSAGE_HEIGHT),
            (true, false, MASCOT_NOTIFICATION_WIDTH, MASCOT_NOTIFICATION_HEIGHT),
        ] {
            let geometry = notification_geometry(avatar, work_area, scale, visible, compact);
            let (offset_x, offset_y) = avatar_offset(expected_width, expected_height, visible);
            let anchored_x = geometry.x + (offset_x * scale).round() as i32;
            let anchored_y = geometry.y + (offset_y * scale).round() as i32;
            let margin = (SCREEN_MARGIN * scale).round() as i32;

            assert_eq!(
                (geometry.width, geometry.height),
                (
                    (expected_width * scale).round() as u32,
                    (expected_height * scale).round() as u32
                )
            );
            assert!((anchored_x - avatar.x).abs() <= 1);
            assert!((anchored_y - avatar.y).abs() <= 1);
            assert!(geometry.x >= work_area.x + margin);
            assert!(geometry.y >= work_area.y + margin);
            assert!(geometry.x + geometry.width as i32 <= work_area.x + work_area.width as i32 - margin);
            assert!(
                geometry.y + geometry.height as i32 <= work_area.y + work_area.height as i32 - margin
            );
        }
    }
}

#[test]
fn collapsed_geometry_follows_the_actual_avatar_after_edge_clamping() {
    let scale = 1.5;
    let work_area = rect(-2048, 0, 2048, 1112);
    let requested_avatar = rect(
        -80,
        1010,
        (MASCOT_AVATAR_WIDTH * scale).round() as u32,
        (MASCOT_AVATAR_HEIGHT * scale).round() as u32,
    );
    let expanded = notification_geometry(requested_avatar, work_area, scale, true, false);
    let (expanded_x, expanded_y) =
        avatar_offset(MASCOT_NOTIFICATION_WIDTH, MASCOT_NOTIFICATION_HEIGHT, true);
    let clamped_avatar = rect(
        expanded.x + (expanded_x * scale).round() as i32,
        expanded.y + (expanded_y * scale).round() as i32,
        requested_avatar.width,
        requested_avatar.height,
    );
    let collapsed = notification_geometry(clamped_avatar, work_area, scale, false, false);
    let (collapsed_x, collapsed_y) = avatar_offset(MASCOT_WIDTH, MASCOT_HEIGHT, false);

    assert_ne!(clamped_avatar.x, requested_avatar.x);
    assert_ne!(clamped_avatar.y, requested_avatar.y);
    assert!((collapsed.x + (collapsed_x * scale).round() as i32 - clamped_avatar.x).abs() <= 1);
    assert!((collapsed.y + (collapsed_y * scale).round() as i32 - clamped_avatar.y).abs() <= 1);
}

#[test]
fn panel_physical_size_uses_the_mascot_target_monitor_scale() {
    let avatar = rect(500, 900, 120, 110);
    let work_area = rect(0, 0, 2560, 1440);

    let at_125 = panel_geometry(avatar, work_area, 1.25, 178.0);
    let at_200 = panel_geometry(avatar, work_area, 2.0, 178.0);

    assert_eq!((at_125.width, at_125.height), (475, 223));
    assert_eq!((at_200.width, at_200.height), (760, 356));
}

#[test]
fn panel_physical_geometry_supports_negative_coordinate_secondary_monitors() {
    let work_area = rect(-3840, -120, 3840, 2040);
    let left_edge = panel_geometry(rect(-3830, 1500, 192, 176), work_area, 2.0, 240.0);
    let right_edge = panel_geometry(rect(-110, 1500, 192, 176), work_area, 2.0, 240.0);

    assert_eq!(left_edge.x, -3840 + 48);
    assert_eq!(right_edge.x, -760 - 48);
    assert_eq!((left_edge.width, left_edge.height), (760, 480));
    assert!(left_edge.y >= work_area.y + 48);
    assert!(left_edge.y + left_edge.height as i32 <= 1920 - 48);
}

#[test]
fn detached_cards_never_cover_the_avatar_in_small_scaled_work_areas() {
    for scale in [1.0, 1.5, 2.0] {
        let work = rect(-1366, 0, 1366, 728);
        for (x, y) in [(-1300, 30), (-750, 330), (-250, 570)] {
            let avatar = rect(x, y, (92.0 * scale) as u32, (76.0 * scale) as u32);
            let notification = system_notification_geometry(avatar, work, scale);
            let panel = panel_geometry(avatar, work, scale, 380.0);
            for card in [notification, panel] {
                assert!(card.x >= work.x && card.y >= work.y);
                assert!(card.x + card.width as i32 <= work.x + work.width as i32);
                assert!(card.y + card.height as i32 <= work.y + work.height as i32);
                assert!(
                    card.x + card.width as i32 <= avatar.x
                        || card.x >= avatar.x + avatar.width as i32
                        || card.y + card.height as i32 <= avatar.y
                        || card.y >= avatar.y + avatar.height as i32
                );
            }
        }
    }
}
