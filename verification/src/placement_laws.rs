//! Geometric guarantees of the window placement.

use vstd::prelude::*;
use crate::desktop::{rect_overlap, MascotDockSide, PhysicalRect};
use crate::placement::{
    anchored_window_geometry, card_geometry, context_menu_geometry, dock_target,
    MascotContextMenuPlacement,
};

verus! {

/// A work area that lies within the `i32` coordinate space.
pub open spec fn addressable(r: PhysicalRect) -> bool {
    r.x + r.width <= i32::MAX && r.y + r.height <= i32::MAX
}

/// A detached card never covers the avatar, as long as the work area leaves
/// at least one free pixel row above or below it (the card then shrinks into
/// the larger free band instead of overlapping).
pub proof fn law_card_never_covers_avatar(
    avatar: PhysicalRect,
    work_area: PhysicalRect,
    width: i64,
    height: i64,
    gap: i64,
    margin: i64,
)
    requires
        0 <= gap,
        0 <= margin,
        2 * margin <= work_area.width,
        2 * margin <= work_area.height,
        addressable(work_area),
        avatar.y - gap - (work_area.y + margin) >= 1 || (work_area.y + work_area.height - margin) - (
        avatar.y + avatar.height) - gap >= 1,
    ensures
        rect_overlap(card_geometry(avatar, work_area, width, height, gap, margin), avatar) is None,
{
}

/// When the work area has room for the whole window inside its margins, the
/// anchored window stays inside them.
pub proof fn law_anchored_window_stays_inside_margins(
    avatar: PhysicalRect,
    work_area: PhysicalRect,
    width: i64,
    height: i64,
    offset_x: i64,
    offset_y: i64,
    margin: i64,
)
    requires
        0 <= margin,
        1 <= width,
        1 <= height,
        width + 2 * margin <= work_area.width,
        height + 2 * margin <= work_area.height,
        addressable(work_area),
    ensures
        ({
            let r = anchored_window_geometry(avatar, work_area, width, height, offset_x, offset_y, margin);
            &&& r.width == width && r.height == height
            &&& work_area.x + margin <= r.x && r.x + r.width <= work_area.x + work_area.width - margin
            &&& work_area.y + margin <= r.y && r.y + r.height <= work_area.y + work_area.height - margin
        }),
{
}

/// A peeked window keeps exactly `visible_width` pixels on screen at the edge
/// it docked to.
pub proof fn law_peek_keeps_requested_width_visible(
    x: i32,
    y: i32,
    width: u32,
    height: u32,
    work_area: PhysicalRect,
    visible_width: i64,
    rest_margin: i64,
    top_margin: i64,
    bottom_margin: i64,
)
    requires
        0 <= visible_width <= width,
        addressable(work_area),
        work_area.x - width >= i32::MIN,
    ensures
        ({
            let t = dock_target(x, y, width, height, work_area, true, visible_width, rest_margin, top_margin, bottom_margin);
            match t.2 {
                MascotDockSide::Left => t.0 + width == work_area.x + visible_width,
                MascotDockSide::Right => work_area.x + work_area.width - t.0 == visible_width,
            }
        }),
{
}

/// A detached card lies inside the work area, within its margins, whenever
/// the avatar does and the margins leave room for at least one pixel.
pub proof fn law_card_stays_inside_the_work_area(
    avatar: PhysicalRect,
    work_area: PhysicalRect,
    width: i64,
    height: i64,
    gap: i64,
    margin: i64,
)
    requires
        0 <= gap,
        0 <= margin,
        2 * margin < work_area.width,
        2 * margin < work_area.height,
        addressable(work_area),
        work_area.x + margin <= avatar.x,
        avatar.x + avatar.width <= work_area.x + work_area.width - margin,
        work_area.y + margin <= avatar.y,
        avatar.y + avatar.height <= work_area.y + work_area.height - margin,
    ensures
        ({
            let card = card_geometry(avatar, work_area, width, height, gap, margin);
            &&& work_area.x + margin <= card.x
            &&& card.x + card.width <= work_area.x + work_area.width - margin
            &&& work_area.y + margin <= card.y
            &&& card.y + card.height <= work_area.y + work_area.height - margin
        }),
{
}

/// A card that fits the work area keeps its width, and goes above the avatar
/// whenever the band above (inside the margin, `gap` away from the avatar)
/// holds it, whatever the band below; otherwise below, when that band holds
/// it. Either way it keeps its height, and is centered over the avatar
/// wherever that fits inside the side margins.
pub proof fn law_card_prefers_above_then_below(
    avatar: PhysicalRect,
    work_area: PhysicalRect,
    width: i64,
    height: i64,
    gap: i64,
    margin: i64,
)
    requires
        0 <= gap,
        0 <= margin,
        addressable(work_area),
        1 <= width <= work_area.width - 2 * margin,
        1 <= height <= work_area.height - 2 * margin,
    ensures
        ({
            let card = card_geometry(avatar, work_area, width, height, gap, margin);
            let above = avatar.y - gap - (work_area.y + margin);
            let below = (work_area.y + work_area.height - margin) - (avatar.y + avatar.height) - gap;
            &&& card.width == width
            &&& above >= height ==> card.y == avatar.y - gap - height && card.height == height
            &&& above < height && below >= height ==> card.y == avatar.y + avatar.height + gap
                && card.height == height
            &&& (above >= height || below >= height) && work_area.x + margin <= avatar.x + avatar.width / 2
                - width / 2 <= work_area.x + work_area.width - margin - width ==> card.x == avatar.x
                + avatar.width / 2 - width / 2
        }),
{
}

/// The context menu opens above the avatar exactly when its visible part
/// then keeps `gap` from the avatar and the window stays `margin` inside the
/// top of the work area; it then sits right there. When the work area can
/// hold the menu, it never starts above the top margin, a menu opened below
/// ends inside the bottom margin, and it stays inside the side margins,
/// centered over the avatar (to the half pixel) wherever that fits.
pub proof fn law_context_menu_stays_on_its_work_area(
    avatar: PhysicalRect,
    work_area: PhysicalRect,
    width: i64,
    height: i64,
    margin: i64,
    gap: i64,
    visible_bottom: i64,
    visible_top: i64,
)
    requires
        0 <= margin,
        0 <= gap,
        0 <= visible_bottom,
        0 <= visible_top,
        addressable(work_area),
        1 <= width <= work_area.width - 2 * margin,
        1 <= height <= work_area.height - 2 * margin,
    ensures
        ({
            let (menu, placement) = context_menu_geometry(
                avatar,
                work_area,
                width,
                height,
                margin,
                gap,
                visible_bottom,
                visible_top,
            );
            &&& (placement == MascotContextMenuPlacement::Above) == (avatar.y - gap - visible_bottom
                >= work_area.y + margin)
            &&& placement == MascotContextMenuPlacement::Above ==> menu.y == avatar.y - gap - visible_bottom
            &&& menu.width == width && menu.height == height
            &&& work_area.y + margin <= menu.y
            &&& placement == MascotContextMenuPlacement::Below ==> menu.y + menu.height <= work_area.y
                + work_area.height - margin
            &&& work_area.x + margin <= menu.x && menu.x + menu.width <= work_area.x + work_area.width - margin
            &&& ({
                let twice_center_left = 2 * avatar.x + avatar.width - width;
                2 * (work_area.x + margin) + 1 <= twice_center_left <= 2 * (work_area.x + work_area.width
                    - margin - width) - 1 ==> -1 <= 2 * menu.x - twice_center_left <= 1
            })
        }),
{
}

/// A resting (not peeking) mascot docks `rest_margin` inside the edge of its
/// own work area nearer to its center (the left edge when centered), and
/// keeps its place vertically within the top and bottom margins.
pub proof fn law_resting_dock_stays_inside_its_work_area(
    x: i32,
    y: i32,
    width: u32,
    height: u32,
    work_area: PhysicalRect,
    visible_width: i64,
    rest_margin: i64,
    top_margin: i64,
    bottom_margin: i64,
)
    requires
        addressable(work_area),
        0 <= rest_margin,
        rest_margin + width <= work_area.width,
        0 <= top_margin,
        0 <= bottom_margin,
        top_margin + height + bottom_margin <= work_area.height,
    ensures
        ({
            let t = dock_target(x, y, width, height, work_area, false, visible_width, rest_margin, top_margin, bottom_margin);
            &&& (t.2 == MascotDockSide::Left) == (x + width / 2 <= work_area.x + work_area.width / 2)
            &&& t.2 == MascotDockSide::Left ==> t.0 == work_area.x + rest_margin
            &&& t.2 == MascotDockSide::Right ==> t.0 + width == work_area.x + work_area.width - rest_margin
            &&& work_area.y + top_margin <= t.1 && t.1 + height <= work_area.y + work_area.height - bottom_margin
            &&& (work_area.y + top_margin <= y && y + height <= work_area.y + work_area.height - bottom_margin
                ==> t.1 == y)
        }),
{
}

} // verus!
