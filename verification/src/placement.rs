//! Placement of the mascot's windows in physical screen pixels.
//!
//! Logical lengths are converted to physical pixels with the target
//! monitor's scale before they reach these functions; everything here works
//! on whole pixels, computed without overflow for every `i64` length.

use vstd::prelude::*;
use crate::desktop::{rect_holds, MascotDockSide, PhysicalRect};

verus! {

pub open spec fn clamped(v: int, lo: int, hi: int) -> int {
    if v < lo { lo } else if v > hi { hi } else { v }
}

pub open spec fn larger(a: int, b: int) -> int {
    if a >= b { a } else { b }
}

pub open spec fn smaller(a: int, b: int) -> int {
    if a <= b { a } else { b }
}

/// Half of `n`, rounded toward zero (integer division).
pub open spec fn half_toward_zero(n: int) -> int {
    if n >= 0 { n / 2 } else { -((-n) / 2) }
}

/// Half of `n`, with halves rounded away from zero.
pub open spec fn half_rounded(n: int) -> int {
    if n >= 0 { (n + 1) / 2 } else { -((-n + 1) / 2) }
}

/// The nearest `i32` coordinate.
pub open spec fn to_coordinate(v: int) -> i32 {
    clamped(v, i32::MIN as int, i32::MAX as int) as i32
}

fn clamp(v: i128, lo: i128, hi: i128) -> (c: i128)
    requires
        lo <= hi,
    ensures
        c == clamped(v as int, lo as int, hi as int),
{
    if v < lo {
        lo
    } else if v > hi {
        hi
    } else {
        v
    }
}

fn max_of(a: i128, b: i128) -> (m: i128)
    ensures
        m == larger(a as int, b as int),
{
    if a >= b {
        a
    } else {
        b
    }
}

fn min_of(a: i128, b: i128) -> (m: i128)
    ensures
        m == smaller(a as int, b as int),
{
    if a <= b {
        a
    } else {
        b
    }
}

fn half_toward_zero_exec(n: i128) -> (h: i128)
    requires
        n > i128::MIN,
    ensures
        h == half_toward_zero(n as int),
{
    if n >= 0 {
        n / 2
    } else {
        -((-n) / 2)
    }
}

fn half_rounded_exec(n: i128) -> (h: i128)
    requires
        i128::MIN + 1 < n < i128::MAX,
    ensures
        h == half_rounded(n as int),
{
    if n >= 0 {
        (n + 1) / 2
    } else {
        -((-n + 1) / 2)
    }
}

fn to_coordinate_exec(v: i128) -> (c: i32)
    ensures
        c == to_coordinate(v as int),
{
    clamp(v, i32::MIN as i128, i32::MAX as i128) as i32
}

// ---------------------------------------------------------------------------
// Monitor of the avatar.
// ---------------------------------------------------------------------------

pub open spec fn center_x(r: PhysicalRect) -> int {
    r.x + r.width / 2
}

pub open spec fn center_y(r: PhysicalRect) -> int {
    r.y + r.height / 2
}

/// Whether the avatar's center pixel lies on `monitor`.
pub open spec fn holds_avatar(monitor: PhysicalRect, avatar: PhysicalRect) -> bool {
    rect_holds(monitor, center_x(avatar), center_y(avatar))
}

/// The first monitor showing the avatar's center. An expanded transparent
/// mascot window can span displays, so the avatar, not the window, decides.
pub fn monitor_of_avatar(avatar: PhysicalRect, monitors: &[PhysicalRect]) -> (found: Option<usize>)
    ensures
        match found {
            Some(i) => i < monitors@.len() && holds_avatar(monitors@[i as int], avatar) && forall|j: int|
                0 <= j < i ==> !holds_avatar(#[trigger] monitors@[j], avatar),
            None => forall|j: int| 0 <= j < monitors@.len() ==> !holds_avatar(#[trigger] monitors@[j], avatar),
        },
{
    let cx: i64 = avatar.x as i64 + (avatar.width / 2) as i64;
    let cy: i64 = avatar.y as i64 + (avatar.height / 2) as i64;
    let n = monitors.len();
    let mut i: usize = 0;
    while i < n
        invariant
            n == monitors@.len(),
            i <= n,
            cx == center_x(avatar),
            cy == center_y(avatar),
            forall|j: int| 0 <= j < i ==> !holds_avatar(#[trigger] monitors@[j], avatar),
        decreases n - i,
    {
        let m = monitors[i];
        let left = m.x as i64;
        let top = m.y as i64;
        if cx >= left && cx < left + m.width as i64 && cy >= top && cy < top + m.height as i64 {
            return Some(i);
        }
        i += 1;
    }
    None
}

// ---------------------------------------------------------------------------
// Detached cards (system notification and todo panel).
// ---------------------------------------------------------------------------

/// Placement of a detached card of (physical) `width` x `height` next to the
/// avatar inside `work_area`, keeping `gap` from the avatar and `margin` from
/// the work area's edges. Above is preferred, then below, then a side; if no
/// full card fits anywhere its height shrinks to the larger free band rather
/// than covering the avatar.
pub open spec fn card_geometry(
    avatar: PhysicalRect,
    work_area: PhysicalRect,
    width: i64,
    height: i64,
    gap: i64,
    margin: i64,
) -> PhysicalRect {
    let margin = larger(margin as int, 0);
    let gap = larger(gap as int, 0);
    let left = work_area.x + margin;
    let top = work_area.y + margin;
    let right = work_area.x + work_area.width - margin;
    let bottom = work_area.y + work_area.height - margin;
    let w = clamped(width as int, 1, larger(right - left, 1));
    let h = clamped(height as int, 1, larger(bottom - top, 1));
    let avatar_left = avatar.x as int;
    let avatar_right = avatar_left + avatar.width;
    let avatar_top = avatar.y as int;
    let avatar_bottom = avatar_top + avatar.height;
    let above = larger(avatar_top - gap - top, 0);
    let below = larger(bottom - avatar_bottom - gap, 0);
    let centered_x = clamped(avatar_left + avatar.width / 2 - w / 2, left, larger(right - w, left));
    let fits_right = right - avatar_right - gap >= w;
    let fits_left = avatar_left - gap - left >= w;
    let (x, y, h) = if above >= h {
        (centered_x, avatar_top - gap - h, h)
    } else if below >= h {
        (centered_x, avatar_bottom + gap, h)
    } else if fits_right || fits_left {
        (
            if fits_right { avatar_right + gap } else { avatar_left - gap - w },
            clamped(avatar_top + avatar.height / 2 - h / 2, top, larger(bottom - h, top)),
            h,
        )
    } else if above >= below {
        let h = smaller(h, larger(above, 1));
        (centered_x, larger(avatar_top - gap - h, top), h)
    } else {
        let h = smaller(h, larger(below, 1));
        (centered_x, smaller(avatar_bottom + gap, larger(bottom - h, top)), h)
    };
    PhysicalRect { x: to_coordinate(x), y: to_coordinate(y), width: w as u32, height: h as u32 }
}

pub fn card_physical_geometry(
    avatar: PhysicalRect,
    work_area: PhysicalRect,
    width: i64,
    height: i64,
    gap: i64,
    margin: i64,
) -> (card: PhysicalRect)
    ensures
        card == card_geometry(avatar, work_area, width, height, gap, margin),
{
    let width = width as i128;
    let height = height as i128;
    let gap = gap as i128;
    let margin = margin as i128;
    let margin = max_of(margin, 0);
    let gap = max_of(gap, 0);
    let left: i128 = work_area.x as i128 + margin;
    let top: i128 = work_area.y as i128 + margin;
    let right: i128 = work_area.x as i128 + work_area.width as i128 - margin;
    let bottom: i128 = work_area.y as i128 + work_area.height as i128 - margin;
    let w = clamp(width, 1, max_of(right - left, 1));
    let mut h = clamp(height, 1, max_of(bottom - top, 1));
    let avatar_left = avatar.x as i128;
    let avatar_right: i128 = avatar_left + avatar.width as i128;
    let avatar_top = avatar.y as i128;
    let avatar_bottom: i128 = avatar_top + avatar.height as i128;
    let above = max_of(avatar_top - gap - top, 0);
    let below = max_of(bottom - avatar_bottom - gap, 0);
    let center: i128 = avatar_left + (avatar.width / 2) as i128;
    let mut x = clamp(center - w / 2, left, max_of(right - w, left));
    let y: i128;
    if above >= h {
        y = avatar_top - gap - h;
    } else if below >= h {
        y = avatar_bottom + gap;
    } else if right - avatar_right - gap >= w || avatar_left - gap - left >= w {
        x = if right - avatar_right - gap >= w {
            avatar_right + gap
        } else {
            avatar_left - gap - w
        };
        y = clamp(avatar_top + (avatar.height / 2) as i128 - h / 2, top, max_of(bottom - h, top));
    } else if above >= below {
        h = min_of(h, max_of(above, 1));
        y = max_of(avatar_top - gap - h, top);
    } else {
        h = min_of(h, max_of(below, 1));
        y = min_of(avatar_bottom + gap, max_of(bottom - h, top));
    }
    PhysicalRect { x: to_coordinate_exec(x), y: to_coordinate_exec(y), width: w as u32, height: h as u32 }
}

/// Which side of the avatar a placed card ended up on, as told to its renderer.
#[derive(Clone, Copy, Debug, PartialEq, Eq, Structural)]
pub enum CardSide {
    Above,
    Below,
    Left,
    Right,
}

pub open spec fn side_of_card(card: PhysicalRect, avatar: PhysicalRect) -> CardSide {
    if card.y >= avatar.y + avatar.height {
        CardSide::Below
    } else if card.x >= avatar.x + avatar.width {
        CardSide::Right
    } else if card.x + card.width <= avatar.x {
        CardSide::Left
    } else {
        CardSide::Above
    }
}

pub fn card_side(card: PhysicalRect, avatar: PhysicalRect) -> (side: CardSide)
    requires
        avatar.height <= i32::MAX,
        avatar.width <= i32::MAX,
        card.width <= i32::MAX,
        avatar.y + avatar.height <= i32::MAX,
        avatar.x + avatar.width <= i32::MAX,
        card.x + card.width <= i32::MAX,
    ensures
        side == side_of_card(card, avatar),
{
    if card.y >= avatar.y + avatar.height as i32 {
        CardSide::Below
    } else if card.x >= avatar.x + avatar.width as i32 {
        CardSide::Right
    } else if card.x + card.width as i32 <= avatar.x {
        CardSide::Left
    } else {
        CardSide::Above
    }
}

impl CardSide {
    pub fn as_str(self) -> (name: &'static str)
        ensures
            name@ == (match self {
                CardSide::Above => "above"@,
                CardSide::Below => "below"@,
                CardSide::Left => "left"@,
                CardSide::Right => "right"@,
            }),
    {
        match self {
            CardSide::Above => "above",
            CardSide::Below => "below",
            CardSide::Left => "left",
            CardSide::Right => "right",
        }
    }
}

// ---------------------------------------------------------------------------
// The mascot window around its avatar.
// ---------------------------------------------------------------------------

/// Placement of a window of (physical) `width` x `height` whose avatar sits
/// `offset_x`/`offset_y` from its top-left corner, so that the avatar stays
/// where it is, kept `margin` inside the work area; a window larger than the
/// work area is centered on it.
pub open spec fn anchored_window_geometry(
    avatar: PhysicalRect,
    work_area: PhysicalRect,
    width: i64,
    height: i64,
    offset_x: i64,
    offset_y: i64,
    margin: i64,
) -> PhysicalRect {
    let w = clamped(width as int, 1, u32::MAX as int);
    let h = clamped(height as int, 1, u32::MAX as int);
    let desired_x = avatar.x - offset_x;
    let desired_y = avatar.y - offset_y;
    let margin = larger(margin as int, 0);
    let min_x = work_area.x + margin;
    let min_y = work_area.y + margin;
    let max_x = work_area.x + work_area.width - w - margin;
    let max_y = work_area.y + work_area.height - h - margin;
    let x = if max_x >= min_x {
        clamped(desired_x, min_x, max_x)
    } else {
        work_area.x + half_toward_zero(work_area.width - w)
    };
    let y = if max_y >= min_y {
        clamped(desired_y, min_y, max_y)
    } else {
        work_area.y + half_toward_zero(work_area.height - h)
    };
    PhysicalRect { x: to_coordinate(x), y: to_coordinate(y), width: w as u32, height: h as u32 }
}

pub fn anchored_window_physical_geometry(
    avatar: PhysicalRect,
    work_area: PhysicalRect,
    width: i64,
    height: i64,
    offset_x: i64,
    offset_y: i64,
    margin: i64,
) -> (window: PhysicalRect)
    ensures
        window == anchored_window_geometry(avatar, work_area, width, height, offset_x, offset_y, margin),
{
    let width = width as i128;
    let height = height as i128;
    let offset_x = offset_x as i128;
    let offset_y = offset_y as i128;
    let margin = margin as i128;
    let w = clamp(width, 1, u32::MAX as i128);
    let h = clamp(height, 1, u32::MAX as i128);
    let desired_x: i128 = avatar.x as i128 - offset_x;
    let desired_y: i128 = avatar.y as i128 - offset_y;
    let margin = max_of(margin, 0);
    let work_left = work_area.x as i128;
    let work_top = work_area.y as i128;
    let min_x = work_left + margin;
    let min_y = work_top + margin;
    let max_x = work_left + work_area.width as i128 - w - margin;
    let max_y = work_top + work_area.height as i128 - h - margin;
    let x = if max_x >= min_x {
        clamp(desired_x, min_x, max_x)
    } else {
        work_left + half_toward_zero_exec(work_area.width as i128 - w)
    };
    let y = if max_y >= min_y {
        clamp(desired_y, min_y, max_y)
    } else {
        work_top + half_toward_zero_exec(work_area.height as i128 - h)
    };
    PhysicalRect { x: to_coordinate_exec(x), y: to_coordinate_exec(y), width: w as u32, height: h as u32 }
}

// ---------------------------------------------------------------------------
// Docking at a screen edge.
// ---------------------------------------------------------------------------

/// The edge nearer to the window's center; a centered window docks left.
pub open spec fn nearest_side(x: i32, width: u32, work_area: PhysicalRect) -> MascotDockSide {
    if x + width / 2 <= work_area.x + work_area.width / 2 { MascotDockSide::Left } else { MascotDockSide::Right }
}

/// Where a window at (`x`, `y`) of `width` x `height` docks: at the nearer
/// edge, `rest_margin` inside it, or pushed out so that only `visible_width`
/// stays on screen when peeking. Vertically it stays put within the work
/// area's `top_margin` and `bottom_margin`.
pub open spec fn dock_target(
    x: i32,
    y: i32,
    width: u32,
    height: u32,
    work_area: PhysicalRect,
    peek: bool,
    visible_width: i64,
    rest_margin: i64,
    top_margin: i64,
    bottom_margin: i64,
) -> (i32, i32, MascotDockSide) {
    let work_left = work_area.x as int;
    let work_right = work_left + work_area.width;
    let side = nearest_side(x, width, work_area);
    let target_x = match side {
        MascotDockSide::Left => if peek { work_left - width + visible_width } else { work_left + rest_margin },
        MascotDockSide::Right => if peek { work_right - visible_width } else { work_right - width - rest_margin },
    };
    let min_y = work_area.y + top_margin;
    let max_y = work_area.y + work_area.height - height - bottom_margin;
    let target_y = if max_y >= min_y { clamped(y as int, min_y, max_y) } else { min_y };
    (to_coordinate(target_x), to_coordinate(target_y), side)
}

pub fn mascot_dock_physical_target(
    x: i32,
    y: i32,
    width: u32,
    height: u32,
    work_area: PhysicalRect,
    peek: bool,
    visible_width: i64,
    rest_margin: i64,
    top_margin: i64,
    bottom_margin: i64,
) -> (target: (i32, i32, MascotDockSide))
    ensures
        target == dock_target(x, y, width, height, work_area, peek, visible_width, rest_margin, top_margin, bottom_margin),
{
    let visible_width = visible_width as i128;
    let rest_margin = rest_margin as i128;
    let top_margin = top_margin as i128;
    let bottom_margin = bottom_margin as i128;
    let work_left = work_area.x as i128;
    let work_top = work_area.y as i128;
    let work_right = work_left + work_area.width as i128;
    let work_bottom = work_top + work_area.height as i128;
    let window_width = width as i128;
    let window_height = height as i128;
    let window_center = x as i128 + window_width / 2;
    let work_center = work_left + work_area.width as i128 / 2;
    let side = if window_center <= work_center {
        MascotDockSide::Left
    } else {
        MascotDockSide::Right
    };
    let target_x = match (side, peek) {
        (MascotDockSide::Left, true) => work_left - window_width + visible_width,
        (MascotDockSide::Left, false) => work_left + rest_margin,
        (MascotDockSide::Right, true) => work_right - visible_width,
        (MascotDockSide::Right, false) => work_right - window_width - rest_margin,
    };
    let min_y = work_top + top_margin;
    let max_y = work_bottom - window_height - bottom_margin;
    let target_y = if max_y >= min_y {
        clamp(y as i128, min_y, max_y)
    } else {
        min_y
    };
    (to_coordinate_exec(target_x), to_coordinate_exec(target_y), side)
}

// ---------------------------------------------------------------------------
// Context menu.
// ---------------------------------------------------------------------------

/// Whether the context menu opens above or below the avatar.
#[derive(Clone, Copy, Debug, PartialEq, Eq, Structural)]
pub enum MascotContextMenuPlacement {
    Above,
    Below,
}

/// Placement of the context menu window (`width` x `height`, with
/// transparent gutters of `visible_top` above and `visible_bottom` below its
/// visible part) centered over the avatar: above it when the visible tail
/// keeps `gap` from the avatar and the window stays `margin` inside the work
/// area, below it otherwise.
pub open spec fn context_menu_geometry(
    avatar: PhysicalRect,
    work_area: PhysicalRect,
    width: i64,
    height: i64,
    margin: i64,
    gap: i64,
    visible_bottom: i64,
    visible_top: i64,
) -> (PhysicalRect, MascotContextMenuPlacement) {
    let w = larger(width as int, 1);
    let h = larger(height as int, 1);
    let margin = larger(margin as int, 0);
    let gap = larger(gap as int, 0);
    let visible_bottom = larger(visible_bottom as int, 0);
    let visible_top = larger(visible_top as int, 0);
    let work_left = work_area.x as int;
    let work_top = work_area.y as int;
    let work_right = work_left + work_area.width;
    let work_bottom = work_top + work_area.height;
    let avatar_left = avatar.x as int;
    let avatar_top = avatar.y as int;
    let avatar_right = avatar_left + avatar.width;
    let avatar_bottom = avatar_top + avatar.height;
    let min_x = work_left + margin;
    let max_x = work_right - w - margin;
    let desired_x = half_rounded(avatar_left + avatar_right - w);
    let x = if max_x >= min_x { clamped(desired_x, min_x, max_x) } else { work_left + half_toward_zero(work_area.width - w) };
    let above_y = avatar_top - gap - visible_bottom;
    let below_y = avatar_bottom + gap - visible_top;
    let min_y = work_top + margin;
    let max_y = work_bottom - h - margin;
    let (y, placement) = if above_y >= min_y {
        (above_y, MascotContextMenuPlacement::Above)
    } else {
        (
            if max_y >= min_y { clamped(below_y, min_y, max_y) } else { work_top + half_toward_zero(work_area.height - h) },
            MascotContextMenuPlacement::Below,
        )
    };
    (
        PhysicalRect {
            x: to_coordinate(x),
            y: to_coordinate(y),
            width: smaller(w, u32::MAX as int) as u32,
            height: smaller(h, u32::MAX as int) as u32,
        },
        placement,
    )
}

pub fn mascot_context_menu_physical_geometry(
    avatar: PhysicalRect,
    work_area: PhysicalRect,
    width: i64,
    height: i64,
    margin: i64,
    gap: i64,
    visible_bottom: i64,
    visible_top: i64,
) -> (menu: (PhysicalRect, MascotContextMenuPlacement))
    ensures
        menu == context_menu_geometry(avatar, work_area, width, height, margin, gap, visible_bottom, visible_top),
{
    let width = width as i128;
    let height = height as i128;
    let margin = margin as i128;
    let gap = gap as i128;
    let visible_bottom = visible_bottom as i128;
    let visible_top = visible_top as i128;
    let w = max_of(width, 1);
    let h = max_of(height, 1);
    let margin = max_of(margin, 0);
    let gap = max_of(gap, 0);
    let visible_bottom = max_of(visible_bottom, 0);
    let visible_top = max_of(visible_top, 0);
    let work_left = work_area.x as i128;
    let work_top = work_area.y as i128;
    let work_right = work_left + work_area.width as i128;
    let work_bottom = work_top + work_area.height as i128;
    let avatar_left = avatar.x as i128;
    let avatar_top = avatar.y as i128;
    let avatar_right = avatar_left + avatar.width as i128;
    let avatar_bottom = avatar_top + avatar.height as i128;
    let min_x = work_left + margin;
    let max_x = work_right - w - margin;
    let desired_x = half_rounded_exec(avatar_left + avatar_right - w);
    let x = if max_x >= min_x {
        clamp(desired_x, min_x, max_x)
    } else {
        work_left + half_toward_zero_exec(work_area.width as i128 - w)
    };
    let above_y = avatar_top - gap - visible_bottom;
    let below_y = avatar_bottom + gap - visible_top;
    let min_y = work_top + margin;
    let max_y = work_bottom - h - margin;
    let (y, placement) = if above_y >= min_y {
        (above_y, MascotContextMenuPlacement::Above)
    } else {
        (
            if max_y >= min_y {
                clamp(below_y, min_y, max_y)
            } else {
                work_top + half_toward_zero_exec(work_area.height as i128 - h)
            },
            MascotContextMenuPlacement::Below,
        )
    };
    (
        PhysicalRect {
            x: to_coordinate_exec(x),
            y: to_coordinate_exec(y),
            width: min_of(w, u32::MAX as i128) as u32,
            height: min_of(h, u32::MAX as i128) as u32,
        },
        placement,
    )
}

} // verus!
