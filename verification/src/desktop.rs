//! Small pieces of desktop interaction state: the todo panel's activity,
//! cancellation tokens of the native motion/drag/hover monitors, the pressed
//! bit of a native key state, dock sides and physical rectangles.

use vstd::prelude::*;

verus! {

// ---------------------------------------------------------------------------
// Panel activity.
// ---------------------------------------------------------------------------

/// Whether the todo panel holds text and whether it has focus.
pub struct PanelActivityState {
    pub has_text: bool,
    pub focused: bool,
}

impl Default for PanelActivityState {
    fn default() -> (state: Self)
        ensures
            !state.has_text,
            !state.focused,
    {
        PanelActivityState { has_text: false, focused: false }
    }
}

impl PanelActivityState {
    pub fn set(&mut self, has_text: bool, focused: bool)
        ensures
            final(self).has_text == has_text,
            final(self).focused == focused,
    {
        self.has_text = has_text;
        self.focused = focused;
    }

    /// Whether the panel holds text that an outside focus change must preserve.
    pub fn has_content(&self) -> (content: bool)
        ensures
            content == self.has_text,
    {
        self.has_text
    }

    /// Whether the user is working in the panel, which blocks idle hiding.
    pub fn is_engaged(&self) -> (engaged: bool)
        ensures
            engaged == (self.has_text || self.focused),
    {
        self.has_text || self.focused
    }
}

// ---------------------------------------------------------------------------
// Cancellation tokens. Each start or cancel issues a new token; a running
// monitor stops as soon as the current token is no longer the one it was
// started with. The stored counter wraps.
// ---------------------------------------------------------------------------

pub open spec fn next_token(t: u64) -> u64 {
    if t == u64::MAX { 0 } else { (t + 1) as u64 }
}

/// Token of the dock animation currently allowed to move the mascot.
pub struct MascotDockMotion {
    pub token: u64,
}

impl Default for MascotDockMotion {
    fn default() -> (motion: Self)
        ensures
            motion.token == 0,
    {
        MascotDockMotion { token: 0 }
    }
}

impl MascotDockMotion {
    /// Stops any running animation and returns the token of the next one.
    pub fn cancel(&mut self) -> (token: u64)
        requires
            old(self).token < u64::MAX,
        ensures
            token == old(self).token + 1,
            final(self).token == token,
    {
        self.token = self.token.wrapping_add(1);
        self.token
    }

    pub fn is_current(&self, token: u64) -> (current: bool)
        ensures
            current == (self.token == token),
    {
        self.token == token
    }
}

/// Token of the native drag monitor currently following the mascot.
pub struct MascotDragMonitor {
    pub token: u64,
}

impl Default for MascotDragMonitor {
    fn default() -> (monitor: Self)
        ensures
            monitor.token == 0,
    {
        MascotDragMonitor { token: 0 }
    }
}

impl MascotDragMonitor {
    /// Starts a new drag, superseding any earlier one, and returns its token.
    pub fn start(&mut self) -> (token: u64)
        requires
            old(self).token < u64::MAX,
        ensures
            token == old(self).token + 1,
            final(self).token == token,
    {
        self.token = self.token.wrapping_add(1);
        self.token
    }

    pub fn is_current(&self, token: u64) -> (current: bool)
        ensures
            current == (self.token == token),
    {
        self.token == token
    }
}

/// Token of the hover monitor of a peeked mascot.
pub struct MascotPeekHoverMonitor {
    pub token: u64,
}

impl Default for MascotPeekHoverMonitor {
    fn default() -> (monitor: Self)
        ensures
            monitor.token == 0,
    {
        MascotPeekHoverMonitor { token: 0 }
    }
}

impl MascotPeekHoverMonitor {
    /// Starts a new hover monitor and returns its token.
    pub fn start(&mut self) -> (token: u64)
        requires
            old(self).token < u64::MAX,
        ensures
            token == old(self).token + 1,
            final(self).token == token,
    {
        self.token = self.token.wrapping_add(1);
        self.token
    }

    /// Stops the running hover monitor (and any interactivity recovery tied to it).
    pub fn cancel(&mut self)
        ensures
            final(self).token == next_token(old(self).token),
    {
        self.token = self.token.wrapping_add(1);
    }

    pub fn is_current(&self, token: u64) -> (current: bool)
        ensures
            current == (self.token == token),
    {
        self.token == token
    }

    /// One poll of the hover monitor started with `token`. `armed` tells
    /// whether the peek animation has had time to finish; `peeked` holds the
    /// avatar and the work area of its monitor while the mascot is shown,
    /// still partly off screen and readable; `cursor` is the cursor position,
    /// if it could be read. A reveal cancels this monitor.
    pub fn poll(
        &mut self,
        token: u64,
        armed: bool,
        peeked: Option<(PhysicalRect, PhysicalRect)>,
        cursor: Option<(i32, i32)>,
    ) -> (action: PeekHoverAction)
        ensures
            action == peek_hover_action(old(self).token == token, armed, peeked, cursor),
            final(self).token == if action == PeekHoverAction::Reveal {
                next_token(old(self).token)
            } else {
                old(self).token
            },
    {
        if self.token != token {
            return PeekHoverAction::Stop;
        }
        if !armed {
            return PeekHoverAction::Wait;
        }
        match peeked {
            None => PeekHoverAction::Stop,
            Some((avatar, work_area)) => match (physical_rect_intersection(avatar, work_area), cursor) {
                (Some(visible), Some((x, y))) => {
                    if physical_rect_contains(visible, x, y) {
                        self.cancel();
                        PeekHoverAction::Reveal
                    } else {
                        PeekHoverAction::Wait
                    }
                },
                _ => PeekHoverAction::Wait,
            },
        }
    }
}

/// What the hover monitor of a peeked mascot does after one poll.
#[derive(Clone, Copy, Debug, PartialEq, Eq, Structural)]
pub enum PeekHoverAction {
    /// The monitor is superseded or the mascot no longer peeks: stop.
    Stop,
    /// Poll again later.
    Wait,
    /// The cursor is over the avatar's visible part: reveal the mascot.
    Reveal,
}

pub open spec fn peek_hover_action(
    current: bool,
    armed: bool,
    peeked: Option<(PhysicalRect, PhysicalRect)>,
    cursor: Option<(i32, i32)>,
) -> PeekHoverAction {
    if !current {
        PeekHoverAction::Stop
    } else if !armed {
        PeekHoverAction::Wait
    } else {
        match peeked {
            None => PeekHoverAction::Stop,
            Some((avatar, work_area)) => match (rect_overlap(avatar, work_area), cursor) {
                (Some(visible), Some((x, y))) => if rect_holds(visible, x as int, y as int) {
                    PeekHoverAction::Reveal
                } else {
                    PeekHoverAction::Wait
                },
                _ => PeekHoverAction::Wait,
            },
        }
    }
}

/// A hover monitor that revealed the mascot never acts again: every later
/// poll with its token stops.
pub proof fn law_revealed_hover_monitor_stops(
    t: u64,
    token: u64,
    armed: bool,
    peeked: Option<(PhysicalRect, PhysicalRect)>,
    cursor: Option<(i32, i32)>,
    later_armed: bool,
    later_peeked: Option<(PhysicalRect, PhysicalRect)>,
    later_cursor: Option<(i32, i32)>,
)
    requires
        peek_hover_action(t == token, armed, peeked, cursor) == PeekHoverAction::Reveal,
    ensures
        peek_hover_action(next_token(t) == token, later_armed, later_peeked, later_cursor) == PeekHoverAction::Stop,
{
}

// ---------------------------------------------------------------------------
// Collapsed mascot position staged while a notification card is expanded.
// ---------------------------------------------------------------------------

/// A collapsed mascot position, with the staging that saved it.
#[derive(Clone, Copy, Debug, PartialEq, Eq, Structural)]
pub struct StagedMascotPosition {
    pub generation: u64,
    pub x: i32,
    pub y: i32,
}

/// The position to restore the collapsed mascot to, and the number of the
/// latest staging.
pub struct MascotNotificationLayoutState {
    pub generation: u64,
    pub staged: Option<StagedMascotPosition>,
}

/// The staged position that a restore (for any staging when `generation`
/// is `None`, for that staging only otherwise) moves the mascot to.
pub open spec fn restorable(staged: Option<StagedMascotPosition>, generation: Option<u64>) -> Option<StagedMascotPosition> {
    match staged {
        Some(s) => match generation {
            Some(g) => if s.generation == g { Some(s) } else { None },
            None => Some(s),
        },
        None => None,
    }
}

impl Default for MascotNotificationLayoutState {
    fn default() -> (state: Self)
        ensures
            state.generation == 0,
            state.staged is None,
    {
        MascotNotificationLayoutState { generation: 0, staged: None }
    }
}

impl MascotNotificationLayoutState {
    /// Saves the collapsed position (`x`, `y`) under a new staging number,
    /// replacing any earlier one, and returns that number.
    pub fn stage_collapsed_position(&mut self, x: i32, y: i32) -> (generation: u64)
        requires
            old(self).generation < u64::MAX,
        ensures
            generation == old(self).generation + 1,
            final(self).generation == generation,
            final(self).staged == Some(StagedMascotPosition { generation, x, y }),
    {
        self.generation = self.generation + 1;
        self.staged = Some(StagedMascotPosition { generation: self.generation, x, y });
        self.generation
    }

    /// The staged position a restore moves the mascot to, if any.
    pub fn restorable(&self, generation: Option<u64>) -> (staged: Option<StagedMascotPosition>)
        ensures
            staged == restorable(self.staged, generation),
    {
        match self.staged {
            Some(s) => match generation {
                Some(g) => if s.generation == g {
                    Some(s)
                } else {
                    None
                },
                None => Some(s),
            },
            None => None,
        }
    }

    /// Forgets the staged position once the mascot has been moved back to it.
    pub fn clear_staged(&mut self)
        ensures
            final(self).generation == old(self).generation,
            final(self).staged is None,
    {
        self.staged = None;
    }
}

/// Staging a new collapsed position makes every recovery tied to an earlier
/// staging a no-op, and only the new staging can restore it.
pub proof fn law_new_staging_supersedes_older_recoveries(
    before: u64,
    x: i32,
    y: i32,
    older: u64,
)
    requires
        before < u64::MAX,
        older <= before,
    ensures
        ({
            let staged = Some(StagedMascotPosition { generation: (before + 1) as u64, x, y });
            &&& restorable(staged, Some(older)) is None
            &&& restorable(staged, Some((before + 1) as u64)) == staged
            &&& restorable(staged, None) == staged
        }),
{
}

// ---------------------------------------------------------------------------
// Native key state.
// ---------------------------------------------------------------------------

/// Whether a key state reported by the native input API has its high-order
/// ("currently pressed") bit set.
pub fn async_key_state_is_pressed(state: i16) -> (pressed: bool)
    ensures
        pressed == (state < 0),
{
    let bits = state as u16;
    assert((bits & 0x8000u16 != 0) == (state < 0)) by (bit_vector)
        requires
            bits == state as u16,
    ;
    bits & 0x8000u16 != 0
}

// ---------------------------------------------------------------------------
// Dock sides.
// ---------------------------------------------------------------------------

#[derive(Clone, Copy, Debug, PartialEq, Eq, Structural)]
pub enum MascotDockSide {
    Left,
    Right,
}

impl MascotDockSide {
    pub fn as_str(self) -> (name: &'static str)
        ensures
            name@ == (match self {
                MascotDockSide::Left => "left"@,
                MascotDockSide::Right => "right"@,
            }),
    {
        match self {
            MascotDockSide::Left => "left",
            MascotDockSide::Right => "right",
        }
    }
}

// ---------------------------------------------------------------------------
// Physical rectangles.
// ---------------------------------------------------------------------------

/// A rectangle in physical screen pixels.
#[derive(Clone, Copy, Debug, PartialEq, Eq, Structural)]
pub struct PhysicalRect {
    pub x: i32,
    pub y: i32,
    pub width: u32,
    pub height: u32,
}

pub open spec fn right_edge(r: PhysicalRect) -> int {
    r.x + r.width
}

pub open spec fn bottom_edge(r: PhysicalRect) -> int {
    r.y + r.height
}

pub open spec fn max_int(a: int, b: int) -> int {
    if a >= b { a } else { b }
}

pub open spec fn min_int(a: int, b: int) -> int {
    if a <= b { a } else { b }
}

/// The overlap of two rectangles, if they overlap in a positive area.
pub open spec fn rect_overlap(a: PhysicalRect, b: PhysicalRect) -> Option<PhysicalRect> {
    let left = max_int(a.x as int, b.x as int);
    let top = max_int(a.y as int, b.y as int);
    let right = min_int(right_edge(a), right_edge(b));
    let bottom = min_int(bottom_edge(a), bottom_edge(b));
    if right <= left || bottom <= top {
        None
    } else {
        Some(PhysicalRect {
            x: left as i32,
            y: top as i32,
            width: min_int(right - left, u32::MAX as int) as u32,
            height: min_int(bottom - top, u32::MAX as int) as u32,
        })
    }
}

pub fn physical_rect_intersection(first: PhysicalRect, second: PhysicalRect) -> (overlap: Option<PhysicalRect>)
    ensures
        overlap == rect_overlap(first, second),
{
    let left: i64 = if first.x >= second.x { first.x as i64 } else { second.x as i64 };
    let top: i64 = if first.y >= second.y { first.y as i64 } else { second.y as i64 };
    let first_right: i64 = first.x as i64 + first.width as i64;
    let second_right: i64 = second.x as i64 + second.width as i64;
    let right: i64 = if first_right <= second_right { first_right } else { second_right };
    let first_bottom: i64 = first.y as i64 + first.height as i64;
    let second_bottom: i64 = second.y as i64 + second.height as i64;
    let bottom: i64 = if first_bottom <= second_bottom { first_bottom } else { second_bottom };
    if right <= left || bottom <= top {
        return None;
    }
    let width: i64 = if right - left <= u32::MAX as i64 { right - left } else { u32::MAX as i64 };
    let height: i64 = if bottom - top <= u32::MAX as i64 { bottom - top } else { u32::MAX as i64 };
    Some(PhysicalRect { x: left as i32, y: top as i32, width: width as u32, height: height as u32 })
}

/// Whether pixel `(x, y)` lies inside `rect` (right and bottom edges excluded).
pub open spec fn rect_holds(rect: PhysicalRect, x: int, y: int) -> bool {
    rect.x <= x < right_edge(rect) && rect.y <= y < bottom_edge(rect)
}

pub fn physical_rect_contains(rect: PhysicalRect, x: i32, y: i32) -> (inside: bool)
    ensures
        inside == rect_holds(rect, x as int, y as int),
{
    let x = x as i64;
    let y = y as i64;
    x >= rect.x as i64 && x < rect.x as i64 + rect.width as i64 && y >= rect.y as i64 && y < rect.y as i64
        + rect.height as i64
}

/// A pixel lies in the overlap of two rectangles exactly when it lies in both.
pub proof fn law_overlap_holds_exactly_the_common_pixels(a: PhysicalRect, b: PhysicalRect, x: int, y: int)
    requires
        i32::MIN <= x <= i32::MAX,
        i32::MIN <= y <= i32::MAX,
    ensures
        (rect_holds(a, x, y) && rect_holds(b, x, y)) <==> (rect_overlap(a, b) is Some && rect_holds(
            rect_overlap(a, b)->0,
            x,
            y,
        )),
{
}

} // verus!
