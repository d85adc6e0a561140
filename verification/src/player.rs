//! Moving the player: the arrow keys, then the edges of the screen.

use vstd::prelude::*;
use crate::shape::Shape;
use crate::units::{distance, fits, travel};

verus! {

/// The four arrow keys as polled once per frame; any of them may be held
/// together.
#[derive(Clone, Copy, Debug, PartialEq, Eq, Structural)]
pub struct InputFlags {
    pub up: bool,
    pub down: bool,
    pub left: bool,
    pub right: bool,
}

impl InputFlags {
    /// Whether no key is held.
    pub open spec fn idle(self) -> bool {
        !self.up && !self.down && !self.left && !self.right
    }

    /// The input with no key held.
    pub fn none() -> (input: Self)
        ensures
            input.idle(),
            input == (InputFlags { up: false, down: false, left: false, right: false }),
    {
        InputFlags { up: false, down: false, left: false, right: false }
    }
}

/// Displacement along one axis of a shape that covers `d` units: `d` when
/// only the forward key is held, `-d` when only the backward key is held, and
/// nothing when both or neither are, since opposite moves cancel.
pub open spec fn shift(backward: bool, forward: bool, d: int) -> int {
    if forward && !backward {
        d
    } else if backward && !forward {
        -d
    } else {
        0
    }
}

/// Horizontal position after the input has acted for `dt` ticks.
pub open spec fn moved_x(p: Shape, input: InputFlags, dt: u32) -> int {
    p.x + shift(input.left, input.right, travel(p.speed, dt))
}

/// Vertical position after the input has acted for `dt` ticks.
pub open spec fn moved_y(p: Shape, input: InputFlags, dt: u32) -> int {
    p.y + shift(input.up, input.down, travel(p.speed, dt))
}

/// Whether both coordinates of the moved player can be stored.
pub open spec fn can_move(p: Shape, input: InputFlags, dt: u32) -> bool {
    fits(moved_x(p, input, dt)) && fits(moved_y(p, input, dt))
}

/// The player after the input has acted for `dt` ticks. Each axis is moved on
/// its own, so a diagonal move covers the full distance on both axes.
pub open spec fn moved(p: Shape, input: InputFlags, dt: u32) -> Shape {
    Shape { x: moved_x(p, input, dt) as i32, y: moved_y(p, input, dt) as i32, ..p }
}

/// `v` brought into `[low, high]`: `low` when `v` is under it, else `high`
/// when `v` is over it, else `v`.
pub open spec fn clamp(v: int, low: int, high: int) -> int {
    if v < low {
        low
    } else if v > high {
        high
    } else {
        v
    }
}

/// Whether the whole disc lies on a screen of the given dimensions.
pub open spec fn in_bounds(p: Shape, screen_width: i32, screen_height: i32) -> bool {
    &&& p.half() <= p.x <= screen_width - p.half()
    &&& p.half() <= p.y <= screen_height - p.half()
}

/// Whether the disc is no wider and no higher than the screen.
pub open spec fn fits_screen(p: Shape, screen_width: i32, screen_height: i32) -> bool {
    p.size <= screen_width && p.size <= screen_height
}

/// The player with each coordinate brought into the range that keeps the
/// disc on the screen.
pub open spec fn clamped(p: Shape, screen_width: i32, screen_height: i32) -> Shape {
    Shape {
        x: clamp(p.x as int, p.half(), screen_width - p.half()) as i32,
        y: clamp(p.y as int, p.half(), screen_height - p.half()) as i32,
        ..p
    }
}

/// Coordinate `v` moved by `d` units forward, backward, or not at all.
fn shifted(v: i32, backward: bool, forward: bool, d: i64) -> (r: i32)
    requires
        -0x7fff_ffff_8000_0000 <= d <= 0x7fff_ffff_8000_0000,
        fits(v + shift(backward, forward, d as int)),
    ensures
        r == v + shift(backward, forward, d as int),
{
    let mut r: i64 = v as i64;
    if forward && !backward {
        r = r + d;
    } else if backward && !forward {
        r = r - d;
    }
    r as i32
}

/// Tells whether `apply_player_input` can store where the player goes.
pub fn movable(player: &Shape, input: InputFlags, dt: u32) -> (ok: bool)
    ensures
        ok == can_move(*player, input, dt),
{
    let d: i64 = distance(player.speed, dt);
    let dx: i64 = if input.right && !input.left {
        d
    } else if input.left && !input.right {
        -d
    } else {
        0
    };
    let dy: i64 = if input.down && !input.up {
        d
    } else if input.up && !input.down {
        -d
    } else {
        0
    };
    let nx: i64 = player.x as i64 + dx;
    let ny: i64 = player.y as i64 + dy;
    i32::MIN as i64 <= nx && nx <= i32::MAX as i64 && i32::MIN as i64 <= ny && ny <= i32::MAX as i64
}

/// Moves the player by what the held keys ask for during `dt` ticks: right and
/// down add `speed * dt` to `x` and `y`, left and up subtract it. With no key
/// held the player stays as it is.
pub fn apply_player_input(player: &mut Shape, input: InputFlags, dt: u32)
    requires
        can_move(*old(player), input, dt),
    ensures
        *final(player) == moved(*old(player), input, dt),
        input.idle() ==> *final(player) == *old(player),
{
    let d: i64 = distance(player.speed, dt);
    player.x = shifted(player.x, input.left, input.right, d);
    player.y = shifted(player.y, input.up, input.down, d);
}

/// Brings the player back onto the screen: `x` into
/// `[size / 2, screen_width - size / 2]` and `y` into
/// `[size / 2, screen_height - size / 2]`.
pub fn clamp_to_bounds(player: &mut Shape, screen_width: i32, screen_height: i32)
    requires
        old(player).wf(),
        fits_screen(*old(player), screen_width, screen_height),
    ensures
        *final(player) == clamped(*old(player), screen_width, screen_height),
        in_bounds(*final(player), screen_width, screen_height),
        in_bounds(*old(player), screen_width, screen_height) ==> *final(player) == *old(player),
{
    let half: i32 = player.half_size();
    player.x = clamp_coordinate(player.x, half, screen_width - half);
    player.y = clamp_coordinate(player.y, half, screen_height - half);
}

/// Brings one coordinate into `[low, high]`.
fn clamp_coordinate(v: i32, low: i32, high: i32) -> (r: i32)
    ensures
        r == clamp(v as int, low as int, high as int),
{
    if v < low {
        low
    } else if v > high {
        high
    } else {
        v
    }
}

} // verus!
