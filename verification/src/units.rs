//! Units, playfield constants and clamped arithmetic.

use vstd::prelude::*;

verus! {

/// Length units in one pixel, and time units in one second.
pub const UNIT: i64 = 1_000_000;

/// Width of the playfield.
pub const VIRTUAL_WIDTH: i64 = 512_000_000;

/// Height of the playfield.
pub const VIRTUAL_HEIGHT: i64 = 288_000_000;

/// Height of the ground strip.
pub const GROUND_HEIGHT: i64 = 12_000_000;

/// Width of the ground strip.
pub const GROUND_WIDTH: i64 = 1_100_000_000;

/// Scroll speed of the far background, in pixels per second.
pub const BACKGROUND_SCROLL_SPEED: i64 = 30;

/// Scroll speed of the ground, in pixels per second.
pub const GROUND_SCROLL_SPEED: i64 = 61;

/// Period after which a scrolling layer repeats.
pub const BACKGROUND_LOOPING_POINT: i64 = 413_000_000;

/// Screen position of a scrolling layer at scroll offset zero.
pub const BACKGROUND_LOOPING_OFFSET: i64 = 290_000_000;

/// Change of the bird's per-frame displacement, in pixels per second.
pub const BIRD_GRAVITY: i64 = -26;

/// Width of the bird.
pub const BIRD_WIDTH: i64 = 38_000_000;

/// Height of the bird.
pub const BIRD_HEIGHT: i64 = 24_000_000;

/// Per-frame displacement of the bird right after a jump.
pub const BIRD_JUMP: i64 = 4_000_000;

/// Horizontal speed of the pipes, in pixels per second.
pub const PIPE_SCROLL: i64 = -60;

/// Width of a pipe.
pub const PIPE_WIDTH: i64 = 70_000_000;

/// Height of a pipe.
pub const PIPE_HEIGHT: i64 = 288_000_000;

/// Height of the opening between the two pipes of a pair.
pub const PIPE_GAP: i64 = 110_000_000;

/// The nearest value to `v` that an `i64` can hold.
pub open spec fn clamp(v: int) -> int {
    if v < i64::MIN {
        i64::MIN as int
    } else if v > i64::MAX {
        i64::MAX as int
    } else {
        v
    }
}

/// `a + b`, held to the range of `i64`.
pub fn add_clamped(a: i64, b: i64) -> (r: i64)
    ensures
        r == clamp(a + b),
{
    let sum: i128 = a as i128 + b as i128;
    if sum < i64::MIN as i128 {
        i64::MIN
    } else if sum > i64::MAX as i128 {
        i64::MAX
    } else {
        sum as i64
    }
}

/// The distance covered in `dt` microseconds at `speed` pixels per second.
pub open spec fn travel(speed: int, dt: u32) -> int {
    speed * dt
}

/// Computes [`travel`] for one of the game's fixed speeds.
pub(crate) fn travelled(speed: i64, dt: u32) -> (r: i64)
    requires
        -100 <= speed <= 100,
    ensures
        r == travel(speed as int, dt),
{
    assert(-100 * 0x1_0000_0000 <= speed * dt <= 100 * 0x1_0000_0000) by (nonlinear_arith)
        requires
            -100 <= speed <= 100,
            0 <= dt < 0x1_0000_0000,
    ;
    speed * (dt as i64)
}

} // verus!
