//! The scrolling layers behind the playfield.

use vstd::prelude::*;
use crate::units::{
    travel, travelled, BACKGROUND_LOOPING_OFFSET, BACKGROUND_LOOPING_POINT,
    BACKGROUND_SCROLL_SPEED, GROUND_SCROLL_SPEED,
};

verus! {

/// The two kinds of scrolling layer.
#[derive(Clone, Copy, Debug, PartialEq, Eq, Structural)]
pub enum BackgroundType {
    /// The far, slower layer.
    Background,
    /// The ground strip, which the bird can hit.
    Ground,
}

/// A scrolling layer and its place on screen.
#[derive(Clone, Copy, Debug, PartialEq, Eq, Structural)]
pub struct Background {
    /// Which layer this is.
    pub b_type: BackgroundType,
    /// How far the layer has scrolled within its current period.
    pub scroll_pos: i64,
    /// Horizontal position of the layer's centre.
    pub x: i64,
    /// Vertical position of the layer's centre.
    pub y: i64,
}

/// The speed at which a layer of kind `b_type` scrolls, in pixels per second.
pub open spec fn scroll_speed(b_type: BackgroundType) -> int {
    match b_type {
        BackgroundType::Background => BACKGROUND_SCROLL_SPEED as int,
        BackgroundType::Ground => GROUND_SCROLL_SPEED as int,
    }
}

/// The layer `b` after `dt` microseconds: its offset advanced and wrapped
/// into one period, its screen position following the offset.
pub open spec fn scrolled(b: Background, dt: u32) -> Background {
    let pos = (b.scroll_pos + travel(scroll_speed(b.b_type), dt)) % (BACKGROUND_LOOPING_POINT as int);
    Background {
        b_type: b.b_type,
        scroll_pos: pos as i64,
        x: (BACKGROUND_LOOPING_OFFSET - pos) as i64,
        y: b.y,
    }
}

impl Background {
    /// A layer of kind `b_type` that has not scrolled yet, centred at height `y`.
    pub fn new(b_type: BackgroundType, y: i64) -> (b: Background)
        ensures
            b == (Background { b_type, scroll_pos: 0, x: BACKGROUND_LOOPING_OFFSET, y }),
            b.wf(),
    {
        Background { b_type, scroll_pos: 0, x: BACKGROUND_LOOPING_OFFSET, y }
    }

    /// The scroll offset lies within one period.
    pub open spec fn wf(&self) -> bool {
        0 <= self.scroll_pos < BACKGROUND_LOOPING_POINT
    }

    /// Advances the layer by `dt` microseconds. Whatever the offset was, it
    /// lies within one period afterwards.
    pub fn advance(&mut self, dt: u32)
        ensures
            *final(self) == scrolled(*old(self), dt),
            final(self).wf(),
            final(self).x == BACKGROUND_LOOPING_OFFSET - final(self).scroll_pos,
    {
        let speed: i64 = match self.b_type {
            BackgroundType::Background => BACKGROUND_SCROLL_SPEED,
            BackgroundType::Ground => GROUND_SCROLL_SPEED,
        };
        let step: i64 = travelled(speed, dt);
        let period: i128 = BACKGROUND_LOOPING_POINT as i128;
        let total: i128 = self.scroll_pos as i128 + step as i128;
        let pos: i128 = if total >= 0 {
            total % period
        } else {
            let back: i128 = (-total) % period;
            if back == 0 {
                0
            } else {
                period - back
            }
        };
        proof {
            lemma_wrap(total as int, period as int, pos as int);
        }
        self.scroll_pos = pos as i64;
        self.x = BACKGROUND_LOOPING_OFFSET - (pos as i64);
    }
}

/// `pos` is `total` wrapped into `[0, period)` when it was computed from the
/// remainder of `total`'s magnitude.
proof fn lemma_wrap(total: int, period: int, pos: int)
    requires
        period > 0,
        total >= 0 ==> pos == total % period,
        total < 0 ==> pos == (if (-total) % period == 0 {
            0
        } else {
            period - (-total) % period
        }),
    ensures
        pos == total % period,
        0 <= pos < period,
{
    if total < 0 {
        let q = (-total) / period;
        let r = (-total) % period;
        assert(-total == q * period + r) by (nonlinear_arith)
            requires
                q == (-total) / period,
                r == (-total) % period,
                period > 0,
        ;
        if r == 0 {
            assert(total == (-q) * period + 0) by (nonlinear_arith)
                requires
                    -total == q * period + r,
                    r == 0,
            ;
            vstd::arithmetic::div_mod::lemma_fundamental_div_mod_converse(total, period, -q, 0);
        } else {
            assert(total == (-q - 1) * period + (period - r)) by (nonlinear_arith)
                requires
                    -total == q * period + r,
            ;
            vstd::arithmetic::div_mod::lemma_fundamental_div_mod_converse(
                total,
                period,
                -q - 1,
                period - r,
            );
        }
    }
}

/// Every layer of `layers` after `dt` microseconds.
pub open spec fn all_scrolled(layers: Seq<Background>, dt: u32) -> Seq<Background> {
    layers.map_values(|b: Background| scrolled(b, dt))
}

/// The frame rule of the scrolling layers.
pub struct BackgroundSystem;

impl BackgroundSystem {
    /// Advances every layer by `dt` microseconds.
    pub fn run(backgrounds: &mut Vec<Background>, dt: u32)
        ensures
            final(backgrounds)@ == all_scrolled(old(backgrounds)@, dt),
            forall|i: int| 0 <= i < final(backgrounds)@.len() ==> (#[trigger] final(backgrounds)@[i]).wf(),
    {
        let n = backgrounds.len();
        let mut i: usize = 0;
        while i < n
            invariant
                i <= n,
                backgrounds@.len() == n,
                old(backgrounds)@.len() == n,
                forall|j: int| 0 <= j < i ==> #[trigger] backgrounds@[j] == scrolled(old(backgrounds)@[j], dt),
                forall|j: int| i <= j < n ==> #[trigger] backgrounds@[j] == old(backgrounds)@[j],
            decreases n - i,
        {
            let mut b = backgrounds[i];
            b.advance(dt);
            backgrounds.set(i, b);
            i += 1;
        }
        assert(backgrounds@ =~= all_scrolled(old(backgrounds)@, dt));
    }
}

} // verus!
