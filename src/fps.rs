use vstd::prelude::*;
use crate::timer::span;

verus! {

/// The smallest whole number of milliseconds `d` with `d * max >= 1000`.
proof fn lemma_period(d: int, max: int)
    requires
        max > 0,
        d >= 0,
    ensures
        (d >= (1000 + max - 1) / max) == (d * max >= 1000),
{
    let p = (1000 + max - 1) / max;
    let q = (1000 + max - 1) % max;
    assert(p * max + q == 1000 + max - 1 && 0 <= q < max) by (nonlinear_arith)
        requires
            max > 0,
            p == (1000 + max - 1) / max,
            q == (1000 + max - 1) % max,
    ;
    assert((p - 1) * max == p * max - max) by (nonlinear_arith);
    assert(p * max >= 1000 && (p - 1) * max < 1000);
    if d >= p {
        assert(d * max >= p * max) by (nonlinear_arith)
            requires
                d >= p,
                max > 0,
        ;
    } else {
        assert(d * max <= (p - 1) * max) by (nonlinear_arith)
            requires
                d < p,
                max > 0,
        ;
    }
}

/// Throttles frames to at most `max` per second of clock time: two accepted
/// frames lie at least `1000 / max` milliseconds apart.
pub struct FPS {
    pub max: u32,
    /// Clock reading of the last accepted frame.
    pub instant: u64,
    /// Frames accepted since `second_timer`.
    pub counter: u32,
    /// Start of the current one-second counting window.
    pub second_timer: u64,
}

impl FPS {
    pub open spec fn wf(self) -> bool {
        self.max > 0
    }

    /// Whether a frame at `now` lies at least `1000 / max` milliseconds after
    /// the last accepted one.
    pub open spec fn accepts(self, now: u64) -> bool {
        span(now, self.instant) * self.max >= 1000
    }

    /// The limiter after accepting a frame at `now`: the frame is counted,
    /// and a new counting window begins once a second has passed.
    pub open spec fn accepted(self, now: u64) -> FPS {
        let counter: u32 = if self.counter == u32::MAX {
            self.counter
        } else {
            (self.counter + 1) as u32
        };
        if span(now, self.second_timer) >= 1000 {
            FPS { max: self.max, instant: now, counter: 0, second_timer: now }
        } else {
            FPS { max: self.max, instant: now, counter, second_timer: self.second_timer }
        }
    }

    pub fn new(max: u32, now: u64) -> (r: FPS)
        requires
            max > 0,
        ensures
            r.wf(),
            r.max == max,
            r.instant == now,
            r.counter == 0,
            r.second_timer == now,
    {
        FPS { max, instant: now, counter: 0, second_timer: now }
    }

    /// Accepts the frame at `now` when at least one frame period has passed
    /// since the last accepted frame, and then records `now` as that frame.
    pub fn update(&mut self, now: u64) -> (r: bool)
        requires
            old(self).wf(),
        ensures
            final(self).wf(),
            r == old(self).accepts(now),
            r ==> *final(self) == old(self).accepted(now),
            !r ==> *final(self) == *old(self),
    {
        let delta: u64 = if now >= self.instant {
            now - self.instant
        } else {
            0
        };
        let max: u64 = self.max as u64;
        proof {
            lemma_period(delta as int, max as int);
        }
        if delta < (1000 + max - 1) / max {
            false
        } else {
            self.counter = self.counter.saturating_add(1);
            self.instant = now;
            if now >= self.second_timer && now - self.second_timer >= 1000 {
                self.counter = 0;
                self.second_timer = now;
            }
            true
        }
    }
}

} // verus!
