use vstd::prelude::*;

verus! {

/// `n / d` rounded to the nearest integer, halves rounded up.
pub open spec fn rounded_div(n: int, d: int) -> int
    recommends
        d > 0,
{
    n / d + if 2 * (n % d) >= d {
        1int
    } else {
        0int
    }
}

/// The frames-per-second figure of `frames` frames over `acc` timer ticks, at `frequency`
/// ticks per second, rounded to the nearest whole frame.
pub open spec fn fps_of(frames: int, frequency: int, acc: int) -> int {
    rounded_div(frames * frequency, acc)
}

/// Ticks of a monotonic timer between two readings; a reading that goes back counts as
/// no time at all.
pub open spec fn ticks_between(earlier: u64, later: u64) -> u64 {
    if later >= earlier {
        (later - earlier) as u64
    } else {
        0
    }
}

/// The frame rate that a tick of `c` at timer reading `now` reports: some exactly when
/// the frame rate is measured and the accumulated time reaches a second.
pub open spec fn ticked_fps(c: FpsCounter, now: u64) -> Option<u64> {
    let acc = c.acc_spec() + ticks_between(c.last_spec(), now);
    let frames = if c.frames_spec() == u64::MAX {
        u64::MAX as int
    } else {
        c.frames_spec() + 1
    };
    if c.counting_spec() && acc >= c.frequency_spec() {
        Some(fps_of(frames, c.frequency_spec() as int, acc) as u64)
    } else {
        None
    }
}

/// The clock `after` is the one that a tick of `before` at timer reading `now` leaves:
/// same frequency and counting flag, `now` as its last reading, and, when the frame rate
/// is measured, one more frame and the elapsed ticks accumulated until they reach a
/// second, at which point both start again from zero (and the frame rate taken then is
/// at most the frame count).
pub open spec fn ticked_state(before: FpsCounter, after: FpsCounter, now: u64) -> bool {
    let acc = before.acc_spec() + ticks_between(before.last_spec(), now);
    let frames = if before.frames_spec() == u64::MAX {
        u64::MAX as int
    } else {
        before.frames_spec() + 1
    };
    &&& after.last_spec() == now
    &&& after.frequency_spec() == before.frequency_spec()
    &&& after.counting_spec() == before.counting_spec()
    &&& after.acc_spec() < after.frequency_spec()
    &&& if !before.counting_spec() {
        after.frames_spec() == 0 && after.acc_spec() == 0
    } else if acc >= before.frequency_spec() {
        &&& fps_of(frames, before.frequency_spec() as int, acc) <= frames
        &&& after.frames_spec() == 0
        &&& after.acc_spec() == 0
    } else {
        after.frames_spec() == frames && after.acc_spec() == acc
    }
}

/// What one tick of the clock yields.
#[derive(Clone, Copy, Debug, PartialEq, Eq, Structural)]
pub struct Tick {
    /// Timer ticks since the previous tick (or since the clock was made).
    pub elapsed: u64,
    /// The average frame rate of the last second or so, when the accumulator has just
    /// rolled over.
    pub fps: Option<u64>,
}

/// The frame clock: time between frames, and a frame rate averaged over about a second.
///
/// Time is counted in ticks of a monotonic timer that runs at `frequency` ticks per
/// second.
#[derive(Clone, Copy, Debug)]
pub struct FpsCounter {
    frequency: u64,
    last: u64,
    frames: u64,
    acc: u64,
    counting: bool,
}

impl FpsCounter {
    #[verifier::type_invariant]
    spec fn inv(self) -> bool {
        &&& self.frequency > 0
        &&& self.acc < self.frequency
        &&& !self.counting ==> self.frames == 0 && self.acc == 0
    }

    /// Ticks per second.
    pub closed spec fn frequency_spec(&self) -> u64 {
        self.frequency
    }

    /// The timer reading of the latest tick.
    pub closed spec fn last_spec(&self) -> u64 {
        self.last
    }

    /// Frames counted since the accumulator was last reset.
    pub closed spec fn frames_spec(&self) -> u64 {
        self.frames
    }

    /// Ticks accumulated since the accumulator was last reset.
    pub closed spec fn acc_spec(&self) -> u64 {
        self.acc
    }

    /// Whether the frame rate is measured at all.
    pub closed spec fn counting_spec(&self) -> bool {
        self.counting
    }

    /// A clock started at timer reading `now`. A timer of zero frequency is no usable
    /// clock.
    pub fn new(frequency: u64, now: u64, counting: bool) -> (r: Option<FpsCounter>)
        ensures
            r is None <==> frequency == 0,
            r matches Some(c) ==> c.frequency_spec() == frequency && c.last_spec() == now
                && c.frames_spec() == 0 && c.acc_spec() == 0 && c.counting_spec() == counting,
    {
        if frequency == 0 {
            None
        } else {
            Some(FpsCounter { frequency, last: now, frames: 0, acc: 0, counting })
        }
    }

    pub fn frequency(&self) -> (r: u64)
        ensures
            r == self.frequency_spec(),
            r > 0,
    {
        proof {
            use_type_invariant(self);
        }
        self.frequency
    }

    /// Ticks accumulated towards the next frame-rate figure.
    pub fn time_acc(&self) -> (r: u64)
        ensures
            r == self.acc_spec(),
            r < self.frequency_spec(),
    {
        proof {
            use_type_invariant(self);
        }
        self.acc
    }

    /// Advances the clock to timer reading `now`: returns the ticks since the previous
    /// reading and counts one frame. When the accumulated time reaches one second, the
    /// frame rate over it is returned and the frame count and accumulator start again
    /// from zero.
    pub fn tick(&mut self, now: u64) -> (t: Tick)
        ensures
            t.elapsed == ticks_between(old(self).last_spec(), now),
            t.fps == ticked_fps(*old(self), now),
            ticked_state(*old(self), *final(self), now),
    {
        proof {
            use_type_invariant(&*self);
        }
        let elapsed: u64 = if now >= self.last {
            now - self.last
        } else {
            0
        };
        let frequency = self.frequency;
        let counting = self.counting;
        if !counting {
            *self = FpsCounter { frequency, last: now, frames: 0, acc: 0, counting };
            return Tick { elapsed, fps: None };
        }
        let frames: u64 = if self.frames == u64::MAX {
            u64::MAX
        } else {
            self.frames + 1
        };
        let acc: u128 = self.acc as u128 + elapsed as u128;
        if acc >= frequency as u128 {
            let fps = rounded_fps(frames, frequency, acc);
            *self = FpsCounter { frequency, last: now, frames: 0, acc: 0, counting };
            Tick { elapsed, fps: Some(fps) }
        } else {
            *self = FpsCounter { frequency, last: now, frames, acc: acc as u64, counting };
            Tick { elapsed, fps: None }
        }
    }
}

/// The frame rate of `frames` frames over `acc` ticks at `frequency` ticks per second,
/// for an accumulator of at least one second.
fn rounded_fps(frames: u64, frequency: u64, acc: u128) -> (r: u64)
    requires
        frames >= 1,
        frequency > 0,
        acc >= frequency,
        acc <= 2 * (u64::MAX as int),
    ensures
        r == fps_of(frames as int, frequency as int, acc as int),
        r <= frames,
{
    assert(frames as u128 * frequency as u128 <= u128::MAX) by (nonlinear_arith)
        requires
            frames <= u64::MAX,
            frequency <= u64::MAX,
    ;
    let n: u128 = frames as u128 * frequency as u128;
    let q: u128 = n / acc;
    let rem: u128 = n % acc;
    let ghost f = frames as int;
    let ghost fr = frequency as int;
    let ghost d = acc as int;
    assert(n as int == f * fr);
    assert(q as int * d + rem as int == f * fr && 0 <= rem < d) by {
        vstd::arithmetic::div_mod::lemma_fundamental_div_mod(f * fr, d);
    }
    if acc == frequency as u128 {
        assert(q as int == f && rem == 0) by {
            vstd::arithmetic::div_mod::lemma_fundamental_div_mod_converse(f * fr, d, f, 0);
        }
    } else {
        assert(f * fr < f * d) by (nonlinear_arith)
            requires
                fr < d,
                0 < f,
        ;
        assert(q < f) by (nonlinear_arith)
            requires
                q as int * d < f * d,
                0 < d,
        ;
    }
    if 2 * rem >= acc {
        (q + 1) as u64
    } else {
        q as u64
    }
}

} // verus!
