//! A segment: two endpoint colours and the period over which the displayed
//! colour travels from the first to the second and back.
//!
//! All that is decided here is decided in exact integer arithmetic. A query
//! answers with a [`Blend`]: which endpoint the colour is leaving, which it
//! is approaching, and how far along it is as a fraction. Easing the fraction
//! and interpolating in a perceptual colour space is left to the renderer.

use vstd::arithmetic::div_mod::{lemma_mod_multiples_vanish, lemma_small_mod};
use vstd::prelude::*;

use crate::color::Color;
use crate::error::EngineError;
use crate::shared::Wrap;

verus! {

/// A point on the way from one colour to another: `numer / denom` of the way
/// from `from` to `to`, before easing.
#[derive(Clone, Copy, Debug, PartialEq, Eq, Structural, Hash)]
pub struct Blend {
    pub from: Color,
    pub to: Color,
    pub numer: u128,
    pub denom: u128,
}

impl Blend {
    /// The same point described from the other end: the endpoints trade
    /// places and the fraction becomes its complement.
    pub open spec fn mirrored(self) -> Blend {
        Blend {
            from: self.to,
            to: self.from,
            numer: (self.denom - self.numer) as u128,
            denom: self.denom,
        }
    }
}

/// Folds a cycle fraction `numer / denom` in `[0, 1)` into a there-and-back
/// blend. The first half of the cycle runs from `a` to `b`, the second half
/// from `b` back to `a`; the half-way point itself belongs to the second
/// half. Within its half the fraction is rescaled to `[0, 1)`.
pub open spec fn fold(a: Color, b: Color, numer: int, denom: int) -> Blend {
    if 2 * numer >= denom {
        Blend { from: b, to: a, numer: (2 * numer - denom) as u128, denom: denom as u128 }
    } else {
        Blend { from: a, to: b, numer: (2 * numer) as u128, denom: denom as u128 }
    }
}

/// What the contracts see of a segment.
pub struct SegmentView {
    pub length: usize,
    pub bgr: bool,
    pub color_a: Color,
    pub color_b: Color,
    pub cycle_ms: u128,
}

impl SegmentView {
    /// The blend that the segment shows `elapsed` milliseconds after the
    /// clock started: the cycle position `elapsed mod cycle_ms`, folded.
    pub open spec fn blend_at(self, elapsed: int) -> Blend {
        fold(self.color_a, self.color_b, elapsed % (self.cycle_ms as int), self.cycle_ms as int)
    }
}

/// One independently animated region of the strip. Its cycle duration is
/// never zero.
#[derive(Clone, Copy, Debug, PartialEq, Eq, Structural, Hash)]
pub struct Segment {
    length: usize,
    bgr: bool,
    color_a: Color,
    color_b: Color,
    speed_ms: u128,
}

impl View for Segment {
    type V = SegmentView;

    closed spec fn view(&self) -> SegmentView {
        SegmentView {
            length: self.length,
            bgr: self.bgr,
            color_a: self.color_a,
            color_b: self.color_b,
            cycle_ms: self.speed_ms,
        }
    }
}

impl Segment {
    #[verifier::type_invariant]
    spec fn cycle_is_positive(self) -> bool {
        self.speed_ms != 0
    }

    /// A segment of `length` pixels that cycles between `colors[0]` and
    /// `colors[1]` once every `speed_ms` milliseconds. A duration of zero is
    /// refused.
    pub fn new(length: usize, bgr: bool, colors: [Color; 2], speed_ms: u128) -> (r: Result<
        Segment,
        EngineError,
    >)
        ensures
            speed_ms == 0 ==> r == Err::<Segment, EngineError>(EngineError::InvalidDuration),
            speed_ms != 0 ==> r is Ok && r->Ok_0@ == (SegmentView {
                length,
                bgr,
                color_a: colors[0],
                color_b: colors[1],
                cycle_ms: speed_ms,
            }),
    {
        if speed_ms == 0 {
            Err(EngineError::InvalidDuration)
        } else {
            Ok(Segment { length, bgr, color_a: colors[0], color_b: colors[1], speed_ms })
        }
    }

    /// Folds the cycle fraction `numer / denom` into a blend of the two
    /// endpoint colours.
    pub fn mix(&self, numer: u128, denom: u128) -> (r: Blend)
        requires
            numer < denom,
        ensures
            r == fold(self@.color_a, self@.color_b, numer as int, denom as int),
            r.numer < r.denom,
    {
        let rest: u128 = denom - numer;
        if numer >= rest {
            Blend { from: self.color_b, to: self.color_a, numer: numer - rest, denom }
        } else {
            Blend { from: self.color_a, to: self.color_b, numer: numer + numer, denom }
        }
    }

    /// The blend shown `at_millis` milliseconds after the clock started.
    pub fn color_at(&self, at_millis: u128) -> (r: Blend)
        ensures
            r == self@.blend_at(at_millis as int),
            r.numer < r.denom,
            r.denom == self@.cycle_ms,
    {
        proof {
            use_type_invariant(self);
        }
        let wrapped: u128 = at_millis % self.speed_ms;
        self.mix(wrapped, self.speed_ms)
    }

    /// The cycle duration in milliseconds; never zero.
    pub fn speed_ms(&self) -> (ms: u128)
        ensures
            ms == self@.cycle_ms,
            ms != 0,
    {
        proof {
            use_type_invariant(self);
        }
        self.speed_ms
    }

    /// The number of pixels that the segment stands for.
    pub fn length(&self) -> (n: usize)
        ensures
            n == self@.length,
    {
        self.length
    }

    /// Whether the output is meant to be sent in blue-green-red order. The
    /// flag is carried for the renderer; no query applies it.
    pub fn bgr(&self) -> (flag: bool)
        ensures
            flag == self@.bgr,
    {
        self.bgr
    }

    /// Replaces both endpoint colours and nothing else.
    pub fn set_colors(&mut self, colors: [Color; 2])
        ensures
            final(self)@ == (SegmentView {
                color_a: colors[0],
                color_b: colors[1],
                ..old(self)@
            }),
    {
        proof {
            use_type_invariant(&*self);
        }
        self.color_a = colors[0];
        self.color_b = colors[1];
    }

    /// Replaces the cycle duration. A duration of zero is refused and the
    /// segment stays as it was.
    pub fn set_speed_ms(&mut self, speed_ms: u128) -> (r: Result<(), EngineError>)
        ensures
            speed_ms == 0 ==> r == Err::<(), EngineError>(EngineError::InvalidDuration)
                && final(self)@ == old(self)@,
            speed_ms != 0 ==> r is Ok && final(self)@ == (SegmentView {
                cycle_ms: speed_ms,
                ..old(self)@
            }),
    {
        if speed_ms == 0 {
            Err(EngineError::InvalidDuration)
        } else {
            self.speed_ms = speed_ms;
            Ok(())
        }
    }

    /// The first endpoint colour as a shared handle of its own.
    pub fn color_1_state(&self) -> (c: Wrap<Color>)
        ensures
            c@ == self@.color_a,
    {
        Wrap::new(self.color_a)
    }

    /// The first endpoint colour.
    pub fn color_1(&self) -> (c: &Color)
        ensures
            *c == self@.color_a,
    {
        &self.color_a
    }

    /// The second endpoint colour.
    pub fn color_2(&self) -> (c: &Color)
        ensures
            *c == self@.color_b,
    {
        &self.color_b
    }
}

impl Default for Segment {
    /// Ten pixels that cycle between orange and magenta every two seconds.
    fn default() -> (s: Segment)
        ensures
            s@ == (SegmentView {
                length: 10,
                bgr: false,
                color_a: Color { red: 255, green: 150, blue: 0 },
                color_b: Color { red: 255, green: 10, blue: 220 },
                cycle_ms: 2000,
            }),
    {
        Segment {
            length: 10,
            bgr: false,
            color_a: Color { red: 255, green: 150, blue: 0 },
            color_b: Color { red: 255, green: 10, blue: 220 },
            speed_ms: 2000,
        }
    }
}

/// A whole number of cycles later the segment shows the same blend.
pub proof fn cycle_wraps(seg: SegmentView, elapsed: int, cycles: int)
    requires
        seg.cycle_ms != 0,
        elapsed >= 0,
        cycles >= 0,
    ensures
        seg.blend_at(elapsed + cycles * seg.cycle_ms) == seg.blend_at(elapsed),
{
    let d = seg.cycle_ms as int;
    lemma_mod_multiples_vanish(cycles, elapsed, d);
    assert(d * cycles + elapsed == elapsed + cycles * d) by (nonlinear_arith);
}

/// The displayed blend is periodic in the elapsed time, with the cycle
/// duration as its period.
pub proof fn cycle_is_periodic(seg: SegmentView, elapsed: int)
    requires
        seg.cycle_ms != 0,
        elapsed >= 0,
    ensures
        seg.blend_at(elapsed) == seg.blend_at(elapsed + seg.cycle_ms),
{
    cycle_wraps(seg, elapsed, 1);
}

/// A cycle starts on the first colour: at time zero the blend has not yet
/// left it.
pub proof fn cycle_starts_on_first_color(seg: SegmentView)
    requires
        seg.cycle_ms != 0,
    ensures
        seg.blend_at(0) == (Blend {
            from: seg.color_a,
            to: seg.color_b,
            numer: 0,
            denom: seg.cycle_ms,
        }),
{
}

/// Half a cycle in, the blend turns round on the second colour. Where the
/// duration is even this is exact: the blend has just arrived and not yet
/// left. Where it is odd, the half is rounded down and the blend is one step
/// short of the second colour.
pub proof fn cycle_turns_on_second_color(seg: SegmentView)
    requires
        seg.cycle_ms != 0,
    ensures
        seg.cycle_ms % 2 == 0 ==> seg.blend_at(seg.cycle_ms as int / 2) == (Blend {
            from: seg.color_b,
            to: seg.color_a,
            numer: 0,
            denom: seg.cycle_ms,
        }),
        seg.cycle_ms % 2 == 1 ==> seg.blend_at(seg.cycle_ms as int / 2) == (Blend {
            from: seg.color_a,
            to: seg.color_b,
            numer: (seg.cycle_ms - 1) as u128,
            denom: seg.cycle_ms,
        }),
{
    let d = seg.cycle_ms as int;
    if d == 1 {
        assert(seg.blend_at(d / 2) == seg.blend_at(0));
    } else {
        lemma_small_mod((d / 2) as nat, d as nat);
    }
}

/// The way back mirrors the way out: as long before the end of a cycle as
/// `t` is after its start, the segment shows the same point between the two
/// colours, described from the other end.
pub proof fn cycle_is_symmetric(seg: SegmentView, t: int)
    requires
        seg.cycle_ms != 0,
        0 < t,
        2 * t < seg.cycle_ms,
    ensures
        seg.blend_at(t) == (Blend {
            from: seg.color_a,
            to: seg.color_b,
            numer: (2 * t) as u128,
            denom: seg.cycle_ms,
        }),
        seg.blend_at(seg.cycle_ms - t) == (Blend {
            from: seg.color_b,
            to: seg.color_a,
            numer: (seg.cycle_ms - 2 * t) as u128,
            denom: seg.cycle_ms,
        }),
        seg.blend_at(seg.cycle_ms - t) == seg.blend_at(t).mirrored(),
{
    let d = seg.cycle_ms as int;
    lemma_small_mod(t as nat, d as nat);
    lemma_small_mod((d - t) as nat, d as nat);
}

/// What a segment shows depends on its two colours, its cycle duration and
/// the elapsed time alone: neither the pixel count nor the channel-order
/// flag bears on it, and the same query always has the same answer.
pub proof fn blend_depends_on_colors_and_cycle(seg: SegmentView, other: SegmentView, elapsed: int)
    requires
        seg.color_a == other.color_a,
        seg.color_b == other.color_b,
        seg.cycle_ms == other.cycle_ms,
    ensures
        seg.blend_at(elapsed) == other.blend_at(elapsed),
{
}

/// Every blend that a segment shows is a proper fraction over the cycle
/// duration.
pub proof fn blend_is_proper_fraction(seg: SegmentView, elapsed: int)
    requires
        seg.cycle_ms != 0,
        elapsed >= 0,
    ensures
        seg.blend_at(elapsed).numer < seg.blend_at(elapsed).denom,
        seg.blend_at(elapsed).denom == seg.cycle_ms,
{
    let d = seg.cycle_ms as int;
    assert(0 <= elapsed % d < d);
}

} // verus!
