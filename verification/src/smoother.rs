//! Per-sample parameter smoothing, used to avoid audible steps ("zipper
//! noise") when a control value changes.
//!
//! The smoother is a one-pole low-pass run in Q16.16 fixed point: values
//! carry 16 fractional bits, so `65536` stands for 1.0, and the
//! coefficient is a Q16 fraction strictly between 0 and 1. Each step
//! multiplies the distance to the target by the coefficient (rounding
//! toward zero), so the realized value moves strictly toward the target,
//! never overshoots, and reaches it exactly after finitely many steps.
//! Fixed point keeps the audio-path arithmetic exact and total.

use vstd::prelude::*;
use vstd::math::abs;

verus! {

/// One in Q16.16 fixed point.
pub const UNIT_Q16: i64 = 65536;

/// Largest magnitude a smoothed level may carry, leaving ample headroom
/// for the intermediate products of a smoothing step.
pub const MAX_LEVEL_Q16: i64 = 0x1_0000_0000;

/// The Q16 smoothing coefficient for the default configuration, a 10 ms
/// time constant at a 44.1 kHz sample rate: the closest fixed-point
/// value to `exp(-1 / (0.01 * 44100))`.
pub const DEFAULT_COEFF_Q16: u32 = 65388;

/// One smoothing step applied to the distance `e` from the target, with
/// Q16 coefficient `c`: the distance scaled by `c` and rounded toward
/// zero.
pub open spec fn shrink_error(e: int, c: int) -> int {
    if e >= 0 {
        (e * c) / 65536
    } else {
        -((-e) * c / 65536)
    }
}

/// The distance from the target after `n` smoothing steps toward a
/// constant target.
pub open spec fn shrink_error_iter(e: int, c: int, n: nat) -> int
    decreases n,
{
    if n == 0 {
        e
    } else {
        shrink_error(shrink_error_iter(e, c, (n - 1) as nat), c)
    }
}

/// One smoothing step keeps the sign of the distance, never increases
/// its magnitude, and strictly decreases it while it is nonzero.
pub proof fn lemma_shrink_error_step(e: int, c: int)
    requires
        0 < c < 65536,
    ensures
        e > 0 ==> 0 <= shrink_error(e, c) < e,
        e < 0 ==> e < shrink_error(e, c) <= 0,
        e == 0 ==> shrink_error(e, c) == 0,
{
    if e > 0 {
        assert(0 <= (e * c) / 65536 < e) by (nonlinear_arith)
            requires
                e > 0,
                0 < c < 65536,
        ;
    } else if e < 0 {
        assert(0 <= ((-e) * c) / 65536 < -e) by (nonlinear_arith)
            requires
                e < 0,
                0 < c < 65536,
        ;
    }
}

/// Under a constant target the distance to the target keeps its sign,
/// shrinks strictly at every step while nonzero, and is exactly zero
/// after at most `|e|` steps: the smoothed value converges monotonically
/// to the target without overshooting.
pub proof fn lemma_smoother_converges(e: int, c: int, n: nat)
    requires
        0 < c < 65536,
    ensures
        e >= 0 ==> 0 <= shrink_error_iter(e, c, n) <= e,
        e <= 0 ==> e <= shrink_error_iter(e, c, n) <= 0,
        n < abs(e) ==> abs(shrink_error_iter(e, c, n)) <= abs(e) - n,
        n >= abs(e) ==> shrink_error_iter(e, c, n) == 0,
    decreases n,
{
    if n > 0 {
        lemma_smoother_converges(e, c, (n - 1) as nat);
        lemma_shrink_error_step(shrink_error_iter(e, c, (n - 1) as nat), c);
    }
}

/// Exponential smoother for one scalar parameter, in Q16.16 fixed point.
#[derive(Debug, Clone)]
pub struct ParamSmoother {
    current: i64,
    target: i64,
    coeff: u32,
}

impl ParamSmoother {
    /// The realized (smoothed) level, for specifications.
    pub closed spec fn spec_current(&self) -> i64 {
        self.current
    }

    /// The level being approached, for specifications.
    pub closed spec fn spec_target(&self) -> i64 {
        self.target
    }

    /// The Q16 smoothing coefficient, for specifications.
    pub closed spec fn spec_coeff(&self) -> u32 {
        self.coeff
    }

    /// A genuine low-pass with in-range levels: the coefficient lies
    /// strictly between 0 and 1, so every step makes progress.
    pub open spec fn wf(&self) -> bool {
        &&& 0 < self.spec_coeff() < 65536
        &&& -MAX_LEVEL_Q16 <= self.spec_current() <= MAX_LEVEL_Q16
        &&& -MAX_LEVEL_Q16 <= self.spec_target() <= MAX_LEVEL_Q16
    }

    /// A smoother at level 0 with the default coefficient (10 ms time
    /// constant at 44.1 kHz).
    pub fn new() -> (r: Self)
        ensures
            r.wf(),
            r.spec_current() == 0,
            r.spec_target() == 0,
            r.spec_coeff() == DEFAULT_COEFF_Q16,
    {
        ParamSmoother { current: 0, target: 0, coeff: DEFAULT_COEFF_Q16 }
    }

    /// A smoother at level 0 with the given Q16 coefficient. For a time
    /// constant of `t` seconds at `f` Hz the coefficient is
    /// `exp(-1 / (t * f))` scaled by 65536, computed by the caller.
    pub fn with_coefficient(coeff: u32) -> (r: Self)
        requires
            0 < coeff < 65536,
        ensures
            r.wf(),
            r.spec_current() == 0,
            r.spec_target() == 0,
            r.spec_coeff() == coeff,
    {
        ParamSmoother { current: 0, target: 0, coeff }
    }

    /// Set the level to approach; the realized level is untouched and
    /// keeps ramping from where it is.
    pub fn set_target(&mut self, new_target: i64)
        requires
            old(self).wf(),
            -MAX_LEVEL_Q16 <= new_target <= MAX_LEVEL_Q16,
        ensures
            final(self).wf(),
            final(self).spec_target() == new_target,
            final(self).spec_current() == old(self).spec_current(),
            final(self).spec_coeff() == old(self).spec_coeff(),
    {
        self.target = new_target;
    }

    /// Advance the smoother by one sample and return the new realized
    /// level: the distance to the target shrinks by one
    /// [`shrink_error`] step, so the level moves strictly toward the
    /// target and never overshoots.
    pub fn next_sample(&mut self) -> (r: i64)
        requires
            old(self).wf(),
        ensures
            final(self).wf(),
            final(self).spec_target() == old(self).spec_target(),
            final(self).spec_coeff() == old(self).spec_coeff(),
            final(self).spec_current() == old(self).spec_target() - shrink_error(
                old(self).spec_target() - old(self).spec_current(),
                old(self).spec_coeff() as int,
            ),
            r == final(self).spec_current(),
            old(self).spec_current() < old(self).spec_target() ==> old(self).spec_current()
                < final(self).spec_current() <= old(self).spec_target(),
            old(self).spec_current() > old(self).spec_target() ==> old(self).spec_target()
                <= final(self).spec_current() < old(self).spec_current(),
            old(self).spec_current() == old(self).spec_target() ==> final(self).spec_current()
                == old(self).spec_current(),
    {
        proof {
            lemma_shrink_error_step(
                self.target - self.current,
                self.coeff as int,
            );
        }
        let c: u64 = self.coeff as u64;
        if self.current < self.target {
            let e: u64 = (self.target - self.current) as u64;
            proof {
                assert((e as int) * (c as int) <= 0x2_0000_0000 * 0xffff) by (nonlinear_arith)
                    requires
                        0 <= e as int <= 0x2_0000_0000,
                        0 <= c as int <= 0xffff,
                ;
            }
            let step: u64 = (e * c) / 65536;
            self.current = self.target - (step as i64);
        } else if self.current > self.target {
            let e: u64 = (self.current - self.target) as u64;
            proof {
                assert((e as int) * (c as int) <= 0x2_0000_0000 * 0xffff) by (nonlinear_arith)
                    requires
                        0 <= e as int <= 0x2_0000_0000,
                        0 <= c as int <= 0xffff,
                ;
            }
            let step: u64 = (e * c) / 65536;
            self.current = self.target + (step as i64);
        }
        self.current
    }

    /// The realized level, without advancing.
    pub fn current_value(&self) -> (r: i64)
        ensures
            r == self.spec_current(),
    {
        self.current
    }

    /// Snap both the realized level and the target to `value`, with no
    /// transition.
    pub fn reset(&mut self, value: i64)
        requires
            old(self).wf(),
            -MAX_LEVEL_Q16 <= value <= MAX_LEVEL_Q16,
        ensures
            final(self).wf(),
            final(self).spec_current() == value,
            final(self).spec_target() == value,
            final(self).spec_coeff() == old(self).spec_coeff(),
    {
        self.current = value;
        self.target = value;
    }
}

impl Default for ParamSmoother {
    /// Same as [`ParamSmoother::new`].
    fn default() -> (r: Self)
        ensures
            r.wf(),
            r.spec_current() == 0,
            r.spec_target() == 0,
            r.spec_coeff() == DEFAULT_COEFF_Q16,
    {
        ParamSmoother::new()
    }
}

} // verus!
