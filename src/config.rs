//! The immutable configuration shared by the physics and presentation loops.
use vstd::prelude::*;

verus! {

/// Thousandths: the unit of velocities (pixels per tick) and of the rates.
pub const MILLI: i64 = 1000;

/// The largest screen dimension, in pixels, that the library accepts.
pub const MAX_DIMENSION: usize = 32768;

/// The largest push acceleration, in thousandths of a pixel per tick.
pub const MAX_ACCELERATION: i64 = 1073741824;

/// The largest velocity magnitude a bar can hold, in thousandths of a pixel
/// per tick. No update ever leaves this range, so the integer arithmetic of
/// a tick cannot overflow.
pub const MAX_VELOCITY: i64 = 1099511627776;

/// Screen geometry and physics constants.
#[derive(Clone, Copy)]
pub struct Config {
    pub screen_width: usize,
    pub screen_height: usize,
    pub bar_count: usize,
    /// The equilibrium height the springs pull towards, in pixels.
    pub centre_height: usize,
    /// Added to a bar's velocity while the mouse pushes it (thousandths of a
    /// pixel per tick, per tick).
    pub acc_rate: i64,
    /// Spring constant over mass, in thousandths.
    pub spring_rate: i64,
    /// Fraction of the velocity lost each tick, in thousandths.
    pub damping: i64,
    /// Target duration of one physics tick, in nanoseconds.
    pub tick_period_ns: u64,
}

impl Config {
    /// The ranges within which the physics is defined.
    pub open spec fn wf(&self) -> bool {
        &&& 1 <= self.screen_width <= MAX_DIMENSION
        &&& 1 <= self.screen_height <= MAX_DIMENSION
        &&& 1 <= self.bar_count <= self.screen_width
        &&& self.centre_height <= self.screen_height
        &&& 0 <= self.acc_rate <= MAX_ACCELERATION
        &&& 0 <= self.spring_rate <= MILLI
        &&& 1 <= self.damping <= MILLI
    }

    /// Width of every bar: the screen width shared evenly, rounded down.
    pub open spec fn bar_width(&self) -> nat {
        (self.screen_width / self.bar_count) as nat
    }

    /// Number of cells in a frame buffer.
    pub open spec fn frame_len(&self) -> nat {
        (self.screen_width * self.screen_height) as nat
    }

    /// The standard setup: a 1024 x 768 window with sixteen bars resting at
    /// 256 pixels, a spring rate of 0.02, damping of 0.07, a push of 6 pixels
    /// per tick per tick, and ticks of just under 20 ms.
    pub fn standard() -> (r: Config)
        ensures
            r.wf(),
            r.screen_width == 1024,
            r.screen_height == 768,
            r.bar_count == 16,
            r.centre_height == 256,
            r.acc_rate == 6 * MILLI,
            r.spring_rate == 20,
            r.damping == 70,
            r.tick_period_ns == 19996667,
    {
        Config {
            screen_width: 1024,
            screen_height: 768,
            bar_count: 16,
            centre_height: 256,
            acc_rate: 6 * MILLI,
            spring_rate: 20,
            damping: 70,
            tick_period_ns: 19996667,
        }
    }

    /// Width of every bar in pixels.
    pub fn bar_width_px(&self) -> (r: usize)
        requires
            self.wf(),
        ensures
            r == self.bar_width(),
            1 <= r <= self.screen_width,
    {
        proof {
            vstd::arithmetic::div_mod::lemma_div_is_ordered_by_denominator(
                self.screen_width as int, 1, self.bar_count as int);
            vstd::arithmetic::div_mod::lemma_div_by_self(self.bar_count as int);
            vstd::arithmetic::div_mod::lemma_div_is_ordered(
                self.bar_count as int, self.screen_width as int, self.bar_count as int);
        }
        self.screen_width / self.bar_count
    }

    /// Number of cells in a frame buffer for this screen.
    pub fn frame_len_px(&self) -> (r: usize)
        requires
            self.wf(),
        ensures
            r == self.frame_len(),
    {
        proof {
            vstd::arithmetic::mul::lemma_mul_upper_bound(
                self.screen_width as int, MAX_DIMENSION as int,
                self.screen_height as int, MAX_DIMENSION as int);
        }
        self.screen_width * self.screen_height
    }
}

} // verus!
