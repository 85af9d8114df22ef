//! One bar: its state, the spring-damper step and its rasterisation.
use vstd::prelude::*;
use crate::config::{Config, MILLI, MAX_DIMENSION, MAX_ACCELERATION, MAX_VELOCITY};

verus! {

/// `a / 1000`, rounded toward zero.
pub open spec fn trunc_milli(a: int) -> int {
    if a >= 0 {
        a / 1000
    } else {
        -((-a) / 1000)
    }
}

/// `v` after losing the fraction `d / 1000` of itself (the loss rounded
/// toward zero).
pub open spec fn damped(v: int, d: int) -> int {
    v - trunc_milli(v * d)
}

/// `p` brought into `[0, hi]`.
pub open spec fn clamp(p: int, hi: int) -> int {
    if p < 0 {
        0
    } else if p > hi {
        hi
    } else {
        p
    }
}

/// A bound on how much one tick can add to a velocity's magnitude, before
/// damping.
pub open spec fn max_kick() -> int {
    MAX_ACCELERATION as int
}

/// One column of the display.
#[derive(Clone, Copy)]
pub struct Bar {
    /// Width in pixels.
    pub width: usize,
    /// Left edge in pixels.
    pub lpos: usize,
    /// Current height in pixels, measured up from the bottom edge.
    pub height: usize,
    /// Velocity in thousandths of a pixel per tick; positive is upward.
    pub velocity: i64,
    /// Packed RGB colour.
    pub colour: u32,
    /// Whether the owner wants the height traced each tick.
    pub debug: bool,
}

impl Bar {
    /// The bar lies on the screen and its state is within range.
    pub open spec fn wf(&self, cfg: Config) -> bool {
        &&& self.lpos + self.width <= cfg.screen_width
        &&& self.height <= cfg.screen_height
        &&& -MAX_VELOCITY <= self.velocity <= MAX_VELOCITY
    }

    /// Whether the mouse column `x` lies over the bar: `[lpos, lpos + width)`.
    pub open spec fn hits(&self, x: int) -> bool {
        self.lpos <= x < self.lpos + self.width
    }

    /// Whether the mouse pushes the bar this tick.
    pub open spec fn pushed(&self, mouse_x: int, mouse_down: bool) -> bool {
        mouse_down && self.hits(mouse_x)
    }

    /// Height after one Euler step, before clamping: `height + velocity`
    /// rounded toward zero.
    pub open spec fn provisional(&self) -> int {
        trunc_milli(self.height * MILLI + self.velocity)
    }

    /// Velocity after the push or the spring, before damping. The push and
    /// the spring exclude each other.
    pub open spec fn driven_velocity(&self, cfg: Config, mouse_x: int, mouse_down: bool) -> int {
        if self.pushed(mouse_x, mouse_down) {
            self.velocity + cfg.acc_rate
        } else {
            self.velocity - (self.provisional() - cfg.centre_height) * cfg.spring_rate
        }
    }

    /// Velocity after one tick.
    pub open spec fn next_velocity(&self, cfg: Config, mouse_x: int, mouse_down: bool) -> int {
        damped(self.driven_velocity(cfg, mouse_x, mouse_down), cfg.damping as int)
    }

    /// Height after one tick.
    pub open spec fn next_height(&self, cfg: Config) -> int {
        clamp(self.provisional(), cfg.screen_height as int)
    }

    /// The bar after one tick: only height and velocity change.
    pub open spec fn stepped(&self, cfg: Config, mouse_x: int, mouse_down: bool) -> Bar {
        Bar {
            height: self.next_height(cfg) as usize,
            velocity: self.next_velocity(cfg, mouse_x, mouse_down) as i64,
            ..*self
        }
    }
}

proof fn lemma_trunc_milli(a: int)
    ensures
        a >= 0 ==> 0 <= trunc_milli(a) && 1000 * trunc_milli(a) <= a < 1000 * trunc_milli(a) + 1000,
        a < 0 ==> trunc_milli(a) <= 0 && 1000 * trunc_milli(a) - 1000 < a <= 1000 * trunc_milli(a),
{
    if a >= 0 {
        vstd::arithmetic::div_mod::lemma_fundamental_div_mod(a, 1000);
        vstd::arithmetic::div_mod::lemma_mod_pos_bound(a, 1000);
        vstd::arithmetic::div_mod::lemma_div_pos_is_pos(a, 1000);
    } else {
        vstd::arithmetic::div_mod::lemma_fundamental_div_mod(-a, 1000);
        vstd::arithmetic::div_mod::lemma_mod_pos_bound(-a, 1000);
        vstd::arithmetic::div_mod::lemma_div_pos_is_pos(-a, 1000);
    }
}

fn trunc_milli_exec(a: i64) -> (r: i64)
    requires
        -4 * MAX_VELOCITY * MILLI <= a <= 4 * MAX_VELOCITY * MILLI,
    ensures
        r == trunc_milli(a as int),
{
    if a >= 0 {
        a / MILLI
    } else {
        -((-a) / MILLI)
    }
}

/// How far one tick can move a velocity before damping: by the push, or by
/// the spring, whose pull on the velocity itself never exceeds it.
proof fn lemma_driven_bound(b: Bar, cfg: Config, mouse_x: int, mouse_down: bool)
    requires
        cfg.wf(),
        b.wf(cfg),
    ensures
        -(MAX_DIMENSION as int) - MAX_VELOCITY / 1000 - 1 <= b.provisional()
            <= MAX_DIMENSION as int + MAX_VELOCITY / 1000 + 1,
        b.velocity >= 0 ==> -(b.velocity + max_kick()) <= b.driven_velocity(cfg, mouse_x, mouse_down)
            <= b.velocity + max_kick(),
        b.velocity < 0 ==> -(-b.velocity + max_kick()) <= b.driven_velocity(cfg, mouse_x, mouse_down)
            <= -b.velocity + max_kick(),
{
    let h = b.height as int;
    let v = b.velocity as int;
    let a = h * 1000 + v;
    let p = b.provisional();
    lemma_trunc_milli(a);
    let r = a - 1000 * p;
    assert(-1000 < r < 1000);
    if !b.pushed(mouse_x, mouse_down) {
        let s = cfg.spring_rate as int;
        let c = cfg.centre_height as int;
        let w = b.driven_velocity(cfg, mouse_x, mouse_down);
        assert(1000 * w == v * (1000 - s) - 1000 * s * (h - c) + s * r) by (nonlinear_arith)
            requires
                w == v - (p - c) * s,
                1000 * p == a - r,
                a == h * 1000 + v,
        ;
        let hc = h - c;
        assert(-32768 <= hc <= 32768);
        assert(-1000000 * 32768 <= 1000 * s * hc <= 1000000 * 32768) by (nonlinear_arith)
            requires
                0 <= s <= 1000,
                -32768 <= hc <= 32768,
        ;
        assert(-1000000 <= s * r <= 1000000) by (nonlinear_arith)
            requires
                0 <= s <= 1000,
                -1000 < r < 1000,
        ;
        if v >= 0 {
            assert(0 <= v * (1000 - s) <= 1000 * v) by (nonlinear_arith)
                requires
                    0 <= s <= 1000,
                    v >= 0,
            ;
        } else {
            assert(1000 * v <= v * (1000 - s) <= 0) by (nonlinear_arith)
                requires
                    0 <= s <= 1000,
                    v < 0,
            ;
        }
    }
}

/// Damping never lets a velocity leave the admitted range, provided it was
/// at most one kick outside it.
proof fn lemma_damped_nonneg(w: int, d: int)
    requires
        0 <= w <= MAX_VELOCITY + max_kick(),
        1 <= d <= 1000,
    ensures
        0 <= damped(w, d) <= MAX_VELOCITY,
        0 <= w * d <= 1000 * w,
{
    assert(0 <= w * d <= 1000 * w) by (nonlinear_arith)
        requires
            0 <= w,
            1 <= d <= 1000,
    ;
    let t = trunc_milli(w * d);
    lemma_trunc_milli(w * d);
    let res = damped(w, d);
    assert(1000 * res < w * (1000 - d) + 1000) by (nonlinear_arith)
        requires
            res == w - t,
            w * d < 1000 * t + 1000,
    ;
    assert(w * (1000 - d) + 1000 <= 1000 * MAX_VELOCITY) by (nonlinear_arith)
        requires
            0 <= w <= MAX_VELOCITY + max_kick(),
            1 <= d <= 1000,
            max_kick() == 1073741824,
            MAX_VELOCITY == 1099511627776,
    ;
}

proof fn lemma_damped_bound(w: int, d: int)
    requires
        -(MAX_VELOCITY + max_kick()) <= w <= MAX_VELOCITY + max_kick(),
        1 <= d <= 1000,
    ensures
        -MAX_VELOCITY <= damped(w, d) <= MAX_VELOCITY,
        -1000 * (MAX_VELOCITY + max_kick()) <= w * d <= 1000 * (MAX_VELOCITY + max_kick()),
{
    if w >= 0 {
        lemma_damped_nonneg(w, d);
    } else {
        lemma_damped_nonneg(-w, d);
        assert((-w) * d == -(w * d)) by (nonlinear_arith);
        assert(damped(w, d) == -damped(-w, d));
    }
}

impl Bar {
    /// Advances the bar by one tick for the mouse column `mouse_x` and button
    /// state `mouse_down`, and returns the height before clamping, which
    /// callers may trace.
    pub fn update_bar(&mut self, cfg: &Config, mouse_x: i64, mouse_down: bool) -> (trace: i64)
        requires
            cfg.wf(),
            old(self).wf(*cfg),
        ensures
            *final(self) == old(self).stepped(*cfg, mouse_x as int, mouse_down),
            final(self).wf(*cfg),
            0 <= final(self).height <= cfg.screen_height,
            trace == old(self).provisional(),
    {
        proof {
            lemma_driven_bound(*self, *cfg, mouse_x as int, mouse_down);
        }
        let h = self.height as i64;
        let p = trunc_milli_exec(h * MILLI + self.velocity);
        let pushed = mouse_down && (self.lpos as i64) <= mouse_x && mouse_x < (self.lpos
            + self.width) as i64;
        let driven: i64 = if pushed {
            self.velocity + cfg.acc_rate
        } else {
            self.velocity - (p - cfg.centre_height as i64) * cfg.spring_rate
        };
        proof {
            lemma_damped_bound(driven as int, cfg.damping as int);
        }
        let v = driven - trunc_milli_exec(driven * cfg.damping);
        let height: usize = if p < 0 {
            0
        } else if p > cfg.screen_height as i64 {
            cfg.screen_height
        } else {
            p as usize
        };
        self.height = height;
        self.velocity = v;
        p
    }
}

/// Row-major coordinates: cell `x + width * y` is column `x` of row `y`.
proof fn lemma_cell_coords(width: int, x: int, y: int)
    requires
        0 <= x < width,
        0 <= y,
    ensures
        (x + width * y) % width == x,
        (x + width * y) / width == y,
{
    assert(x + width * y == y * width + x) by (nonlinear_arith);
    vstd::arithmetic::div_mod::lemma_fundamental_div_mod_converse(x + width * y, width, y, x);
}

proof fn lemma_cell_in_frame(width: int, height: int, x: int, y: int)
    requires
        0 <= x < width,
        0 <= y < height,
    ensures
        0 <= x + width * y < width * height,
{
    assert(0 <= x + width * y < width * height) by (nonlinear_arith)
        requires
            0 <= x < width,
            0 <= y < height,
    ;
}

impl Bar {
    /// Whether pixel `(x, y)` of the screen (row `y` counted from the top)
    /// lies inside the bar as drawn: the bar grows up from the bottom edge.
    pub open spec fn covers(&self, cfg: Config, x: int, y: int) -> bool {
        &&& self.lpos <= x < self.lpos + self.width
        &&& cfg.screen_height - self.height <= y < cfg.screen_height
    }

    /// Whether cell `i` of a row-major frame buffer lies inside the bar.
    pub open spec fn covers_cell(&self, cfg: Config, i: int) -> bool {
        self.covers(cfg, i % (cfg.screen_width as int), i / (cfg.screen_width as int))
    }

    /// Writes the bar's colour into every cell it covers, leaving every other
    /// cell as it was.
    pub fn draw_bar(&self, cfg: &Config, buffer: &mut Vec<u32>)
        requires
            cfg.wf(),
            self.lpos + self.width <= cfg.screen_width,
            self.height <= cfg.screen_height,
            old(buffer)@.len() == cfg.frame_len(),
        ensures
            final(buffer)@.len() == old(buffer)@.len(),
            forall|i: int|
                0 <= i < final(buffer)@.len() ==> #[trigger] final(buffer)@[i] == if self.covers_cell(
                    *cfg,
                    i,
                ) {
                    self.colour
                } else {
                    old(buffer)@[i]
                },
    {
        let ghost orig = buffer@;
        let w = cfg.screen_width;
        let top = cfg.screen_height - self.height;
        let mut y: usize = top;
        while y < cfg.screen_height
            invariant
                cfg.wf(),
                w == cfg.screen_width,
                top == cfg.screen_height - self.height,
                self.lpos + self.width <= cfg.screen_width,
                top <= y <= cfg.screen_height,
                buffer@.len() == orig.len(),
                orig.len() == cfg.frame_len(),
                forall|i: int|
                    0 <= i < buffer@.len() ==> #[trigger] buffer@[i] == if self.covers_cell(*cfg, i)
                        && i / (w as int) < y {
                        self.colour
                    } else {
                        orig[i]
                    },
            decreases cfg.screen_height - y,
        {
            let mut x: usize = self.lpos;
            while x < self.lpos + self.width
                invariant
                    cfg.wf(),
                    w == cfg.screen_width,
                    top == cfg.screen_height - self.height,
                    self.lpos + self.width <= cfg.screen_width,
                    top <= y < cfg.screen_height,
                    self.lpos <= x <= self.lpos + self.width,
                    buffer@.len() == orig.len(),
                    orig.len() == cfg.frame_len(),
                    forall|i: int|
                        0 <= i < buffer@.len() ==> #[trigger] buffer@[i] == if self.covers_cell(
                            *cfg,
                            i,
                        ) && (i / (w as int) < y || (i / (w as int) == y && i % (w as int)
                            < x)) {
                            self.colour
                        } else {
                            orig[i]
                        },
                decreases self.lpos + self.width - x,
            {
                proof {
                    lemma_cell_coords(w as int, x as int, y as int);
                    lemma_cell_in_frame(w as int, cfg.screen_height as int, x as int, y as int);
                    vstd::arithmetic::mul::lemma_mul_upper_bound(
                        w as int, MAX_DIMENSION as int,
                        cfg.screen_height as int, MAX_DIMENSION as int);
                    assert(0 <= (w as int) * (y as int)) by (nonlinear_arith)
                        requires 0 <= w, 0 <= y;
                }
                let j = x + w * y;
                let ghost prev = buffer@;
                buffer[j] = self.colour;
                proof {
                    assert forall|i: int| 0 <= i < buffer@.len() implies #[trigger] buffer@[i]
                        == if self.covers_cell(*cfg, i) && (i / (w as int) < y || (i / (w as int)
                        == y && i % (w as int) < x + 1)) {
                        self.colour
                    } else {
                        orig[i]
                    } by {
                        vstd::arithmetic::div_mod::lemma_fundamental_div_mod(i, w as int);
                        if i != j {
                            assert(prev[i] == buffer@[i]);
                            if i / (w as int) == y && i % (w as int) == x {
                                assert(i == (w as int) * y + x);
                            }
                        }
                    }
                }
                x = x + 1;
            }
            y = y + 1;
        }
    }
}

impl Bar {
    /// The bar in column `index` at rest: full bar width, at equilibrium
    /// height, not moving.
    pub open spec fn fresh(cfg: Config, index: int, colour: u32) -> Bar {
        Bar {
            width: cfg.bar_width() as usize,
            lpos: (index * cfg.bar_width()) as usize,
            height: cfg.centre_height,
            velocity: 0,
            colour,
            debug: false,
        }
    }

    /// Builds the bar in column `index`, at rest at the equilibrium height.
    pub fn new(cfg: &Config, index: usize, colour: u32) -> (r: Bar)
        requires
            cfg.wf(),
            index < cfg.bar_count,
        ensures
            r == Bar::fresh(*cfg, index as int, colour),
            r.wf(*cfg),
    {
        let width = cfg.bar_width_px();
        proof {
            let n = cfg.bar_count as int;
            let sw = cfg.screen_width as int;
            let bw = width as int;
            vstd::arithmetic::div_mod::lemma_fundamental_div_mod(sw, n);
            vstd::arithmetic::div_mod::lemma_mod_pos_bound(sw, n);
            assert((index as int) * bw + bw <= n * bw) by (nonlinear_arith)
                requires
                    0 <= index < n,
                    0 <= bw,
            ;
            assert(n * bw <= sw) by (nonlinear_arith)
                requires
                    sw == n * bw + sw % n,
                    0 <= sw % n,
            ;
        }
        Bar {
            width,
            lpos: index * width,
            height: cfg.centre_height,
            velocity: 0,
            colour,
            debug: false,
        }
    }
}

/// A bar at rest at the equilibrium height, and not pushed, stays exactly as
/// it is.
pub proof fn lemma_rest_at_centre_is_fixed(cfg: Config, b: Bar, mouse_x: int, mouse_down: bool)
    requires
        cfg.wf(),
        b.wf(cfg),
        b.height == cfg.centre_height,
        b.velocity == 0,
        !b.pushed(mouse_x, mouse_down),
    ensures
        b.stepped(cfg, mouse_x, mouse_down) == b,
{
    let c = cfg.centre_height as int;
    vstd::arithmetic::div_mod::lemma_div_multiples_vanish(c, 1000);
    assert(c * 1000 == 1000 * c);
    assert(b.provisional() == c);
    assert(trunc_milli(0int * cfg.damping) == 0);
}

/// While the mouse pushes a bar, the push is added to the velocity first and
/// damping then applies to the sum; the spring plays no part in that tick.
pub proof fn lemma_push_then_damp(cfg: Config, b: Bar, mouse_x: int)
    requires
        b.hits(mouse_x),
    ensures
        b.pushed(mouse_x, true),
        b.next_velocity(cfg, mouse_x, true) == damped(
            b.velocity + cfg.acc_rate,
            cfg.damping as int,
        ),
{
}

/// The column just right of a bar is outside it: holding the button there
/// leaves the bar to its spring.
pub proof fn lemma_right_edge_not_pushed(cfg: Config, b: Bar, mouse_down: bool)
    ensures
        !b.hits(b.lpos + b.width),
        !b.pushed(b.lpos + b.width, mouse_down),
        b.next_velocity(cfg, b.lpos + b.width, mouse_down) == damped(
            b.velocity - (b.provisional() - cfg.centre_height) * cfg.spring_rate,
            cfg.damping as int,
        ),
{
}

} // verus!
