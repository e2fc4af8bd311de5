//! The ball stepper: one discrete simulation tick over a ball's position,
//! velocity and elapsed-time accumulator.
//!
//! Coordinates, velocities and times are fixed-point numbers: an `i64`
//! value `v` stands for `v / 1000` simulation-space units (or seconds for
//! the time fields). The per-tick damping factor is `99/100`, gravity
//! subtracts `50` (that is, `0.05` units) from the vertical velocity each
//! tick, and a bounce keeps `7/10` of the impact speed. All scalings
//! round toward zero, as integer division of magnitudes does.

use vstd::prelude::*;

verus! {

/// Fixed-point scale: one simulation-space unit, in raw `i64` steps.
pub const SCALE: i64 = 1000;

/// Lower horizontal bound.
pub const X_MIN: i64 = 0;

/// Upper horizontal bound (1000 units).
pub const X_MAX: i64 = 1_000_000;

/// Lower vertical bound, off which the ball bounces.
pub const Y_MIN: i64 = 0;

/// Upper vertical bound (500 units). Declared for the simulation space,
/// but the stepper deliberately has no ceiling handling: gravity only
/// pulls the ball down, and the omission is part of its contract.
pub const Y_MAX: i64 = 500_000;

/// Numerator of the per-tick velocity damping factor.
pub const DAMP_NUM: i64 = 99;

/// Denominator of the per-tick velocity damping factor.
pub const DAMP_DEN: i64 = 100;

/// Gravity: raw fixed-point steps subtracted from `dy` each tick.
pub const GRAVITY: i64 = 50;

/// Numerator of the restitution coefficient applied on a bounce.
pub const REST_NUM: i64 = 7;

/// Denominator of the restitution coefficient applied on a bounce.
pub const REST_DEN: i64 = 10;

/// Largest magnitude a field of a ball (or a time delta) may have on
/// entry to the stepper: 2^53 raw steps. The bound exists only so that
/// the intermediate products and sums of one tick fit in an `i64`.
pub const LIMIT: i64 = 0x20_0000_0000_0000;

/// The mathematical state of a ball: the five fields as unbounded
/// integers.
pub ghost struct BallView {
    pub x: int,
    pub y: int,
    pub dx: int,
    pub dy: int,
    pub ts: int,
}

impl BallView {
    /// Every field fits the stepper's machine limit.
    pub open spec fn in_range(self) -> bool {
        &&& -LIMIT <= self.x <= LIMIT
        &&& -LIMIT <= self.y <= LIMIT
        &&& -LIMIT <= self.dx <= LIMIT
        &&& -LIMIT <= self.dy <= LIMIT
        &&& -LIMIT <= self.ts <= LIMIT
    }
}

/// A ball: position `(x, y)`, velocity `(dx, dy)` and the elapsed-time
/// accumulator `ts`. The velocity and the accumulator are private to the
/// stepping logic; they can be read but not mutated from outside.
#[derive(Clone, Copy)]
pub struct Ball {
    pub x: i64,
    pub y: i64,
    dx: i64,
    dy: i64,
    ts: i64,
}

impl View for Ball {
    type V = BallView;

    closed spec fn view(&self) -> BallView {
        BallView {
            x: self.x as int,
            y: self.y as int,
            dx: self.dx as int,
            dy: self.dy as int,
            ts: self.ts as int,
        }
    }
}

/// Integer division that rounds toward zero, the rounding every
/// fixed-point scaling of the stepper uses. `d` must be positive.
pub open spec fn div_toward_zero(a: int, d: int) -> int {
    if a >= 0 {
        a / d
    } else {
        -((-a) / d)
    }
}

/// One application of the damping factor to a velocity component.
pub open spec fn damped(v: int) -> int {
    div_toward_zero(v * DAMP_NUM, DAMP_DEN as int)
}

/// Exec counterpart of [`damped`].
fn damp(v: i64) -> (r: i64)
    requires
        -LIMIT <= v <= LIMIT,
    ensures
        r == damped(v as int),
        -LIMIT <= r <= LIMIT,
{
    if v >= 0 {
        (v * DAMP_NUM) / DAMP_DEN
    } else {
        -((-v * DAMP_NUM) / DAMP_DEN)
    }
}

/// One application of the restitution coefficient to an impact speed.
pub open spec fn restituted(v: int) -> int {
    div_toward_zero(v * REST_NUM, REST_DEN as int)
}

/// Exec counterpart of [`restituted`].
fn restitute(v: i64) -> (r: i64)
    requires
        -3 * LIMIT <= v <= 3 * LIMIT,
    ensures
        r == restituted(v as int),
        -3 * LIMIT <= r <= 3 * LIMIT,
{
    if v >= 0 {
        (v * REST_NUM) / REST_DEN
    } else {
        -((-v * REST_NUM) / REST_DEN)
    }
}

/// Whether a horizontal position lies strictly outside the bounds. A
/// position exactly on a bound is in bounds, so a ball clamped on one
/// tick takes a normal tick on the next call.
pub open spec fn out_of_bounds(x: int) -> bool {
    x < X_MIN || x > X_MAX
}

/// The horizontal position snapped into `[X_MIN, X_MAX]`.
pub open spec fn clamped(x: int) -> int {
    if x < X_MIN {
        X_MIN as int
    } else if x > X_MAX {
        X_MAX as int
    } else {
        x
    }
}

/// The state after one tick, as a mathematical function.
///
/// An out-of-bounds horizontal position short-circuits the tick: `x` is
/// clamped and every other field is left as it was. Otherwise the
/// accumulator advances by `dt`, both velocity components are damped,
/// gravity pulls `dy` down, the position moves by the new velocity, and
/// a vertical position that fell below `Y_MIN` is mirrored back across
/// the bound while the vertical velocity is inverted and reduced by the
/// restitution coefficient. There is no corresponding handling at
/// `Y_MAX`.
pub open spec fn step_spec(b: BallView, dt: int) -> BallView {
    if out_of_bounds(b.x) {
        BallView { x: clamped(b.x), ..b }
    } else {
        let ts2 = b.ts + dt;
        let dx2 = damped(b.dx);
        let dy2 = damped(b.dy) - GRAVITY;
        let x2 = b.x + dx2;
        let y2 = b.y + dy2;
        if y2 < Y_MIN {
            BallView {
                x: x2,
                y: Y_MIN + (Y_MIN - y2),
                dx: dx2,
                dy: restituted(-dy2),
                ts: ts2,
            }
        } else {
            BallView { x: x2, y: y2, dx: dx2, dy: dy2, ts: ts2 }
        }
    }
}

impl Ball {
    /// A ball at position `(x, y)` with velocity `(dx, dy)` and elapsed
    /// time `ts`, all in raw fixed-point steps.
    pub fn new(x: i64, y: i64, dx: i64, dy: i64, ts: i64) -> (b: Ball)
        ensures
            b@ == (BallView {
                x: x as int,
                y: y as int,
                dx: dx as int,
                dy: dy as int,
                ts: ts as int,
            }),
    {
        Ball { x, y, dx, dy, ts }
    }

    /// The horizontal position.
    pub fn x(&self) -> (r: i64)
        ensures
            r == self@.x,
    {
        self.x
    }

    /// The vertical position.
    pub fn y(&self) -> (r: i64)
        ensures
            r == self@.y,
    {
        self.y
    }

    /// The horizontal velocity component.
    pub fn dx(&self) -> (r: i64)
        ensures
            r == self@.dx,
    {
        self.dx
    }

    /// The vertical velocity component.
    pub fn dy(&self) -> (r: i64)
        ensures
            r == self@.dy,
    {
        self.dy
    }

    /// The elapsed-time accumulator.
    pub fn ts(&self) -> (r: i64)
        ensures
            r == self@.ts,
    {
        self.ts
    }
}

/// One simulation tick: consumes the ball and returns its next state,
/// exactly [`step_spec`] of the old state.
pub fn step(ball: Ball, dt: i64) -> (r: Ball)
    requires
        ball@.in_range(),
        -LIMIT <= dt <= LIMIT,
    ensures
        r@ == step_spec(ball@, dt as int),
{
    let Ball { x, y, dx, dy, ts } = ball;

    if x < X_MIN || x > X_MAX {
        let cx = if x < X_MIN {
            X_MIN
        } else {
            X_MAX
        };
        return Ball { x: cx, y, dx, dy, ts };
    }

    let ts2 = ts + dt;
    let dx2 = damp(dx);
    let dy2 = damp(dy) - GRAVITY;
    let x2 = x + dx2;
    let y2 = y + dy2;

    if y2 < Y_MIN {
        Ball { x: x2, y: Y_MIN + (Y_MIN - y2), dx: dx2, dy: restitute(-dy2), ts: ts2 }
    } else {
        Ball { x: x2, y: y2, dx: dx2, dy: dy2, ts: ts2 }
    }
}

/// An out-of-bounds tick only clamps: for a ball whose horizontal
/// position lies strictly outside `[X_MIN, X_MAX]`, one tick snaps `x`
/// into the bounds and leaves `y`, the velocity and the accumulator
/// exactly as they were. The clamped position is in bounds, so the very
/// next tick is a normal one: the frozen state lasts a single call.
pub proof fn lemma_out_of_bounds_tick(b: BallView, dt: int)
    requires
        out_of_bounds(b.x),
    ensures
        step_spec(b, dt).x == clamped(b.x),
        X_MIN <= step_spec(b, dt).x <= X_MAX,
        !out_of_bounds(step_spec(b, dt).x),
        step_spec(b, dt).y == b.y,
        step_spec(b, dt).dx == b.dx,
        step_spec(b, dt).dy == b.dy,
        step_spec(b, dt).ts == b.ts,
{
}

/// A normal tick without a bounce: for a ball in horizontal bounds whose
/// new vertical position does not fall below `Y_MIN`, one tick advances
/// the accumulator by `dt`, damps both velocity components, applies
/// gravity to the vertical one, and moves the position by the new
/// velocity.
pub proof fn lemma_normal_tick(b: BallView, dt: int)
    requires
        !out_of_bounds(b.x),
        b.y + (damped(b.dy) - GRAVITY) >= Y_MIN,
    ensures
        step_spec(b, dt).ts == b.ts + dt,
        step_spec(b, dt).dx == damped(b.dx),
        step_spec(b, dt).dy == damped(b.dy) - GRAVITY,
        step_spec(b, dt).x == b.x + damped(b.dx),
        step_spec(b, dt).y == b.y + (damped(b.dy) - GRAVITY),
{
}

/// The bounce is mirror-and-dampen, exactly: for a ball in horizontal
/// bounds whose integrated vertical position `y + dy` (with `dy` already
/// damped and under gravity) falls below `Y_MIN`, the resulting vertical
/// position is the reflection `-(y + dy)` across the bound, and the
/// resulting vertical velocity is the inverted, restituted `-dy * 7/10`.
pub proof fn lemma_bounce_tick(b: BallView, dt: int)
    requires
        !out_of_bounds(b.x),
        b.y + (damped(b.dy) - GRAVITY) < Y_MIN,
    ensures
        step_spec(b, dt).y == -(b.y + (damped(b.dy) - GRAVITY)),
        step_spec(b, dt).dy == restituted(-(damped(b.dy) - GRAVITY)),
        step_spec(b, dt).ts == b.ts + dt,
        step_spec(b, dt).dx == damped(b.dx),
        step_spec(b, dt).x == b.x + damped(b.dx),
{
}

/// Stepping is never idempotent for a nonzero time delta: every tick
/// with `dt != 0` changes the state. An out-of-bounds tick moves `x`
/// strictly (the clamp snaps it onto a bound it was strictly beyond),
/// and a normal tick advances the accumulator by `dt`. Repeated stepping
/// with the same nonzero `dt` therefore produces a different state on
/// every call; with `dt == 0` a state can reproduce itself exactly.
pub proof fn lemma_step_never_fixed(b: BallView, dt: int)
    requires
        dt != 0,
    ensures
        step_spec(b, dt) != b,
{
    if out_of_bounds(b.x) {
        assert(step_spec(b, dt).x != b.x);
    } else {
        assert(step_spec(b, dt).ts != b.ts);
    }
}

} // verus!

