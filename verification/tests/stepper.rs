use hello_wasm::ball::Ball;
use hello_wasm::ball::step;

// One raw step is a thousandth of a simulation-space unit, so 500.0
// units are 500_000 raw steps and a time delta of 0.016 is 16.

#[test]
fn normal_tick() {
    // In bounds, no imminent bounce: the accumulator advances by dt,
    // the velocities are damped (and gravity pulls dy down), and the
    // position moves by the new velocity.
    let b = Ball::new(500_000, 250_000, 1_000, 0, 0);
    let r = step(b, 16);
    assert_eq!(r.ts(), 16);
    assert_eq!(r.dx(), 990);
    assert_eq!(r.dy(), -50);
    assert_eq!(r.x(), 500_990);
    assert_eq!(r.y(), 249_950);
}

#[test]
fn clamp_below_lower_bound() {
    // x = -5.0 is out of bounds: one tick clamps it to 0.0 and leaves
    // every other field untouched.
    let b = Ball::new(-5_000, 123, 456, -789, 10);
    let r = step(b, 16);
    assert_eq!(r.x(), 0);
    assert_eq!(r.y(), 123);
    assert_eq!(r.dx(), 456);
    assert_eq!(r.dy(), -789);
    assert_eq!(r.ts(), 10);
}

#[test]
fn clamp_above_upper_bound() {
    // x = 1500.0 is clamped to the upper bound 1000.0.
    let b = Ball::new(1_500_000, 250_000, 0, 0, 0);
    let r = step(b, 16);
    assert_eq!(r.x(), 1_000_000);
    assert_eq!(r.y(), 250_000);
    assert_eq!(r.ts(), 0);
}

#[test]
fn bounce_mirrors_and_dampens() {
    // y = 1.0 with dy = -2.0: after damping and gravity dy becomes
    // -2.030, the integrated y = -1.030 falls below the bound, so y is
    // mirrored to 1.030 and dy becomes 2.030 * 7/10 = 1.421.
    let b = Ball::new(500_000, 1_000, 0, -2_000, 0);
    let r = step(b, 16);
    assert_eq!(r.y(), 1_030);
    assert_eq!(r.dy(), 1_421);
    assert_eq!(r.x(), 500_000);
    assert_eq!(r.dx(), 0);
    assert_eq!(r.ts(), 16);
}

#[test]
fn landing_exactly_on_the_bound_does_not_bounce() {
    // The bounce test is strict: an integrated y of exactly 0.0 stays.
    let b = Ball::new(500_000, 50, 0, 0, 0);
    let r = step(b, 16);
    assert_eq!(r.y(), 0);
    assert_eq!(r.dy(), -50);
}

#[test]
fn position_on_a_bound_takes_a_normal_tick() {
    // The out-of-bounds test is strict, so x exactly on a bound steps
    // normally; a clamped ball is frozen for a single call only.
    let frozen = step(Ball::new(-5_000, 250_000, 1_000, 0, 0), 16);
    assert_eq!(frozen.x(), 0);
    assert_eq!(frozen.ts(), 0);
    let moving = step(frozen, 16);
    assert_eq!(moving.ts(), 16);
    assert_eq!(moving.x(), 990);
}

#[test]
fn stepping_is_not_idempotent() {
    // Repeated stepping with the same nonzero dt changes the state on
    // every call: damping never reaches a fixed point while gravity
    // keeps feeding dy, and the accumulator always advances.
    let b0 = Ball::new(500_000, 250_000, 1_000, 0, 0);
    let b1 = step(b0, 16);
    let b2 = step(b1, 16);
    let b3 = step(b2, 16);
    let s1 = (b1.x(), b1.y(), b1.dx(), b1.dy(), b1.ts());
    let s2 = (b2.x(), b2.y(), b2.dx(), b2.dy(), b2.ts());
    let s3 = (b3.x(), b3.y(), b3.dx(), b3.dy(), b3.ts());
    assert_ne!(s1, s2);
    assert_ne!(s2, s3);
}
