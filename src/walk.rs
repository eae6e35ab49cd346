use rand::Rng;
use vstd::prelude::*;

verus! {

/// Relies on rand::thread_rng and rand::Rng::gen_range over `lo..=hi`: a
/// uniform draw that lies in the inclusive range (it panics on an empty one).
#[verifier::external_body]
fn draw_between(lo: i64, hi: i64) -> (r: i64)
    requires
        lo <= hi,
    ensures
        lo <= r <= hi,
{
    rand::thread_rng().gen_range(lo..=hi)
}

pub open spec fn min_of(a: int, b: int) -> int {
    if a <= b { a } else { b }
}

pub open spec fn max_of(a: int, b: int) -> int {
    if a <= b { b } else { a }
}

/// The lowest value a walk step may produce: the bounds are taken in either
/// order, the current value is first brought inside them, and a negative
/// delta counts as zero.
pub open spec fn walk_low(current: int, delta: int, min: int, max: int) -> int {
    let lo = min_of(min, max);
    let hi = max_of(min, max);
    let c = max_of(lo, min_of(hi, current));
    max_of(lo, c - max_of(delta, 0))
}

/// The highest value a walk step may produce (see `walk_low`).
pub open spec fn walk_high(current: int, delta: int, min: int, max: int) -> int {
    let lo = min_of(min, max);
    let hi = max_of(min, max);
    let c = max_of(lo, min_of(hi, current));
    min_of(hi, c + max_of(delta, 0))
}

/// `v` is a possible outcome of one walk step from `current`.
pub open spec fn walk_step_ok(v: int, current: int, delta: int, min: int, max: int) -> bool {
    walk_low(current, delta, min, max) <= v <= walk_high(current, delta, min, max)
}

/// A uniform draw between `min` and `max`, taken in either order.
pub fn random_in_range(min: i64, max: i64) -> (r: i64)
    ensures
        min_of(min as int, max as int) <= r <= max_of(min as int, max as int),
{
    if min <= max {
        draw_between(min, max)
    } else {
        draw_between(max, min)
    }
}

/// The range one step from `current` may land in, as `(low, high)`; never
/// empty, and always within the bounds.
pub fn walk_window(current: i64, delta: i64, min: i64, max: i64) -> (r: (i64, i64))
    ensures
        r.0 == walk_low(current as int, delta as int, min as int, max as int),
        r.1 == walk_high(current as int, delta as int, min as int, max as int),
        min_of(min as int, max as int) <= r.0 <= r.1 <= max_of(min as int, max as int),
{
    let lo: i64 = if min <= max { min } else { max };
    let hi: i64 = if min <= max { max } else { min };
    let c: i64 = if current < lo { lo } else if current > hi { hi } else { current };
    let d: i128 = if delta < 0 { 0 } else { delta as i128 };
    let low: i128 = if (c as i128) - d < lo as i128 { lo as i128 } else { (c as i128) - d };
    let high: i128 = if (c as i128) + d > hi as i128 { hi as i128 } else { (c as i128) + d };
    (low as i64, high as i64)
}

/// One bounded step from `current`: a uniform draw within `delta` of it and
/// within the bounds.
pub fn saturating_random_in_range(current: i64, delta: i64, min: i64, max: i64) -> (r: i64)
    ensures
        walk_step_ok(r as int, current as int, delta as int, min as int, max as int),
        min_of(min as int, max as int) <= r <= max_of(min as int, max as int),
{
    let (low, high) = walk_window(current, delta, min, max);
    draw_between(low, high)
}

/// How one scalar of the simulation moves: at most `max_delta` per step,
/// always within `[min_value, max_value]`.
#[derive(Clone, Copy, Debug, PartialEq, Eq, Structural)]
pub struct ColorParamConfig {
    pub max_delta: i64,
    pub min_value: i64,
    pub max_value: i64,
}

impl ColorParamConfig {
    /// A first value, uniform over the bounds.
    pub fn sample(&self) -> (r: i64)
        ensures
            min_of(self.min_value as int, self.max_value as int) <= r <= max_of(
                self.min_value as int,
                self.max_value as int,
            ),
            self.min_value <= self.max_value ==> self.min_value <= r <= self.max_value,
    {
        random_in_range(self.min_value, self.max_value)
    }

    /// The next value after `current`.
    pub fn step(&self, current: i64) -> (r: i64)
        ensures
            walk_step_ok(
                r as int,
                current as int,
                self.max_delta as int,
                self.min_value as int,
                self.max_value as int,
            ),
            self.min_value <= self.max_value ==> self.min_value <= r <= self.max_value,
    {
        saturating_random_in_range(current, self.max_delta, self.min_value, self.max_value)
    }
}

} // verus!
