//! The signal cell and the fixed-point first-order lag.
//!
//! A [`Shared`] cell holds the latest committed value of a signal together
//! with a change version; consumers remember the last version they saw and
//! poll [`Shared::has_changed`] once per tick, so every commit is observed by
//! every consumer independently and only the latest value is ever read.

use vstd::prelude::*;

verus! {

/// One whole unit in the fixed-point encoding: an `i64` quantity counts
/// millionths of the underlying unit (positions, speeds, seconds, volts).
pub const SCALE: i64 = 1_000_000;

/// Largest magnitude accepted by [`exponential_approach`]; keeps the
/// intermediate product `factor * distance` inside `i64`.
pub const APPROACH_LIMIT: i64 = 1_000_000_000_000;

/// One step of the first-order lag: move `old_value` toward `target` by the
/// fraction `factor / SCALE` of the remaining distance, rounding the step
/// away from zero so that any positive factor makes strict progress.
pub open spec fn approach_step(old_value: int, factor: int, target: int) -> int {
    if target >= old_value {
        old_value + (factor * (target - old_value) + (SCALE - 1) as int) / (SCALE as int)
    } else {
        old_value - (factor * (old_value - target) + (SCALE - 1) as int) / (SCALE as int)
    }
}

/// Discrete form of the exponential (first-order lag) approach: the caller
/// turns the continuous law `1 - e^(-exponent * dt)` into `factor`, a
/// per-tick blend in `[0, SCALE]`, and the new value moves that fraction of
/// the way from `old_value` to `target`.  At the target it stays exactly at
/// the target, and it never overshoots.
pub fn exponential_approach(old_value: i64, factor: i64, target: i64) -> (new_value: i64)
    requires
        0 <= factor <= SCALE,
        -APPROACH_LIMIT <= old_value <= APPROACH_LIMIT,
        -APPROACH_LIMIT <= target <= APPROACH_LIMIT,
    ensures
        new_value == approach_step(old_value as int, factor as int, target as int),
        old_value == target ==> new_value == target,
        old_value < target ==> old_value <= new_value <= target,
        old_value > target ==> target <= new_value <= old_value,
        factor >= 1 && old_value < target ==> old_value < new_value,
        factor >= 1 && old_value > target ==> new_value < old_value,
{
    if target >= old_value {
        let d: i64 = target - old_value;
        proof {
            lemma_approach_step_bounds(factor as int, d as int);
        }
        let step: i64 = (factor * d + (SCALE - 1)) / SCALE;
        old_value + step
    } else {
        let d: i64 = old_value - target;
        proof {
            lemma_approach_step_bounds(factor as int, d as int);
        }
        let step: i64 = (factor * d + (SCALE - 1)) / SCALE;
        old_value - step
    }
}

/// The rounded step is at most the remaining distance and, for any positive
/// factor, at least one count; the intermediate product stays inside `i64`.
proof fn lemma_approach_step_bounds(factor: int, d: int)
    requires
        0 <= factor <= SCALE,
        0 <= d <= 2 * (APPROACH_LIMIT as int),
    ensures
        0 <= factor * d <= 2_000_000_000_000_000_000,
        0 <= (factor * d + (SCALE - 1) as int) / (SCALE as int) <= d,
        factor >= 1 && d >= 1 ==> (factor * d + (SCALE - 1) as int) / (SCALE as int) >= 1,
{
    let s = SCALE as int;
    let num = factor * d + (s - 1);
    assert(0 <= factor * d <= s * d && s * d <= 2_000_000_000_000_000_000) by (nonlinear_arith)
        requires 0 <= factor <= s, 0 <= d <= 2_000_000_000_000, s == 1_000_000;
    vstd::arithmetic::div_mod::lemma_div_is_ordered(0, num, s);
    vstd::arithmetic::div_mod::lemma_div_is_ordered(num, s * d + (s - 1), s);
    assert((s * d + (s - 1)) / s == d) by {
        vstd::arithmetic::div_mod::lemma_fundamental_div_mod_converse(
            s * d + (s - 1), s, d, s - 1);
    }
    if factor >= 1 && d >= 1 {
        assert(factor * d >= 1) by (nonlinear_arith)
            requires factor >= 1, d >= 1;
        vstd::arithmetic::div_mod::lemma_div_is_ordered(s, num, s);
        assert(s / s == 1) by {
            vstd::arithmetic::div_mod::lemma_fundamental_div_mod_converse(s, s, 1, 0);
        }
    }
}

/// The approach is idempotent at the target: once the value equals the
/// target it stays there, for every blend factor and hence for every
/// exponent and tick length.
pub proof fn lemma_exponential_approach_idempotent(value: int, factor: int)
    requires
        0 <= factor <= SCALE,
    ensures
        approach_step(value, factor, value) == value,
{
    vstd::arithmetic::div_mod::lemma_fundamental_div_mod_converse(
        (SCALE - 1) as int, SCALE as int, 0, (SCALE - 1) as int);
}

/// The approach never overshoots and, off the target, strictly shrinks the
/// distance to it: one step from `old_value` lands strictly between
/// `old_value` and the target (inclusive of the target) whenever the blend
/// factor is positive.
pub proof fn lemma_exponential_approach_no_overshoot(old_value: int, factor: int, target: int)
    requires
        1 <= factor <= SCALE,
        -APPROACH_LIMIT <= old_value <= APPROACH_LIMIT,
        -APPROACH_LIMIT <= target <= APPROACH_LIMIT,
        old_value != target,
    ensures
        abs_diff(approach_step(old_value, factor, target), target)
            < abs_diff(old_value, target),
        old_value < target ==> old_value < approach_step(old_value, factor, target) <= target,
        old_value > target ==> target <= approach_step(old_value, factor, target) < old_value,
{
    if target >= old_value {
        lemma_approach_step_bounds(factor, target - old_value);
    } else {
        lemma_approach_step_bounds(factor, old_value - target);
    }
}

/// Distance between two points of the fixed-point axis.
pub open spec fn abs_diff(a: int, b: int) -> int {
    if a >= b {
        a - b
    } else {
        b - a
    }
}

/// `a * b / SCALE` with the division rounding toward zero, the product of a
/// signed quantity with a non-negative fixed-point coefficient.
pub open spec fn mul_div_scale_spec(a: int, b: int) -> int {
    if a >= 0 {
        (a * b) / (SCALE as int)
    } else {
        -((-a * b) / (SCALE as int))
    }
}

/// `a * b / SCALE` rounding toward zero: scaling a signed quantity (a speed,
/// a displacement per second) by a non-negative fixed-point coefficient (a
/// tick length, a reflection coefficient).
pub fn mul_div_scale(a: i64, b: i64) -> (r: i64)
    requires
        -1_000_000_000 <= a <= 1_000_000_000,
        0 <= b <= 10_000_000,
    ensures
        r == mul_div_scale_spec(a as int, b as int),
        -10_000_000_000 <= r <= 10_000_000_000,
        a >= 0 ==> 0 <= r,
        a <= 0 ==> r <= 0,
        b <= SCALE ==> -1_000_000_000 <= r <= 1_000_000_000
            && (a >= 0 ==> r <= a) && (a <= 0 ==> a <= r),
        b == SCALE ==> r == a,
        b == 0 ==> r == 0,
{
    if a >= 0 {
        proof {
            lemma_mul_div_scale_bounds(a as int, b as int);
        }
        (a * b) / SCALE
    } else {
        proof {
            lemma_mul_div_scale_bounds(-(a as int), b as int);
        }
        let m: i64 = -a;
        let x: i64 = (m * b) / SCALE;
        assert(x == (-(a as int) * b) / (SCALE as int));
        -x
    }
}

/// Bounds of the scaled product of non-negative operands: it stays inside
/// `i64`, it never exceeds the first operand while the coefficient is at
/// most one unit, and a coefficient of exactly one unit returns the operand.
proof fn lemma_mul_div_scale_bounds(a: int, b: int)
    requires
        0 <= a <= 1_000_000_000,
        0 <= b <= 10_000_000,
    ensures
        0 <= a * b <= 10_000_000_000_000_000,
        0 <= (a * b) / (SCALE as int) <= 10_000_000_000,
        b <= SCALE ==> (a * b) / (SCALE as int) <= a,
        b == SCALE ==> (a * b) / (SCALE as int) == a,
        b == 0 ==> (a * b) / (SCALE as int) == 0,
{
    let s = SCALE as int;
    assert(0 <= a * b <= 10_000_000_000_000_000) by (nonlinear_arith)
        requires 0 <= a <= 1_000_000_000, 0 <= b <= 10_000_000;
    vstd::arithmetic::div_mod::lemma_div_is_ordered(0, a * b, s);
    vstd::arithmetic::div_mod::lemma_div_is_ordered(a * b, 10_000_000_000_000_000, s);
    if b <= SCALE {
        assert(a * b <= a * s) by (nonlinear_arith)
            requires 0 <= a, 0 <= b <= s;
        vstd::arithmetic::div_mod::lemma_div_is_ordered(a * b, a * s, s);
        assert((a * s) / s == a) by {
            vstd::arithmetic::div_mod::lemma_fundamental_div_mod_converse(a * s, s, a, 0);
        }
    }
    if b == 0 {
        assert(a * b == 0) by (nonlinear_arith)
            requires b == 0;
    }
}

/// A broadcast signal cell: the latest committed value plus a change
/// version.  Exactly one component owns the cell mutably; every reader keeps
/// the last version it saw and compares it against [`Shared::version`], so
/// each commit is seen once by each reader and a slow reader never blocks a
/// fast one.
pub struct Shared<T> {
    /// Latest committed value.
    pub value: T,
    /// Bumped on every commit; never equal to the version before the commit.
    pub version: u64,
}

impl<T> Shared<T> {
    /// A fresh cell holding `init`; no commit has happened yet.
    pub fn new(init: T) -> (s: Self)
        ensures
            s.value == init,
            s.version == 0,
    {
        Shared { value: init, version: 0 }
    }

    /// Version of the cell after a commit on top of `v`.
    pub open spec fn next_version(v: u64) -> u64 {
        if v == u64::MAX {
            0
        } else {
            (v + 1) as u64
        }
    }

    /// Store a value and notify: the version moves even if the value is
    /// unchanged, so every observer sees the commit.
    pub fn set(&mut self, v: T)
        ensures
            final(self).value == v,
            final(self).version == Self::next_version(old(self).version),
            final(self).version != old(self).version,
    {
        self.value = v;
        if self.version == u64::MAX {
            self.version = 0;
        } else {
            self.version = self.version + 1;
        }
    }

    /// Read access without committing anything.
    pub fn borrow(&self) -> (v: &T)
        ensures
            v == &self.value,
    {
        &self.value
    }

    /// Current change version, for observers to remember.
    pub fn version(&self) -> (v: u64)
        ensures
            v == self.version,
    {
        self.version
    }

    /// Whether a commit has happened since an observer last looked.
    pub fn has_changed(&self, last_seen: u64) -> (r: bool)
        ensures
            r == (self.version != last_seen),
    {
        self.version != last_seen
    }
}

impl<T: Copy> Shared<T> {
    /// The latest committed value.
    pub fn get(&self) -> (v: T)
        ensures
            v == self.value,
    {
        self.value
    }
}

impl Shared<bool> {
    /// Store a value and notify only if it differs from the current one:
    /// the version moves exactly when the value changes.
    pub fn set_only_on_change(&mut self, v: bool)
        ensures
            final(self).value == v,
            v == old(self).value ==> *final(self) == *old(self),
            v != old(self).value ==> final(self).version
                == Self::next_version(old(self).version),
    {
        if self.value != v {
            self.set(v);
        }
    }
}

impl Shared<i64> {
    /// Store a value and notify only if it differs from the current one:
    /// the version moves exactly when the value changes.
    pub fn set_only_on_change(&mut self, v: i64)
        ensures
            final(self).value == v,
            v == old(self).value ==> *final(self) == *old(self),
            v != old(self).value ==> final(self).version
                == Self::next_version(old(self).version),
    {
        if self.value != v {
            self.set(v);
        }
    }

    /// The value gated by a switch: the cell's value while `b` holds, zero
    /// otherwise.
    pub fn switch(&self, b: bool) -> (r: i64)
        ensures
            r == if b { self.value } else { 0i64 },
    {
        if b {
            self.value
        } else {
            0
        }
    }
}

/// Pull-model analogue of an on-change subscription: anything with a change
/// version an observer can poll.
pub trait OnChange {
    /// The current change version.
    spec fn current_version(&self) -> u64;

    /// Whether a commit happened since `last_seen`.
    fn has_changed_since(&self, last_seen: u64) -> (r: bool)
        ensures
            r == (self.current_version() != last_seen);
}

impl<T> OnChange for Shared<T> {
    open spec fn current_version(&self) -> u64 {
        self.version
    }

    fn has_changed_since(&self, last_seen: u64) -> (r: bool) {
        self.version != last_seen
    }
}

/// One shared observer over several cells: true when any of the cells has
/// committed since the observer last looked, which is when a consumer
/// watching all of them recomputes.
pub fn multiple_on_change(current: &Vec<u64>, seen: &Vec<u64>) -> (r: bool)
    requires
        current.len() == seen.len(),
    ensures
        r == exists|i: int| 0 <= i < current.len() && current[i] != seen[i],
{
    let n: usize = current.len();
    let mut i: usize = 0;
    while i < n
        invariant
            0 <= i <= n,
            n == current.len() == seen.len(),
            forall|j: int| 0 <= j < i ==> current[j] == seen[j],
        decreases n - i,
    {
        if current[i] != seen[i] {
            return true;
        }
        i = i + 1;
    }
    false
}

} // verus!
