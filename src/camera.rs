//! The follow camera's target: every tick it moves toward the followed
//! position by an exponential blend, keeping a fixed fraction of the gap on
//! each axis, and it jumps straight to a position only when reset.
//!
//! Positions are integers in millimetres. A fraction kept of
//! `keep_num / keep_den` per tick gives a half-life of `h` ticks where
//! `(keep_num / keep_den)^h == 1/2`.
use vstd::prelude::*;

verus! {

/// A point in the world, in millimetres.
#[derive(Clone, Copy, Debug, PartialEq, Eq, Structural)]
pub struct Point {
    pub x: i32,
    pub y: i32,
    pub z: i32,
}

/// The smoothed camera target and the fraction of the gap it keeps per tick.
#[derive(Clone, Copy, Debug, PartialEq, Eq, Structural)]
pub struct CameraRig {
    pub target: Point,
    pub keep_num: u32,
    pub keep_den: u32,
}

/// The integer absolute value.
pub open spec fn abs(v: int) -> int {
    if v < 0 {
        -v
    } else {
        v
    }
}

/// `base` to the power `exp`.
pub open spec fn power(base: int, exp: nat) -> int
    decreases exp,
{
    if exp == 0 {
        1
    } else {
        base * power(base, (exp - 1) as nat)
    }
}

/// One tick of smoothing on one axis: the new gap to `goal` is the old
/// gap scaled by `num / den`, rounded toward zero.
pub open spec fn smooth_axis(current: int, goal: int, num: int, den: int) -> int {
    if goal >= current {
        goal - (goal - current) * num / den
    } else {
        goal + (current - goal) * num / den
    }
}

/// The value on one axis after `ticks` ticks of tracking a fixed position.
pub open spec fn smoothed_after(current: int, goal: int, num: int, den: int, ticks: nat) -> int
    decreases ticks,
{
    if ticks == 0 {
        current
    } else {
        smooth_axis(smoothed_after(current, goal, num, den, (ticks - 1) as nat), goal, num, den)
    }
}

/// A whole point after one tick of smoothing toward `goal`.
pub open spec fn smooth_point(current: Point, goal: Point, num: int, den: int) -> Point {
    Point {
        x: smooth_axis(current.x as int, goal.x as int, num, den) as i32,
        y: smooth_axis(current.y as int, goal.y as int, num, den) as i32,
        z: smooth_axis(current.z as int, goal.z as int, num, den) as i32,
    }
}

/// One tick's smoothing stays between the current value and the goal one.
pub proof fn smooth_axis_between(current: int, goal: int, num: int, den: int)
    requires
        0 <= num < den,
    ensures
        current <= goal ==> current <= smooth_axis(current, goal, num, den) <= goal,
        goal <= current ==> goal <= smooth_axis(current, goal, num, den) <= current,
        abs(goal - smooth_axis(current, goal, num, den)) == abs(goal - current) * num / den,
{
    let g = abs(goal - current);
    assert(0 <= g * num / den <= g) by (nonlinear_arith)
        requires
            g >= 0,
            0 <= num < den,
    ;
}

/// Smooths one axis.
fn smooth_axis_exec(current: i32, goal: i32, num: u32, den: u32) -> (r: i32)
    requires
        num < den,
    ensures
        r == smooth_axis(current as int, goal as int, num as int, den as int),
{
    proof {
        smooth_axis_between(current as int, goal as int, num as int, den as int);
    }
    if goal >= current {
        let gap: u64 = (goal as i64 - current as i64) as u64;
        assert(gap * num <= 0xffff_ffff_u64 * 0xffff_ffff_u64) by (nonlinear_arith)
            requires
                gap <= 0xffff_ffff_u64,
                num <= 0xffff_ffff_u64,
        ;
        let kept: u64 = gap * (num as u64) / (den as u64);
        (goal as i64 - kept as i64) as i32
    } else {
        let gap: u64 = (current as i64 - goal as i64) as u64;
        assert(gap * num <= 0xffff_ffff_u64 * 0xffff_ffff_u64) by (nonlinear_arith)
            requires
                gap <= 0xffff_ffff_u64,
                num <= 0xffff_ffff_u64,
        ;
        let kept: u64 = gap * (num as u64) / (den as u64);
        (goal as i64 + kept as i64) as i32
    }
}

impl CameraRig {
    /// The kept fraction is below one, so the rig closes in on its target.
    pub open spec fn wf(&self) -> bool {
        self.keep_num < self.keep_den
    }

    /// A rig at `start` keeping `keep_num / keep_den` of the gap per tick;
    /// `None` unless that fraction is below one.
    pub fn new(start: Point, keep_num: u32, keep_den: u32) -> (r: Option<CameraRig>)
        ensures
            r is Some <==> keep_num < keep_den,
            r matches Some(rig) ==> rig.wf() && rig.target == start && rig.keep_num == keep_num
                && rig.keep_den == keep_den,
    {
        if keep_num < keep_den {
            Some(CameraRig { target: start, keep_num, keep_den })
        } else {
            None
        }
    }

    /// One tick: moves the target toward `goal` on each axis.
    pub fn track(&mut self, goal: Point)
        requires
            old(self).wf(),
        ensures
            final(self).wf(),
            final(self).keep_num == old(self).keep_num,
            final(self).keep_den == old(self).keep_den,
            final(self).target == smooth_point(
                old(self).target,
                goal,
                old(self).keep_num as int,
                old(self).keep_den as int,
            ),
    {
        let x = smooth_axis_exec(self.target.x, goal.x, self.keep_num, self.keep_den);
        let y = smooth_axis_exec(self.target.y, goal.y, self.keep_num, self.keep_den);
        let z = smooth_axis_exec(self.target.z, goal.z, self.keep_num, self.keep_den);
        self.target = Point { x, y, z };
    }

    /// Places the target at `position` at once, as on entering a scene.
    pub fn reset(&mut self, position: Point)
        ensures
            final(self).target == position,
            final(self).keep_num == old(self).keep_num,
            final(self).keep_den == old(self).keep_den,
    {
        self.target = position;
    }
}

/// Exponential decay: after `ticks` ticks of tracking a fixed position the
/// gap on an axis is at most `(num / den)^ticks` of the first gap, whichever
/// side the target started on.
pub proof fn smoothing_converges(current: int, goal: int, num: int, den: int, ticks: nat)
    requires
        0 <= num < den,
    ensures
        abs(goal - smoothed_after(current, goal, num, den, ticks)) * power(den, ticks) <= abs(
            goal - current,
        ) * power(num, ticks),
    decreases ticks,
{
    if ticks > 0 {
        let k = (ticks - 1) as nat;
        smoothing_converges(current, goal, num, den, k);
        let prev = smoothed_after(current, goal, num, den, k);
        smooth_axis_between(prev, goal, num, den);
        let g = abs(goal - prev);
        let g1 = abs(goal - smoothed_after(current, goal, num, den, ticks));
        let g0 = abs(goal - current);
        let dk = power(den, k);
        let nk = power(num, k);
        assert(power(den, k) >= 0 && power(num, k) >= 0) by {
            power_nonnegative(den, k);
            power_nonnegative(num, k);
        }
        assert(g1 * (den * dk) <= g0 * (num * nk)) by (nonlinear_arith)
            requires
                g1 == g * num / den,
                g >= 0,
                g0 >= 0,
                0 <= num < den,
                dk >= 0,
                nk >= 0,
                g * dk <= g0 * nk,
        {
            assert(g1 * den <= g * num);
            assert(g1 * den * dk <= g * num * dk);
            assert(g * num * dk <= g0 * nk * num);
        }
    }
}

/// A power of a non-negative base is non-negative.
pub proof fn power_nonnegative(base: int, exp: nat)
    requires
        base >= 0,
    ensures
        power(base, exp) >= 0,
    decreases exp,
{
    if exp > 0 {
        power_nonnegative(base, (exp - 1) as nat);
        assert(base * power(base, (exp - 1) as nat) >= 0) by (nonlinear_arith)
            requires
                base >= 0,
                power(base, (exp - 1) as nat) >= 0,
        ;
    }
}

} // verus!
