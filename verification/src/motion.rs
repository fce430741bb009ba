//! Straight-line interpolation of a smooth mouse move.

use vstd::prelude::*;
use vstd::arithmetic::div_mod::{lemma_div_by_multiple, lemma_div_is_ordered};
use vstd::arithmetic::mul::lemma_mul_inequality;
use crate::actions::{ActionModel, InputAction};

verus! {

/// The integer square root of `n`: the unique `r >= 0` with
/// `r * r <= n < (r + 1) * (r + 1)`.
pub open spec fn spec_isqrt(n: int) -> int {
    choose|r: int| r >= 0 && #[trigger] (r * r) <= n && n < (r + 1) * (r + 1)
}

/// A witness that the integer square root exists for every `n >= 0`.
proof fn lemma_isqrt_exists(n: int) -> (r: int)
    requires
        n >= 0,
    ensures
        r >= 0 && r * r <= n && n < (r + 1) * (r + 1),
    decreases n,
{
    if n == 0 {
        0
    } else {
        let p = lemma_isqrt_exists(n - 1);
        if (p + 1) * (p + 1) <= n {
            assert(n < (p + 2) * (p + 2)) by (nonlinear_arith)
                requires
                    p >= 0,
                    n - 1 < (p + 1) * (p + 1),
            ;
            p + 1
        } else {
            p
        }
    }
}

/// The defining bounds of the integer square root.
pub proof fn lemma_isqrt_bounds(n: int)
    requires
        n >= 0,
    ensures
        spec_isqrt(n) >= 0,
        spec_isqrt(n) * spec_isqrt(n) <= n,
        n < (spec_isqrt(n) + 1) * (spec_isqrt(n) + 1),
{
    let w = lemma_isqrt_exists(n);
    assert(w >= 0 && w * w <= n && n < (w + 1) * (w + 1));
}

/// Any `r` within the defining bounds is the integer square root.
pub proof fn lemma_isqrt_unique(n: int, r: int)
    requires
        n >= 0,
        r >= 0,
        r * r <= n,
        n < (r + 1) * (r + 1),
    ensures
        r == spec_isqrt(n),
{
    lemma_isqrt_bounds(n);
    let s = spec_isqrt(n);
    if r < s {
        assert((r + 1) * (r + 1) <= s * s) by (nonlinear_arith)
            requires
                0 <= r,
                r + 1 <= s,
        ;
    }
    if s < r {
        assert((s + 1) * (s + 1) <= r * r) by (nonlinear_arith)
            requires
                0 <= s,
                s + 1 <= r,
        ;
    }
}

/// The integer square root, by binary search over the root.
pub fn isqrt(n: u128) -> (r: u64)
    requires
        n < 0x40000000000000000,
    ensures
        r as int == spec_isqrt(n as int),
        r <= 0x200000000,
{
    let mut lo: u64 = 0;
    let mut hi: u64 = 0x200000000;
    proof {
        assert((0x200000000 as int) * (0x200000000 as int) == 0x40000000000000000);
    }
    while lo + 1 < hi
        invariant
            lo < hi <= 0x200000000,
            (lo as int) * (lo as int) <= n as int,
            (n as int) < (hi as int) * (hi as int),
        decreases hi - lo,
    {
        let mid = lo + (hi - lo) / 2;
        proof {
            assert((mid as int) * (mid as int) <= 0x40000000000000000) by (nonlinear_arith)
                requires
                    0 <= mid <= 0x200000000,
            ;
        }
        let sq: u128 = (mid as u128) * (mid as u128);
        if sq <= n {
            lo = mid;
        } else {
            hi = mid;
        }
    }
    proof {
        lemma_isqrt_unique(n as int, lo as int);
    }
    lo
}

/// Division that truncates toward zero, as the execution's `/` does on
/// signed integers.
pub open spec fn trunc_div(a: int, b: int) -> int {
    if a >= 0 {
        a / b
    } else {
        -((-a) / b)
    }
}

/// The coordinate of interpolation step `k` of `steps` on one axis:
/// `s + (t - s) * k / steps` in truncating integer arithmetic.
pub open spec fn lerp(s: int, t: int, k: int, steps: int) -> int {
    s + trunc_div((t - s) * k, steps)
}

/// The number of interpolated steps of a smooth move: the euclidean
/// distance between start and target rounded down, divided by the speed,
/// rounded down.
pub open spec fn spec_steps(sx: int, sy: int, tx: int, ty: int, speed: int) -> int {
    spec_isqrt((tx - sx) * (tx - sx) + (ty - sy) * (ty - sy)) / speed
}

/// One interpolated coordinate, computed on unsigned magnitudes so the
/// division truncates toward zero.
fn lerp_coord(s: i32, t: i32, k: u64, steps: u64) -> (r: i32)
    requires
        1 <= k <= steps,
    ensures
        r as int == lerp(s as int, t as int, k as int, steps as int),
{
    let delta: i64 = t as i64 - s as i64;
    let mag: u64 = if delta >= 0 {
        delta as u64
    } else {
        (-delta) as u64
    };
    proof {
        lemma_mul_inequality(k as int, steps as int, mag as int);
        assert((mag as int) * (k as int) == (k as int) * (mag as int)) by (nonlinear_arith);
        assert((mag as int) * (steps as int) == (steps as int) * (mag as int))
            by (nonlinear_arith);
        lemma_div_is_ordered((mag as int) * (k as int), (mag as int) * (steps as int), steps as int);
        lemma_div_by_multiple(mag as int, steps as int);
        assert((mag as int) * (k as int) / (steps as int) <= mag as int);
        assert(0 <= (mag as int) * (k as int) < 0x100000000000000000000000000000000)
            by (nonlinear_arith)
            requires
                0 <= mag < 0x100000000,
                0 <= k < 0x10000000000000000,
        ;
    }
    let part_u: u128 = (mag as u128) * (k as u128) / (steps as u128);
    let part: i64 = part_u as i64;
    let r64: i64 = if delta >= 0 {
        s as i64 + part
    } else {
        s as i64 - part
    };
    proof {
        if delta < 0 {
            assert((-(delta as int)) * (k as int) == -((delta as int) * (k as int)))
                by (nonlinear_arith);
        }
    }
    r64 as i32
}

/// Plans a smooth move from `(start_x, start_y)` to `(x, y)`: one backend
/// move per interpolation step, each followed by the mouse pacing pause,
/// then an unconditional final snap to the target that corrects any
/// truncation drift. When the step count is zero only the snap remains, and
/// no division by the step count is ever attempted.
pub fn plan_smooth_move(
    start_x: i32,
    start_y: i32,
    x: i32,
    y: i32,
    speed: u64,
    delay: u64,
) -> (plan: Vec<InputAction>)
    requires
        1 <= speed,
    ensures
        ({
            let steps = spec_steps(start_x as int, start_y as int, x as int, y as int, speed as int);
            &&& plan@.len() == 2 * steps + 1
            &&& forall|k: int|
                0 <= k < plan@.len() ==> (#[trigger] plan@[k])@ == (if k == 2 * steps {
                    ActionModel::MoveTo(x as int, y as int)
                } else if k % 2 == 0 {
                    ActionModel::MoveTo(
                        lerp(start_x as int, x as int, k / 2 + 1, steps),
                        lerp(start_y as int, y as int, k / 2 + 1, steps),
                    )
                } else {
                    ActionModel::Sleep(delay as int)
                })
        }),
{
    let dx: i64 = x as i64 - start_x as i64;
    let dy: i64 = y as i64 - start_y as i64;
    proof {
        assert(0 <= (dx as int) * (dx as int) < 0x10000000000000000 && 0 <= (dy as int) * (
        dy as int) < 0x10000000000000000 && (dx as int) * (dx as int) + (dy as int) * (dy as int)
            < 0x40000000000000000) by (nonlinear_arith)
            requires
                -0x100000000 < dx < 0x100000000,
                -0x100000000 < dy < 0x100000000,
        ;
    }
    let dist_sq: u128 = ((dx as i128) * (dx as i128) + (dy as i128) * (dy as i128)) as u128;
    let dist = isqrt(dist_sq);
    let steps: u64 = dist / speed;
    proof {
        assert(steps as int == spec_steps(
            start_x as int,
            start_y as int,
            x as int,
            y as int,
            speed as int,
        ));
    }
    let mut plan: Vec<InputAction> = Vec::new();
    let mut i: u64 = 0;
    while i < steps
        invariant
            i <= steps,
            steps as int == spec_steps(start_x as int, start_y as int, x as int, y as int, speed as int),
            plan@.len() == 2 * i,
            forall|j: int|
                0 <= j < i ==> (#[trigger] plan@[2 * j])@ == ActionModel::MoveTo(
                    lerp(start_x as int, x as int, j + 1, steps as int),
                    lerp(start_y as int, y as int, j + 1, steps as int),
                ),
            forall|j: int|
                0 <= j < i ==> (#[trigger] plan@[2 * j + 1])@ == ActionModel::Sleep(delay as int),
        decreases steps - i,
    {
        let k = i + 1;
        let ix = lerp_coord(start_x, x, k, steps);
        let iy = lerp_coord(start_y, y, k, steps);
        plan.push(InputAction::MoveTo(ix, iy));
        plan.push(InputAction::Sleep(delay));
        i = i + 1;
    }
    plan.push(InputAction::MoveTo(x, y));
    proof {
        let ghost_steps = steps as int;
        assert forall|k: int| 0 <= k < plan@.len() implies (#[trigger] plan@[k])@ == (if k == 2
            * ghost_steps {
            ActionModel::MoveTo(x as int, y as int)
        } else if k % 2 == 0 {
            ActionModel::MoveTo(
                lerp(start_x as int, x as int, k / 2 + 1, ghost_steps),
                lerp(start_y as int, y as int, k / 2 + 1, ghost_steps),
            )
        } else {
            ActionModel::Sleep(delay as int)
        }) by {
            crate::actions::lemma_div2_facts(k);
            let j = k / 2;
            if k == 2 * ghost_steps {
            } else if k % 2 == 0 {
                assert(plan@[2 * j]@ == ActionModel::MoveTo(
                    lerp(start_x as int, x as int, j + 1, ghost_steps),
                    lerp(start_y as int, y as int, j + 1, ghost_steps),
                ));
            } else {
                assert(plan@[2 * j + 1]@ == ActionModel::Sleep(delay as int));
            }
        }
    }
    plan
}

} // verus!
