//! Fixed-point plane geometry: coordinates in milli-units, durations in
//! microseconds. All operations are total; results that would leave the
//! `i64` range saturate at its rails.

use vstd::prelude::*;

verus! {

/// A point or displacement in the plane, in milli-units per axis.
#[derive(Clone, Copy, Debug, PartialEq, Eq, Structural)]
pub struct Vec2 {
    pub x: i64,
    pub y: i64,
}

/// Saturation of a mathematical integer into the `i64` range.
pub open spec fn sat64(x: int) -> int {
    if x < i64::MIN as int {
        i64::MIN as int
    } else if x > i64::MAX as int {
        i64::MAX as int
    } else {
        x
    }
}

/// Division truncated toward zero, for a positive divisor.
pub open spec fn div_trunc(n: int, d: int) -> int
    recommends
        d > 0,
{
    if n >= 0 {
        n / d
    } else {
        -((-n) / d)
    }
}

/// Displacement of one axis over `dt` microseconds at `v` milli-units per
/// second: `v * dt / 1_000_000`, truncated toward zero.
pub open spec fn displacement(v: int, dt: int) -> int
    recommends
        dt >= 0,
{
    div_trunc(v * dt, crate::MICROS_PER_SEC as int)
}

/// One axis of a kinematic step: the old coordinate plus the displacement,
/// saturated into `i64`.
pub open spec fn advanced(pos: int, v: int, dt: int) -> int
    recommends
        dt >= 0,
{
    sat64(pos + displacement(v, dt))
}

/// Advances one coordinate by `v` milli-units per second over `dt`
/// microseconds.
pub fn advance_coord(pos: i64, v: i64, dt: i64) -> (r: i64)
    requires
        dt >= 0,
    ensures
        r as int == advanced(pos as int, v as int, dt as int),
{
    let vi: i128 = v as i128;
    let dti: i128 = dt as i128;
    let neg: bool = vi < 0;
    let mag: u128 = if neg {
        (-vi) as u128
    } else {
        vi as u128
    };
    assert(mag * (dti as u128) <= (i64::MAX as u128 + 1) * (i64::MAX as u128)) by (nonlinear_arith)
        requires
            mag <= i64::MAX as u128 + 1,
            dti as u128 <= i64::MAX as u128,
    ;
    let prod: u128 = mag * (dti as u128);
    let q: u128 = prod / 1_000_000u128;
    assert(q <= prod) by {
        vstd::arithmetic::div_mod::lemma_div_nonincreasing(prod as int, 1_000_000int);
    }
    let sq: i128 = if neg {
        -(q as i128)
    } else {
        q as i128
    };
    proof {
        if neg {
            assert((-(vi as int)) * (dti as int) == -((vi as int) * (dti as int)))
                by (nonlinear_arith);
        }
        assert(sq as int == div_trunc((v as int) * (dt as int), 1_000_000int));
    }
    let raw: i128 = (pos as i128) + sq;
    if raw > i64::MAX as i128 {
        i64::MAX
    } else if raw < i64::MIN as i128 {
        i64::MIN
    } else {
        raw as i64
    }
}

/// Largest coordinate magnitude, in milli-units, accepted where a launch
/// velocity is computed: one million world units, far beyond any screen.
pub const MAX_COORD: i64 = 1_000_000_000_000;

/// The integer square root: the unique `r >= 0` with
/// `r * r <= n < (r + 1) * (r + 1)`.
pub open spec fn isqrt_spec(n: int) -> int
    recommends
        n >= 0,
{
    choose|r: int| 0 <= r && #[trigger] (r * r) <= n && n < (r + 1) * (r + 1)
}

/// Two integer square roots of the same value coincide.
proof fn lemma_isqrt_unique(n: int, r1: int, r2: int)
    requires
        0 <= r1,
        0 <= r2,
        r1 * r1 <= n,
        n < (r1 + 1) * (r1 + 1),
        r2 * r2 <= n,
        n < (r2 + 1) * (r2 + 1),
    ensures
        r1 == r2,
{
    if r1 < r2 {
        assert((r1 + 1) * (r1 + 1) <= r2 * r2) by (nonlinear_arith)
            requires
                0 <= r1,
                r1 < r2,
        ;
    }
    if r2 < r1 {
        assert((r2 + 1) * (r2 + 1) <= r1 * r1) by (nonlinear_arith)
            requires
                0 <= r2,
                r2 < r1,
        ;
    }
}

/// Computes the integer square root by bisection.
pub fn isqrt(n: u128) -> (r: u64)
    ensures
        r as int == isqrt_spec(n as int),
        (r as int) * (r as int) <= n as int,
        (n as int) < (r as int + 1) * (r as int + 1),
{
    let mut lo: u128 = 0;
    let mut hi: u128 = 0x1_0000_0000_0000_0000u128;
    proof {
        assert((hi as int) * (hi as int) > n as int) by (nonlinear_arith)
            requires
                hi == 0x1_0000_0000_0000_0000u128,
                n as int <= u128::MAX as int,
        ;
    }
    while lo + 1 < hi
        invariant
            lo < hi <= 0x1_0000_0000_0000_0000u128,
            (lo as int) * (lo as int) <= n as int,
            (n as int) < (hi as int) * (hi as int),
        decreases hi - lo,
    {
        let mid: u128 = lo + (hi - lo) / 2;
        assert(mid * mid <= 0xffff_ffff_ffff_ffffu128 * 0xffff_ffff_ffff_ffffu128)
            by (nonlinear_arith)
            requires
                mid <= 0xffff_ffff_ffff_ffffu128,
        ;
        if mid * mid <= n {
            lo = mid;
        } else {
            hi = mid;
        }
    }
    proof {
        assert(0 <= lo as int && (lo as int) * (lo as int) <= n as int && (n as int) < (lo as int
            + 1) * (lo as int + 1));
        lemma_isqrt_unique(n as int, lo as int, isqrt_spec(n as int));
    }
    lo as u64
}

/// Squared length of the vector from `origin` to `target`.
pub open spec fn sq_len(origin: Vec2, target: Vec2) -> int {
    let dx = target.x as int - origin.x as int;
    let dy = target.y as int - origin.y as int;
    dx * dx + dy * dy
}

/// One axis of a launch velocity: the axis separation scaled by
/// `speed / len`, truncated toward zero and saturated into `i64`.
pub open spec fn vel_component(delta: int, speed: int, len: int) -> int
    recommends
        len > 0,
        speed >= 0,
{
    sat64(div_trunc(delta * speed, len))
}

/// Computes `vel_component` for one axis.
fn scaled_component(delta: i128, speed: i64, len: u64) -> (c: i64)
    requires
        len >= 1,
        speed >= 0,
        -(2 * MAX_COORD as i128) <= delta <= 2 * MAX_COORD as i128,
    ensures
        c as int == vel_component(delta as int, speed as int, len as int),
{
    let neg: bool = delta < 0;
    let m: u128 = if neg {
        (-delta) as u128
    } else {
        delta as u128
    };
    assert(m * (speed as u128) <= 2_000_000_000_000u128 * 0x7fff_ffff_ffff_ffffu128)
        by (nonlinear_arith)
        requires
            m <= 2_000_000_000_000u128,
            speed as u128 <= 0x7fff_ffff_ffff_ffffu128,
    ;
    let prod: u128 = m * (speed as u128);
    let q: u128 = prod / (len as u128);
    assert(q <= prod) by {
        vstd::arithmetic::div_mod::lemma_div_nonincreasing(prod as int, len as int);
    }
    let sq: i128 = if neg {
        -(q as i128)
    } else {
        q as i128
    };
    proof {
        if neg {
            assert((-(delta as int)) * (speed as int) == -((delta as int) * (speed as int)))
                by (nonlinear_arith);
        }
        assert(sq as int == div_trunc((delta as int) * (speed as int), len as int));
    }
    if sq > i64::MAX as i128 {
        i64::MAX
    } else if sq < i64::MIN as i128 {
        i64::MIN
    } else {
        sq as i64
    }
}

/// Builds the launch velocity toward `target`: the unit direction from
/// `origin` to `target` scaled by `speed`, each axis truncated toward zero.
/// The direction is exact up to the integer square root of the squared
/// separation.
pub fn make_velocity(origin: Vec2, target: Vec2, speed: i64) -> (v: Vec2)
    requires
        -MAX_COORD <= origin.x <= MAX_COORD,
        -MAX_COORD <= origin.y <= MAX_COORD,
        -MAX_COORD <= target.x <= MAX_COORD,
        -MAX_COORD <= target.y <= MAX_COORD,
        speed >= 0,
        !(origin.x == target.x && origin.y == target.y),
    ensures
        v.x as int == vel_component(
            target.x as int - origin.x as int,
            speed as int,
            isqrt_spec(sq_len(origin, target)),
        ),
        v.y as int == vel_component(
            target.y as int - origin.y as int,
            speed as int,
            isqrt_spec(sq_len(origin, target)),
        ),
        isqrt_spec(sq_len(origin, target)) >= 1,
{
    let dx: i128 = target.x as i128 - origin.x as i128;
    let dy: i128 = target.y as i128 - origin.y as i128;
    let dxm: u128 = if dx < 0 {
        (-dx) as u128
    } else {
        dx as u128
    };
    let dym: u128 = if dy < 0 {
        (-dy) as u128
    } else {
        dy as u128
    };
    proof {
        if dx < 0 {
            assert((dxm as int) * (dxm as int) == (dx as int) * (dx as int)) by (nonlinear_arith)
                requires
                    dxm as int == -(dx as int),
            ;
        }
        if dy < 0 {
            assert((dym as int) * (dym as int) == (dy as int) * (dy as int)) by (nonlinear_arith)
                requires
                    dym as int == -(dy as int),
            ;
        }
        assert((dxm as int) * (dxm as int) <= 2_000_000_000_000int * 2_000_000_000_000int)
            by (nonlinear_arith)
            requires
                dxm <= 2_000_000_000_000u128,
        ;
        assert((dym as int) * (dym as int) <= 2_000_000_000_000int * 2_000_000_000_000int)
            by (nonlinear_arith)
            requires
                dym <= 2_000_000_000_000u128,
        ;
    }
    let n: u128 = dxm * dxm + dym * dym;
    let len: u64 = isqrt(n);
    proof {
        if len == 0 {
            assert((len as int + 1) * (len as int + 1) == 1) by (nonlinear_arith)
                requires
                    len == 0u64,
            ;
            assert((n as int) < 1);
            assert((dxm as int) * (dxm as int) >= 0 && (dym as int) * (dym as int) >= 0)
                by (nonlinear_arith);
            assert((dx as int) * (dx as int) == 0 ==> dx as int == 0) by (nonlinear_arith);
            assert((dy as int) * (dy as int) == 0 ==> dy as int == 0) by (nonlinear_arith);
            assert(false);
        }
    }
    let vx: i64 = scaled_component(dx, speed, len);
    let vy: i64 = scaled_component(dy, speed, len);
    Vec2 { x: vx, y: vy }
}

/// Whether the squared Euclidean distance between `a` and `b` is strictly
/// below `r * r`, in exact integer arithmetic.
pub open spec fn dist_sq_lt(a: Vec2, b: Vec2, r: int) -> bool {
    let dx = a.x as int - b.x as int;
    let dy = a.y as int - b.y as int;
    dx * dx + dy * dy < r * r
}

/// Decides `dist_sq_lt` for a positive radius. Axes whose separation
/// already reaches the radius are rejected before squaring, so the
/// computation stays in range for every pair of points.
pub fn within_distance(a: Vec2, b: Vec2, r: i64) -> (res: bool)
    requires
        0 < r,
    ensures
        res == dist_sq_lt(a, b, r as int),
{
    let dx: i128 = a.x as i128 - b.x as i128;
    let dy: i128 = a.y as i128 - b.y as i128;
    let dxm: u128 = if dx < 0 {
        (-dx) as u128
    } else {
        dx as u128
    };
    let dym: u128 = if dy < 0 {
        (-dy) as u128
    } else {
        dy as u128
    };
    let rm: u128 = r as u128;
    proof {
        assert((dxm as int) * (dxm as int) == (dx as int) * (dx as int)) by (nonlinear_arith)
            requires
                dxm as int == if dx < 0 { -(dx as int) } else { dx as int },
        ;
        assert((dym as int) * (dym as int) == (dy as int) * (dy as int)) by (nonlinear_arith)
            requires
                dym as int == if dy < 0 { -(dy as int) } else { dy as int },
        ;
    }
    if dxm >= rm || dym >= rm {
        proof {
            assert(dxm >= rm ==> (rm as int) * (rm as int) <= (dxm as int) * (dxm as int))
                by (nonlinear_arith);
            assert(dym >= rm ==> (rm as int) * (rm as int) <= (dym as int) * (dym as int))
                by (nonlinear_arith);
            assert((dxm as int) * (dxm as int) >= 0 && (dym as int) * (dym as int) >= 0)
                by (nonlinear_arith);
        }
        false
    } else {
        assert((dxm as int) * (dxm as int) < (rm as int) * (rm as int) && (dym as int) * (dym
            as int) < (rm as int) * (rm as int) && (rm as int) * (rm as int) <= (i64::MAX
            as int) * (i64::MAX as int)) by (nonlinear_arith)
            requires
                dxm < rm,
                dym < rm,
                rm <= i64::MAX as u128,
        ;
        dxm * dxm + dym * dym < rm * rm
    }
}

} // verus!
