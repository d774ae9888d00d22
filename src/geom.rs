use vstd::prelude::*;

verus! {

/// Sub-pixel units in one pixel. Positions are measured in these units,
/// velocities in these units per millisecond, and frame time in milliseconds.
pub const UNITS_PER_PIXEL: i64 = 1_000_000;

/// Largest magnitude of a position coordinate (2^40 units).
pub const COORD_LIMIT: i64 = 1_099_511_627_776;

/// Largest magnitude of a velocity component (2^30 units per millisecond).
pub const VELOCITY_LIMIT: i64 = 1_073_741_824;

/// Largest magnitude that `scale_toward_zero` accepts (2^42).
pub const SCALE_LIMIT: i64 = 4_398_046_511_104;

/// A 2D vector of integers.
#[derive(Clone, Copy, Debug, PartialEq, Eq)]
pub struct Vec2i {
    pub x: i64,
    pub y: i64,
}

pub open spec fn abs(v: int) -> int {
    if v < 0 { -v } else { v }
}

/// `v` limited to the range `-lim ..= lim`.
pub open spec fn clamp(v: int, lim: int) -> int {
    if v > lim { lim } else if v < -lim { -lim } else { v }
}

/// `v * num / den`, rounded toward zero.
pub open spec fn scale_toward_zero_spec(v: int, num: int, den: int) -> int {
    if v >= 0 { v * num / den } else { -((-v) * num / den) }
}

/// `clamp(v, lim)` on machine integers.
pub fn clamp_i64(v: i64, lim: i64) -> (r: i64)
    requires
        lim >= 0,
    ensures
        r == clamp(v as int, lim as int),
{
    if v > lim {
        lim
    } else if v < -lim {
        -lim
    } else {
        v
    }
}

/// The floor of `a / b` for a positive `b` (`int` division rounds down).
pub fn floor_div(a: i64, b: i64) -> (r: i64)
    requires
        b > 0,
        a > i64::MIN,
    ensures
        r == a as int / b as int,
{
    if a >= 0 {
        a / b
    } else {
        let m: i64 = -a;
        let q: i64 = m / b;
        let rem: i64 = m % b;
        proof {
            assert(m == q * b + rem) by (nonlinear_arith)
                requires q == m / b, rem == m % b, b > 0, m > 0;
            assert(0 <= rem < b);
        }
        if rem == 0 {
            proof {
                let nq: int = -q;
                assert(a == nq * b) by (nonlinear_arith)
                    requires m == q * b + rem, a == -m, rem == 0, nq == -q;
                assert(nq * b / (b as int) == nq) by (nonlinear_arith) requires b > 0;
            }
            -q
        } else {
            proof {
                let f: int = -q - 1;
                assert(a == f * b + (b - rem)) by (nonlinear_arith)
                    requires m == q * b + rem, a == -m, f == -q - 1;
                vstd::arithmetic::div_mod::lemma_fundamental_div_mod_converse(
                    a as int, b as int, f, (b - rem) as int);
            }
            -q - 1
        }
    }
}

/// `v * num / den` rounded toward zero, for a fraction `num / den` of at
/// most one.
pub fn scale_toward_zero(v: i64, num: u64, den: u64) -> (r: i64)
    requires
        0 < den <= 1000,
        num <= den,
        -SCALE_LIMIT <= v <= SCALE_LIMIT,
    ensures
        r == scale_toward_zero_spec(v as int, num as int, den as int),
        abs(r as int) <= abs(v as int),
{
    let m: u64 = if v >= 0 { v as u64 } else { (-v) as u64 };
    proof {
        assert(m * num <= m * 1000) by (nonlinear_arith) requires num <= 1000;
        assert(m * num <= m * den) by (nonlinear_arith) requires num <= den;
        vstd::arithmetic::div_mod::lemma_div_is_ordered((m * num) as int, (m * den) as int, den as int);
        assert(m * den / den as int == m) by (nonlinear_arith) requires den > 0;
        assert(m * num as int / den as int >= 0) by (nonlinear_arith) requires den > 0, m >= 0, num >= 0;
    }
    let q: u64 = m * num / den;
    if v >= 0 {
        q as i64
    } else {
        -(q as i64)
    }
}

} // verus!
