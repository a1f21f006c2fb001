//! Scalar arithmetic for the renderer's coordinate computations.
//!
//! Every coordinate, matrix entry and affine coefficient in this crate is a
//! fixed-point number: an `i64` holding the real value scaled by `FX_ONE`
//! (65536).  Products are formed exactly in `i128` and divisions truncate
//! toward zero, so every derived transform is a pure function of its inputs.

use vstd::prelude::*;

verus! {

/// The fixed-point scale: the representation of the real number 1.
pub const FX_ONE: i64 = 65536;

/// Half of `FX_ONE`: the representation of the real number 1/2.
pub const FX_HALF: i64 = 32768;

/// The representation of the real number -1.
pub const FX_NEG_ONE: i64 = -65536;

/// Largest magnitude a well-formed matrix entry or affine coefficient may
/// have: 4096 in real terms.  Keeping entries inside this range lets every
/// intermediate product of the 4x4 inverse fit in `i128`.
pub const FX_MAX: i64 = 0x1000_0000;

/// Scale correction applied to the adjugate before dividing by the
/// determinant: `FX_ONE * FX_ONE`.
pub const FX_INV_SCALE: i128 = 0x1_0000_0000;

/// Magnitude of an integer.
pub open spec fn fx_abs(n: int) -> int {
    if n < 0 {
        -n
    } else {
        n
    }
}

/// Division truncating toward zero, the rounding used for every fixed-point
/// quotient in this crate.
pub open spec fn tdiv(n: int, d: int) -> int
    recommends
        d != 0,
{
    let q = fx_abs(n) / fx_abs(d);
    if (n < 0) == (d < 0) {
        q
    } else {
        -q
    }
}

/// Exact `i128` product of two bounded factors.  The ghost bounds let a
/// caller discharge the overflow obligation with plain literal arithmetic.
pub(crate) fn mul_wide(a: i128, b: i128, Ghost(ba): Ghost<int>, Ghost(bb): Ghost<int>) -> (r: i128)
    requires
        0 <= ba,
        0 <= bb,
        -ba <= a <= ba,
        -bb <= b <= bb,
        ba * bb < 0x40000000000000000000000000000000,
    ensures
        r == a * b,
        -(ba * bb) <= r <= ba * bb,
{
    proof {
        assert(-(ba * bb) <= a * b <= ba * bb) by (nonlinear_arith)
            requires
                0 <= ba,
                0 <= bb,
                -ba <= a <= ba,
                -bb <= b <= bb,
        ;
    }
    a * b
}

/// Quotient of two `i128` values, truncating toward zero.
pub(crate) fn div_trunc(n: i128, d: i128) -> (q: i128)
    requires
        d != 0,
        fx_abs(n as int) < 0x40000000000000000000000000000000,
        fx_abs(d as int) < 0x40000000000000000000000000000000,
    ensures
        q == tdiv(n as int, d as int),
        fx_abs(q as int) <= fx_abs(n as int),
{
    let nn: u128 = if n < 0 {
        (-n) as u128
    } else {
        n as u128
    };
    let dd: u128 = if d < 0 {
        (-d) as u128
    } else {
        d as u128
    };
    let mag: u128 = nn / dd;
    proof {
        vstd::arithmetic::div_mod::lemma_div_basics_5(nn as int, dd as int);
        vstd::arithmetic::div_mod::lemma_div_basics_4(nn as int, dd as int);
    }
    let mi: i128 = mag as i128;
    if (n < 0) != (d < 0) {
        -mi
    } else {
        mi
    }
}

} // verus!
