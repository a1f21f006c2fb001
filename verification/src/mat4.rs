//! Fixed-point 4x4 matrices and 2D affine transforms.
//!
//! A [`Mat4`] holds sixteen fixed-point entries in row-major order (the entry
//! at row `r`, column `c` sits at index `4*r + c`).  The view of a matrix is
//! the mathematical sequence of its sixteen entries, and every operation's
//! contract states the exact entry-level arithmetic it performs: products are
//! taken exactly, then scaled back by a single truncating division, so the
//! derivation of a transform is a pure function of its inputs.

use vstd::prelude::*;

use crate::fixed::FX_HALF;
use crate::fixed::FX_INV_SCALE;
use crate::fixed::FX_MAX;
use crate::fixed::FX_ONE;
use crate::fixed::div_trunc;
use crate::fixed::fx_abs;
use crate::fixed::mul_wide;
use crate::fixed::tdiv;

verus! {

/// All entries of a sequence lie within the well-formed fixed-point range.
pub open spec fn in_fx_range(s: Seq<int>) -> bool {
    forall|k: int| 0 <= k < s.len() ==> -FX_MAX <= #[trigger] s[k] <= FX_MAX
}

/// A 4x4 matrix of fixed-point entries, row-major.
pub struct Mat4 {
    e: Vec<i64>,
}

impl View for Mat4 {
    type V = Seq<int>;

    closed spec fn view(&self) -> Seq<int> {
        self.e@.map_values(|v: i64| v as int)
    }
}

/// The identity matrix's entries.
pub open spec fn identity_v() -> Seq<int> {
    seq![
        FX_ONE as int, 0, 0, 0,
        0, FX_ONE as int, 0, 0,
        0, 0, FX_ONE as int, 0,
        0, 0, 0, FX_ONE as int,
    ]
}

/// Entry `k` of the fixed-point product of two matrices: the exact dot
/// product of row `k / 4` of `a` with column `k % 4` of `b`, scaled back by
/// one truncating division.
pub open spec fn mat_mul_entry(a: Seq<int>, b: Seq<int>, k: int) -> int {
    let r = k / 4;
    let c = k % 4;
    tdiv(
        a[4 * r] * b[c] + a[4 * r + 1] * b[4 + c] + a[4 * r + 2] * b[8 + c] + a[4 * r + 3] * b[12
            + c],
        FX_ONE as int,
    )
}

/// The fixed-point product of two matrices.
pub open spec fn mat_mul_v(a: Seq<int>, b: Seq<int>) -> Seq<int> {
    Seq::new(16, |k: int| mat_mul_entry(a, b, k))
}

/// Whether every entry of the product of `a` and `b` is representable.
pub open spec fn mat_mul_in_range(a: Seq<int>, b: Seq<int>) -> bool {
    in_fx_range(mat_mul_v(a, b))
}

impl Mat4 {
    /// A well-formed matrix has sixteen entries, all within the fixed-point
    /// range that keeps products representable.
    pub open spec fn wf(&self) -> bool {
        self@.len() == 16 && in_fx_range(self@)
    }

    /// Builds a matrix from sixteen row-major fixed-point entries; rejects a
    /// wrong count or an entry outside the well-formed range.
    pub fn from_entries(entries: Vec<i64>) -> (r: Option<Mat4>)
        ensures
            match r {
                Some(m) => {
                    &&& m@ == entries@.map_values(|v: i64| v as int)
                    &&& m.wf()
                },
                None => !(entries@.len() == 16 && in_fx_range(
                    entries@.map_values(|v: i64| v as int),
                )),
            },
    {
        if entries.len() != 16 {
            return None;
        }
        let mut k: usize = 0;
        while k < 16
            invariant
                entries@.len() == 16,
                k <= 16,
                forall|j: int| 0 <= j < k ==> -FX_MAX <= #[trigger] entries@[j] <= FX_MAX,
            decreases 16 - k,
        {
            let v = entries[k];
            if v < -FX_MAX || v > FX_MAX {
                proof {
                    assert(entries@.map_values(|x: i64| x as int)[k as int] == v as int);
                }
                return None;
            }
            k += 1;
        }
        Some(Mat4 { e: entries })
    }

    /// The identity matrix.
    pub fn identity() -> (r: Mat4)
        ensures
            r@ == identity_v(),
            r.wf(),
    {
        let mut e: Vec<i64> = Vec::new();
        e.push(FX_ONE);
        e.push(0);
        e.push(0);
        e.push(0);
        e.push(0);
        e.push(FX_ONE);
        e.push(0);
        e.push(0);
        e.push(0);
        e.push(0);
        e.push(FX_ONE);
        e.push(0);
        e.push(0);
        e.push(0);
        e.push(0);
        e.push(FX_ONE);
        let m = Mat4 { e };
        proof {
            assert(m@ =~= identity_v());
        }
        m
    }

    /// Reads the entry at row-major index `k`.
    pub fn entry(&self, k: usize) -> (r: i64)
        requires
            self.wf(),
            k < 16,
        ensures
            r as int == self@[k as int],
    {
        self.e[k]
    }

    /// The same matrix with the sign of its Y translation entry (row 1,
    /// column 3) flipped: the conversion between the host's Y-up convention
    /// and the renderer's Y-down convention.
    pub fn with_y_flip(&self) -> (r: Mat4)
        requires
            self.wf(),
        ensures
            r@ == self@.update(7, -self@[7]),
            r.wf(),
    {
        let mut e: Vec<i64> = Vec::new();
        let mut k: usize = 0;
        while k < 16
            invariant
                self.wf(),
                k <= 16,
                e@.len() == k,
                forall|j: int|
                    0 <= j < k ==> (#[trigger] e@[j]) as int == (if j == 7 {
                        -self@[j]
                    } else {
                        self@[j]
                    }),
            decreases 16 - k,
        {
            let v = self.e[k];
            proof {
                assert(v as int == self@[k as int] && -FX_MAX <= self@[k as int] <= FX_MAX);
            }
            if k == 7 {
                e.push(-v);
            } else {
                e.push(v);
            }
            k += 1;
        }
        let m = Mat4 { e };
        proof {
            assert(m@ =~= self@.update(7, -self@[7]));
        }
        m
    }

    /// Fixed-point matrix product `self * rhs`.  Returns `None` exactly when
    /// some entry of the product falls outside the well-formed range.
    pub fn mat_mul(&self, rhs: &Mat4) -> (r: Option<Mat4>)
        requires
            self.wf(),
            rhs.wf(),
        ensures
            match r {
                Some(m) => {
                    &&& mat_mul_in_range(self@, rhs@)
                    &&& m@ == mat_mul_v(self@, rhs@)
                    &&& m.wf()
                },
                None => !mat_mul_in_range(self@, rhs@),
            },
    {
        let mut out: Vec<i64> = Vec::new();
        let mut k: usize = 0;
        while k < 16
            invariant
                self.wf(),
                rhs.wf(),
                k <= 16,
                out@.len() == k,
                forall|j: int|
                    0 <= j < k ==> (#[trigger] out@[j]) as int == mat_mul_entry(self@, rhs@, j),
                forall|j: int| 0 <= j < k ==> fx_abs(mat_mul_entry(self@, rhs@, j)) <= FX_MAX,
            decreases 16 - k,
        {
            let row = k / 4;
            let col = k % 4;
            let a0 = self.e[4 * row];
            let a1 = self.e[4 * row + 1];
            let a2 = self.e[4 * row + 2];
            let a3 = self.e[4 * row + 3];
            let b0 = rhs.e[col];
            let b1 = rhs.e[4 + col];
            let b2 = rhs.e[8 + col];
            let b3 = rhs.e[12 + col];
            proof {
                assert(a0 as int == self@[4 * (k as int / 4)] && -FX_MAX <= self@[4 * (k as int
                    / 4)] <= FX_MAX);
                assert(a1 as int == self@[4 * (k as int / 4) + 1] && -FX_MAX <= self@[4 * (k as int
                    / 4) + 1] <= FX_MAX);
                assert(a2 as int == self@[4 * (k as int / 4) + 2] && -FX_MAX <= self@[4 * (k as int
                    / 4) + 2] <= FX_MAX);
                assert(a3 as int == self@[4 * (k as int / 4) + 3] && -FX_MAX <= self@[4 * (k as int
                    / 4) + 3] <= FX_MAX);
                assert(b0 as int == rhs@[k as int % 4] && -FX_MAX <= rhs@[k as int % 4] <= FX_MAX);
                assert(b1 as int == rhs@[4 + k as int % 4] && -FX_MAX <= rhs@[4 + k as int % 4]
                    <= FX_MAX);
                assert(b2 as int == rhs@[8 + k as int % 4] && -FX_MAX <= rhs@[8 + k as int % 4]
                    <= FX_MAX);
                assert(b3 as int == rhs@[12 + k as int % 4] && -FX_MAX <= rhs@[12 + k as int % 4]
                    <= FX_MAX);
            }
            let p0 = mul_wide(a0 as i128, b0 as i128, Ghost(FX_MAX as int), Ghost(FX_MAX as int));
            let p1 = mul_wide(a1 as i128, b1 as i128, Ghost(FX_MAX as int), Ghost(FX_MAX as int));
            let p2 = mul_wide(a2 as i128, b2 as i128, Ghost(FX_MAX as int), Ghost(FX_MAX as int));
            let p3 = mul_wide(a3 as i128, b3 as i128, Ghost(FX_MAX as int), Ghost(FX_MAX as int));
            let s: i128 = p0 + p1 + p2 + p3;
            let q = div_trunc(s, FX_ONE as i128);
            proof {
                assert(q == mat_mul_entry(self@, rhs@, k as int));
            }
            if q < -(FX_MAX as i128) || q > FX_MAX as i128 {
                proof {
                    assert(fx_abs(mat_mul_entry(self@, rhs@, k as int)) > FX_MAX);
                    assert(mat_mul_v(self@, rhs@)[k as int] == mat_mul_entry(self@, rhs@, k as int));
                    assert(!mat_mul_in_range(self@, rhs@));
                }
                return None;
            }
            out.push(q as i64);
            k += 1;
        }
        let m = Mat4 { e: out };
        proof {
            assert(m@ =~= mat_mul_v(self@, rhs@));
        }
        Some(m)
    }
}

/// Determinant of a 4x4 matrix, expanded over the six 2x2 minors of its top
/// two rows (`s0..s5`) and of its bottom two rows (`c0..c5`).  On fixed-point
/// entries the value carries four powers of the scale.
pub open spec fn det4(m: Seq<int>) -> int {
    let s0 = m[0] * m[5] - m[4] * m[1];
    let s1 = m[0] * m[6] - m[4] * m[2];
    let s2 = m[0] * m[7] - m[4] * m[3];
    let s3 = m[1] * m[6] - m[5] * m[2];
    let s4 = m[1] * m[7] - m[5] * m[3];
    let s5 = m[2] * m[7] - m[6] * m[3];
    let c5 = m[10] * m[15] - m[14] * m[11];
    let c4 = m[9] * m[15] - m[13] * m[11];
    let c3 = m[9] * m[14] - m[13] * m[10];
    let c2 = m[8] * m[15] - m[12] * m[11];
    let c1 = m[8] * m[14] - m[12] * m[10];
    let c0 = m[8] * m[13] - m[12] * m[9];
    s0 * c5 - s1 * c4 + s2 * c3 + s3 * c2 - s4 * c1 + s5 * c0
}

/// The adjugate of a 4x4 matrix, row-major, over the same 2x2 minors as
/// [`det4`].  Dividing each entry by the determinant yields the inverse.
pub open spec fn adj4(m: Seq<int>) -> Seq<int> {
    let s0 = m[0] * m[5] - m[4] * m[1];
    let s1 = m[0] * m[6] - m[4] * m[2];
    let s2 = m[0] * m[7] - m[4] * m[3];
    let s3 = m[1] * m[6] - m[5] * m[2];
    let s4 = m[1] * m[7] - m[5] * m[3];
    let s5 = m[2] * m[7] - m[6] * m[3];
    let c5 = m[10] * m[15] - m[14] * m[11];
    let c4 = m[9] * m[15] - m[13] * m[11];
    let c3 = m[9] * m[14] - m[13] * m[10];
    let c2 = m[8] * m[15] - m[12] * m[11];
    let c1 = m[8] * m[14] - m[12] * m[10];
    let c0 = m[8] * m[13] - m[12] * m[9];
    seq![
        m[5] * c5 - m[6] * c4 + m[7] * c3,
        m[2] * c4 - m[1] * c5 - m[3] * c3,
        m[13] * s5 - m[14] * s4 + m[15] * s3,
        m[10] * s4 - m[9] * s5 - m[11] * s3,
        m[6] * c2 - m[4] * c5 - m[7] * c1,
        m[0] * c5 - m[2] * c2 + m[3] * c1,
        m[14] * s2 - m[12] * s5 - m[15] * s1,
        m[8] * s5 - m[10] * s2 + m[11] * s1,
        m[4] * c4 - m[5] * c2 + m[7] * c0,
        m[1] * c2 - m[0] * c4 - m[3] * c0,
        m[12] * s4 - m[13] * s2 + m[15] * s0,
        m[9] * s2 - m[8] * s4 - m[11] * s0,
        m[5] * c1 - m[4] * c3 - m[6] * c0,
        m[0] * c3 - m[1] * c1 + m[2] * c0,
        m[13] * s1 - m[12] * s3 - m[14] * s0,
        m[8] * s3 - m[9] * s1 + m[10] * s0,
    ]
}

/// Entry `k` of the fixed-point inverse: the adjugate entry, rescaled to
/// fixed point, divided by the determinant with truncation.
pub open spec fn inv_entry(m: Seq<int>, k: int) -> int {
    tdiv(adj4(m)[k] * FX_INV_SCALE, det4(m))
}

/// The fixed-point inverse of a matrix.
pub open spec fn mat_inv_v(m: Seq<int>) -> Seq<int> {
    Seq::new(16, |k: int| inv_entry(m, k))
}

/// Whether a matrix has a representable fixed-point inverse: a nonzero
/// determinant and every inverse entry within the well-formed range.
pub open spec fn mat_inv_in_range(m: Seq<int>) -> bool {
    det4(m) != 0 && in_fx_range(mat_inv_v(m))
}

impl Mat4 {
    /// Fixed-point inverse.  Returns `None` exactly when the matrix is
    /// singular or some entry of the inverse falls outside the well-formed
    /// range.
    #[verifier::rlimit(100)]
    pub fn inverse(&self) -> (r: Option<Mat4>)
        requires
            self.wf(),
        ensures
            match r {
                Some(m) => {
                    &&& mat_inv_in_range(self@)
                    &&& m@ == mat_inv_v(self@)
                    &&& m.wf()
                },
                None => !mat_inv_in_range(self@),
            },
    {
        let ghost bm: int = FX_MAX as int;
        let ghost bs: int = 0x200000000000000;
        let m0 = self.e[0];
        let m1 = self.e[1];
        let m2 = self.e[2];
        let m3 = self.e[3];
        let m4 = self.e[4];
        let m5 = self.e[5];
        let m6 = self.e[6];
        let m7 = self.e[7];
        let m8 = self.e[8];
        let m9 = self.e[9];
        let m10 = self.e[10];
        let m11 = self.e[11];
        let m12 = self.e[12];
        let m13 = self.e[13];
        let m14 = self.e[14];
        let m15 = self.e[15];
        proof {
            assert(m0 as int == self@[0] && -FX_MAX <= self@[0] <= FX_MAX);
            assert(m1 as int == self@[1] && -FX_MAX <= self@[1] <= FX_MAX);
            assert(m2 as int == self@[2] && -FX_MAX <= self@[2] <= FX_MAX);
            assert(m3 as int == self@[3] && -FX_MAX <= self@[3] <= FX_MAX);
            assert(m4 as int == self@[4] && -FX_MAX <= self@[4] <= FX_MAX);
            assert(m5 as int == self@[5] && -FX_MAX <= self@[5] <= FX_MAX);
            assert(m6 as int == self@[6] && -FX_MAX <= self@[6] <= FX_MAX);
            assert(m7 as int == self@[7] && -FX_MAX <= self@[7] <= FX_MAX);
            assert(m8 as int == self@[8] && -FX_MAX <= self@[8] <= FX_MAX);
            assert(m9 as int == self@[9] && -FX_MAX <= self@[9] <= FX_MAX);
            assert(m10 as int == self@[10] && -FX_MAX <= self@[10] <= FX_MAX);
            assert(m11 as int == self@[11] && -FX_MAX <= self@[11] <= FX_MAX);
            assert(m12 as int == self@[12] && -FX_MAX <= self@[12] <= FX_MAX);
            assert(m13 as int == self@[13] && -FX_MAX <= self@[13] <= FX_MAX);
            assert(m14 as int == self@[14] && -FX_MAX <= self@[14] <= FX_MAX);
            assert(m15 as int == self@[15] && -FX_MAX <= self@[15] <= FX_MAX);
        }
        let s0 = mul_wide(m0 as i128, m5 as i128, Ghost(bm), Ghost(bm)) - mul_wide(
            m4 as i128,
            m1 as i128,
            Ghost(bm),
            Ghost(bm),
        );
        let s1 = mul_wide(m0 as i128, m6 as i128, Ghost(bm), Ghost(bm)) - mul_wide(
            m4 as i128,
            m2 as i128,
            Ghost(bm),
            Ghost(bm),
        );
        let s2 = mul_wide(m0 as i128, m7 as i128, Ghost(bm), Ghost(bm)) - mul_wide(
            m4 as i128,
            m3 as i128,
            Ghost(bm),
            Ghost(bm),
        );
        let s3 = mul_wide(m1 as i128, m6 as i128, Ghost(bm), Ghost(bm)) - mul_wide(
            m5 as i128,
            m2 as i128,
            Ghost(bm),
            Ghost(bm),
        );
        let s4 = mul_wide(m1 as i128, m7 as i128, Ghost(bm), Ghost(bm)) - mul_wide(
            m5 as i128,
            m3 as i128,
            Ghost(bm),
            Ghost(bm),
        );
        let s5 = mul_wide(m2 as i128, m7 as i128, Ghost(bm), Ghost(bm)) - mul_wide(
            m6 as i128,
            m3 as i128,
            Ghost(bm),
            Ghost(bm),
        );
        let c5 = mul_wide(m10 as i128, m15 as i128, Ghost(bm), Ghost(bm)) - mul_wide(
            m14 as i128,
            m11 as i128,
            Ghost(bm),
            Ghost(bm),
        );
        let c4 = mul_wide(m9 as i128, m15 as i128, Ghost(bm), Ghost(bm)) - mul_wide(
            m13 as i128,
            m11 as i128,
            Ghost(bm),
            Ghost(bm),
        );
        let c3 = mul_wide(m9 as i128, m14 as i128, Ghost(bm), Ghost(bm)) - mul_wide(
            m13 as i128,
            m10 as i128,
            Ghost(bm),
            Ghost(bm),
        );
        let c2 = mul_wide(m8 as i128, m15 as i128, Ghost(bm), Ghost(bm)) - mul_wide(
            m12 as i128,
            m11 as i128,
            Ghost(bm),
            Ghost(bm),
        );
        let c1 = mul_wide(m8 as i128, m14 as i128, Ghost(bm), Ghost(bm)) - mul_wide(
            m12 as i128,
            m10 as i128,
            Ghost(bm),
            Ghost(bm),
        );
        let c0 = mul_wide(m8 as i128, m13 as i128, Ghost(bm), Ghost(bm)) - mul_wide(
            m12 as i128,
            m9 as i128,
            Ghost(bm),
            Ghost(bm),
        );
        let det = mul_wide(s0, c5, Ghost(bs), Ghost(bs)) - mul_wide(s1, c4, Ghost(bs), Ghost(bs))
            + mul_wide(s2, c3, Ghost(bs), Ghost(bs)) + mul_wide(s3, c2, Ghost(bs), Ghost(bs))
            - mul_wide(s4, c1, Ghost(bs), Ghost(bs)) + mul_wide(s5, c0, Ghost(bs), Ghost(bs));
        proof {
            assert(det as int == det4(self@));
        }
        if det == 0 {
            return None;
        }
        let mut out: Vec<i64> = Vec::new();
        let a00 = mul_wide(m5 as i128, c5, Ghost(bm), Ghost(bs)) - mul_wide(
            m6 as i128,
            c4,
            Ghost(bm),
            Ghost(bs),
        ) + mul_wide(m7 as i128, c3, Ghost(bm), Ghost(bs));
        let a01 = mul_wide(m2 as i128, c4, Ghost(bm), Ghost(bs)) - mul_wide(
            m1 as i128,
            c5,
            Ghost(bm),
            Ghost(bs),
        ) - mul_wide(m3 as i128, c3, Ghost(bm), Ghost(bs));
        let a02 = mul_wide(m13 as i128, s5, Ghost(bm), Ghost(bs)) - mul_wide(
            m14 as i128,
            s4,
            Ghost(bm),
            Ghost(bs),
        ) + mul_wide(m15 as i128, s3, Ghost(bm), Ghost(bs));
        let a03 = mul_wide(m10 as i128, s4, Ghost(bm), Ghost(bs)) - mul_wide(
            m9 as i128,
            s5,
            Ghost(bm),
            Ghost(bs),
        ) - mul_wide(m11 as i128, s3, Ghost(bm), Ghost(bs));
        let a10 = mul_wide(m6 as i128, c2, Ghost(bm), Ghost(bs)) - mul_wide(
            m4 as i128,
            c5,
            Ghost(bm),
            Ghost(bs),
        ) - mul_wide(m7 as i128, c1, Ghost(bm), Ghost(bs));
        let a11 = mul_wide(m0 as i128, c5, Ghost(bm), Ghost(bs)) - mul_wide(
            m2 as i128,
            c2,
            Ghost(bm),
            Ghost(bs),
        ) + mul_wide(m3 as i128, c1, Ghost(bm), Ghost(bs));
        let a12 = mul_wide(m14 as i128, s2, Ghost(bm), Ghost(bs)) - mul_wide(
            m12 as i128,
            s5,
            Ghost(bm),
            Ghost(bs),
        ) - mul_wide(m15 as i128, s1, Ghost(bm), Ghost(bs));
        let a13 = mul_wide(m8 as i128, s5, Ghost(bm), Ghost(bs)) - mul_wide(
            m10 as i128,
            s2,
            Ghost(bm),
            Ghost(bs),
        ) + mul_wide(m11 as i128, s1, Ghost(bm), Ghost(bs));
        let a20 = mul_wide(m4 as i128, c4, Ghost(bm), Ghost(bs)) - mul_wide(
            m5 as i128,
            c2,
            Ghost(bm),
            Ghost(bs),
        ) + mul_wide(m7 as i128, c0, Ghost(bm), Ghost(bs));
        let a21 = mul_wide(m1 as i128, c2, Ghost(bm), Ghost(bs)) - mul_wide(
            m0 as i128,
            c4,
            Ghost(bm),
            Ghost(bs),
        ) - mul_wide(m3 as i128, c0, Ghost(bm), Ghost(bs));
        let a22 = mul_wide(m12 as i128, s4, Ghost(bm), Ghost(bs)) - mul_wide(
            m13 as i128,
            s2,
            Ghost(bm),
            Ghost(bs),
        ) + mul_wide(m15 as i128, s0, Ghost(bm), Ghost(bs));
        let a23 = mul_wide(m9 as i128, s2, Ghost(bm), Ghost(bs)) - mul_wide(
            m8 as i128,
            s4,
            Ghost(bm),
            Ghost(bs),
        ) - mul_wide(m11 as i128, s0, Ghost(bm), Ghost(bs));
        let a30 = mul_wide(m5 as i128, c1, Ghost(bm), Ghost(bs)) - mul_wide(
            m4 as i128,
            c3,
            Ghost(bm),
            Ghost(bs),
        ) - mul_wide(m6 as i128, c0, Ghost(bm), Ghost(bs));
        let a31 = mul_wide(m0 as i128, c3, Ghost(bm), Ghost(bs)) - mul_wide(
            m1 as i128,
            c1,
            Ghost(bm),
            Ghost(bs),
        ) + mul_wide(m2 as i128, c0, Ghost(bm), Ghost(bs));
        let a32 = mul_wide(m13 as i128, s1, Ghost(bm), Ghost(bs)) - mul_wide(
            m12 as i128,
            s3,
            Ghost(bm),
            Ghost(bs),
        ) - mul_wide(m14 as i128, s0, Ghost(bm), Ghost(bs));
        let a33 = mul_wide(m8 as i128, s3, Ghost(bm), Ghost(bs)) - mul_wide(
            m9 as i128,
            s1,
            Ghost(bm),
            Ghost(bs),
        ) + mul_wide(m10 as i128, s0, Ghost(bm), Ghost(bs));
        let q0 = div_trunc(a00 * FX_INV_SCALE, det);
        proof {
            assert(q0 == inv_entry(self@, 0));
        }
        if q0 < -(FX_MAX as i128) || q0 > FX_MAX as i128 {
            proof {
                assert(mat_inv_v(self@)[0] == inv_entry(self@, 0));
            }
            return None;
        }
        out.push(q0 as i64);
        let q1 = div_trunc(a01 * FX_INV_SCALE, det);
        proof {
            assert(q1 == inv_entry(self@, 1));
        }
        if q1 < -(FX_MAX as i128) || q1 > FX_MAX as i128 {
            proof {
                assert(mat_inv_v(self@)[1] == inv_entry(self@, 1));
            }
            return None;
        }
        out.push(q1 as i64);
        let q2 = div_trunc(a02 * FX_INV_SCALE, det);
        proof {
            assert(q2 == inv_entry(self@, 2));
        }
        if q2 < -(FX_MAX as i128) || q2 > FX_MAX as i128 {
            proof {
                assert(mat_inv_v(self@)[2] == inv_entry(self@, 2));
            }
            return None;
        }
        out.push(q2 as i64);
        let q3 = div_trunc(a03 * FX_INV_SCALE, det);
        proof {
            assert(q3 == inv_entry(self@, 3));
        }
        if q3 < -(FX_MAX as i128) || q3 > FX_MAX as i128 {
            proof {
                assert(mat_inv_v(self@)[3] == inv_entry(self@, 3));
            }
            return None;
        }
        out.push(q3 as i64);
        let q4 = div_trunc(a10 * FX_INV_SCALE, det);
        proof {
            assert(q4 == inv_entry(self@, 4));
        }
        if q4 < -(FX_MAX as i128) || q4 > FX_MAX as i128 {
            proof {
                assert(mat_inv_v(self@)[4] == inv_entry(self@, 4));
            }
            return None;
        }
        out.push(q4 as i64);
        let q5 = div_trunc(a11 * FX_INV_SCALE, det);
        proof {
            assert(q5 == inv_entry(self@, 5));
        }
        if q5 < -(FX_MAX as i128) || q5 > FX_MAX as i128 {
            proof {
                assert(mat_inv_v(self@)[5] == inv_entry(self@, 5));
            }
            return None;
        }
        out.push(q5 as i64);
        let q6 = div_trunc(a12 * FX_INV_SCALE, det);
        proof {
            assert(q6 == inv_entry(self@, 6));
        }
        if q6 < -(FX_MAX as i128) || q6 > FX_MAX as i128 {
            proof {
                assert(mat_inv_v(self@)[6] == inv_entry(self@, 6));
            }
            return None;
        }
        out.push(q6 as i64);
        let q7 = div_trunc(a13 * FX_INV_SCALE, det);
        proof {
            assert(q7 == inv_entry(self@, 7));
        }
        if q7 < -(FX_MAX as i128) || q7 > FX_MAX as i128 {
            proof {
                assert(mat_inv_v(self@)[7] == inv_entry(self@, 7));
            }
            return None;
        }
        out.push(q7 as i64);
        let q8 = div_trunc(a20 * FX_INV_SCALE, det);
        proof {
            assert(q8 == inv_entry(self@, 8));
        }
        if q8 < -(FX_MAX as i128) || q8 > FX_MAX as i128 {
            proof {
                assert(mat_inv_v(self@)[8] == inv_entry(self@, 8));
            }
            return None;
        }
        out.push(q8 as i64);
        let q9 = div_trunc(a21 * FX_INV_SCALE, det);
        proof {
            assert(q9 == inv_entry(self@, 9));
        }
        if q9 < -(FX_MAX as i128) || q9 > FX_MAX as i128 {
            proof {
                assert(mat_inv_v(self@)[9] == inv_entry(self@, 9));
            }
            return None;
        }
        out.push(q9 as i64);
        let q10 = div_trunc(a22 * FX_INV_SCALE, det);
        proof {
            assert(q10 == inv_entry(self@, 10));
        }
        if q10 < -(FX_MAX as i128) || q10 > FX_MAX as i128 {
            proof {
                assert(mat_inv_v(self@)[10] == inv_entry(self@, 10));
            }
            return None;
        }
        out.push(q10 as i64);
        let q11 = div_trunc(a23 * FX_INV_SCALE, det);
        proof {
            assert(q11 == inv_entry(self@, 11));
        }
        if q11 < -(FX_MAX as i128) || q11 > FX_MAX as i128 {
            proof {
                assert(mat_inv_v(self@)[11] == inv_entry(self@, 11));
            }
            return None;
        }
        out.push(q11 as i64);
        let q12 = div_trunc(a30 * FX_INV_SCALE, det);
        proof {
            assert(q12 == inv_entry(self@, 12));
        }
        if q12 < -(FX_MAX as i128) || q12 > FX_MAX as i128 {
            proof {
                assert(mat_inv_v(self@)[12] == inv_entry(self@, 12));
            }
            return None;
        }
        out.push(q12 as i64);
        let q13 = div_trunc(a31 * FX_INV_SCALE, det);
        proof {
            assert(q13 == inv_entry(self@, 13));
        }
        if q13 < -(FX_MAX as i128) || q13 > FX_MAX as i128 {
            proof {
                assert(mat_inv_v(self@)[13] == inv_entry(self@, 13));
            }
            return None;
        }
        out.push(q13 as i64);
        let q14 = div_trunc(a32 * FX_INV_SCALE, det);
        proof {
            assert(q14 == inv_entry(self@, 14));
        }
        if q14 < -(FX_MAX as i128) || q14 > FX_MAX as i128 {
            proof {
                assert(mat_inv_v(self@)[14] == inv_entry(self@, 14));
            }
            return None;
        }
        out.push(q14 as i64);
        let q15 = div_trunc(a33 * FX_INV_SCALE, det);
        proof {
            assert(q15 == inv_entry(self@, 15));
        }
        if q15 < -(FX_MAX as i128) || q15 > FX_MAX as i128 {
            proof {
                assert(mat_inv_v(self@)[15] == inv_entry(self@, 15));
            }
            return None;
        }
        out.push(q15 as i64);
        let m = Mat4 { e: out };
        proof {
            assert(m@ =~= mat_inv_v(self@));
        }
        Some(m)
    }
}

/// The matrix that maps normalized device coordinates, with both axes in
/// [-1, 1], to pixel coordinates in [0, w] x [0, h]: a scale by half the
/// viewport followed by a translation of the same amount.
pub open spec fn ndc_to_pixels_v(w: int, h: int) -> Seq<int> {
    seq![
        w * (FX_HALF as int), 0, 0, w * (FX_HALF as int),
        0, h * (FX_HALF as int), 0, h * (FX_HALF as int),
        0, 0, FX_ONE as int, 0,
        0, 0, 0, FX_ONE as int,
    ]
}

/// Builds the pixel-mapping matrix for a physical viewport.  The viewport may
/// not exceed 8192 pixels per axis, the largest size whose half fits a
/// well-formed fixed-point entry.
pub fn ndc_to_pixels(width: u32, height: u32) -> (r: Mat4)
    requires
        width <= 8192,
        height <= 8192,
    ensures
        r@ == ndc_to_pixels_v(width as int, height as int),
        r.wf(),
{
    let wx = (width as i64) * FX_HALF;
    let hy = (height as i64) * FX_HALF;
    let mut e: Vec<i64> = Vec::new();
    e.push(wx);
    e.push(0);
    e.push(0);
    e.push(wx);
    e.push(0);
    e.push(hy);
    e.push(0);
    e.push(hy);
    e.push(0);
    e.push(0);
    e.push(FX_ONE);
    e.push(0);
    e.push(0);
    e.push(0);
    e.push(0);
    e.push(FX_ONE);
    let m = Mat4 { e };
    proof {
        assert(m@ =~= ndc_to_pixels_v(width as int, height as int));
    }
    m
}

/// A 2D affine transform as its six fixed-point coefficients, mapping
/// `(x, y)` to `(a*x + c*y + e, b*x + d*y + f)`.
#[derive(Clone, Copy, PartialEq, Eq, Structural, Debug)]
pub struct Affine {
    pub a: i64,
    pub b: i64,
    pub c: i64,
    pub d: i64,
    pub e: i64,
    pub f: i64,
}

impl View for Affine {
    type V = Seq<int>;

    closed spec fn view(&self) -> Seq<int> {
        seq![
            self.a as int,
            self.b as int,
            self.c as int,
            self.d as int,
            self.e as int,
            self.f as int,
        ]
    }
}

/// The six affine coefficients of a composed 4x4 transform: the 2x2
/// linear part from the top-left block with the off-diagonal signs flipped
/// for the Y-down convention, and the fourth column's translation entries.
pub open spec fn affine_of(m: Seq<int>) -> Seq<int> {
    seq![m[0], -m[4], -m[1], m[5], m[3], m[7]]
}

/// Extracts the affine coefficients of a composed transform.
pub fn affine_from_mat(m: &Mat4) -> (r: Affine)
    requires
        m.wf(),
    ensures
        r@ == affine_of(m@),
{
    let va = m.entry(0);
    let vb = m.entry(4);
    let vc = m.entry(1);
    let vd = m.entry(5);
    let ve = m.entry(3);
    let vf = m.entry(7);
    let r = Affine { a: va, b: -vb, c: -vc, d: vd, e: ve, f: vf };
    proof {
        assert(r@ =~= affine_of(m@));
    }
    r
}

} // verus!
