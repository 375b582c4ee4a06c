use vstd::prelude::*;
use crate::hall_symbols::matrix_symbol::matrices::{
    AffineOp, IntMatrix, Matrix3, SeitzMatrix, SeitzMatrixError,
};
use crate::hall_symbols::matrix_symbol::notations::RotationType;
use crate::hall_symbols::translation_symbol::{IntVector, Vector3};
use crate::hall_symbols::SymmetryElement;
use crate::utils::positive_mod_stbn_i128;

verus! {

/// The exact product of two machine integers.
pub fn wide_product(a: i32, b: i32) -> (r: i128)
    ensures
        r == (a as int) * (b as int),
        -0x4000_0000_0000_0000 <= r <= 0x4000_0000_0000_0000,
{
    assert(-0x4000_0000_0000_0000 <= (a as int) * (b as int) <= 0x4000_0000_0000_0000)
        by (nonlinear_arith)
        requires
            -0x8000_0000 <= a <= 0x7fff_ffff,
            -0x8000_0000 <= b <= 0x7fff_ffff,
    ;
    let wa: i128 = a as i128;
    let wb: i128 = b as i128;
    wa * wb
}

/// The exact value of `a · (b · c − d · e)`, one term of a 3×3 determinant.
pub fn wide_minor_term(a: i32, b: i32, c: i32, d: i32, e: i32) -> (r: i128)
    ensures
        r == (a as int) * ((b as int) * (c as int) - (d as int) * (e as int)),
        -0x1_0000_0000_0000_0000_0000_0000 <= r <= 0x1_0000_0000_0000_0000_0000_0000,
{
    let minor: i128 = wide_product(b, c) - wide_product(d, e);
    assert(-0x1_0000_0000_0000_0000_0000_0000 <= (a as int) * (minor as int)
        <= 0x1_0000_0000_0000_0000_0000_0000) by (nonlinear_arith)
        requires
            -0x8000_0000 <= a <= 0x7fff_ffff,
            -0x8000_0000_0000_0000 <= minor <= 0x8000_0000_0000_0000,
    ;
    let wa: i128 = a as i128;
    wa * minor
}

/// The exact value of `a·x + b·y + c·z`, one row of a matrix product.
pub fn wide_row_dot(a: i32, b: i32, c: i32, x: i32, y: i32, z: i32) -> (r: i128)
    ensures
        r == (a as int) * (x as int) + (b as int) * (y as int) + (c as int) * (z as int),
        -0xc000_0000_0000_0000 <= r <= 0xc000_0000_0000_0000,
{
    wide_product(a, x) + wide_product(b, y) + wide_product(c, z)
}

/// `v` with the sign `s`, a number among -1, 0 and 1.
pub fn signed_copy(v: i128, s: i32) -> (r: i128)
    requires
        -1 <= s <= 1,
        -0x1000_0000_0000_0000_0000_0000_0000 <= v <= 0x1000_0000_0000_0000_0000_0000_0000,
    ensures
        r == v * s,
        -0x1000_0000_0000_0000_0000_0000_0000 <= r <= 0x1000_0000_0000_0000_0000_0000_0000,
{
    if s == 1 {
        assert(v * s == v) by (nonlinear_arith)
            requires
                s == 1,
        ;
        v
    } else if s == 0 {
        assert(v * s == 0) by (nonlinear_arith)
            requires
                s == 0,
        ;
        0
    } else {
        assert(v * s == -v) by (nonlinear_arith)
            requires
                s == -1,
        ;
        -v
    }
}

/// Whether a wide value fits a machine `i32`.
pub fn fits_i32(v: i128) -> (b: bool)
    ensures
        b == (i32::MIN <= v <= i32::MAX),
{
    -0x8000_0000 <= v && v <= 0x7fff_ffff
}

impl Matrix3 {
    pub fn identity() -> (m: Matrix3)
        ensures
            m@ == IntMatrix::identity(),
    {
        Matrix3 { m11: 1, m12: 0, m13: 0, m21: 0, m22: 1, m23: 0, m31: 0, m32: 0, m33: 1 }
    }

    /// The determinant, exact for every matrix of machine integers.
    pub fn determinant(&self) -> (d: i128)
        ensures
            d == self@.det(),
            -0x4_0000_0000_0000_0000_0000_0000 <= d <= 0x4_0000_0000_0000_0000_0000_0000,
    {
        let t1: i128 = wide_minor_term(self.m11, self.m22, self.m33, self.m23, self.m32);
        let t2: i128 = wide_minor_term(self.m12, self.m21, self.m33, self.m23, self.m31);
        let t3: i128 = wide_minor_term(self.m13, self.m21, self.m32, self.m22, self.m31);
        t1 - t2 + t3
    }

    /// The sum of the diagonal entries.
    pub fn trace(&self) -> (t: i64)
        ensures
            t == self@.trace(),
    {
        let a: i64 = self.m11 as i64;
        let b: i64 = self.m22 as i64;
        let c: i64 = self.m33 as i64;
        a + b + c
    }

    /// The matrix with every entry negated, where none of them is `i32::MIN`.
    pub fn negated(&self) -> (m: Option<Matrix3>)
        ensures
            m is Some <==> self@.scaled(-1).fits(),
            m is Some ==> m->0@ == self@.scaled(-1),
    {
        if self.m11 == i32::MIN || self.m12 == i32::MIN || self.m13 == i32::MIN || self.m21
            == i32::MIN || self.m22 == i32::MIN || self.m23 == i32::MIN || self.m31 == i32::MIN
            || self.m32 == i32::MIN || self.m33 == i32::MIN {
            None
        } else {
            Some(
                Matrix3 {
                    m11: -self.m11,
                    m12: -self.m12,
                    m13: -self.m13,
                    m21: -self.m21,
                    m22: -self.m22,
                    m23: -self.m23,
                    m31: -self.m31,
                    m32: -self.m32,
                    m33: -self.m33,
                },
            )
        }
    }

    /// The matrix product, where every entry of it fits a machine integer.
    pub fn product(&self, o: &Matrix3) -> (m: Option<Matrix3>)
        ensures
            m is Some <==> self@.times(o@).fits(),
            m is Some ==> m->0@ == self@.times(o@),
    {
        let p11: i128 = wide_row_dot(self.m11, self.m12, self.m13, o.m11, o.m21, o.m31);
        let p12: i128 = wide_row_dot(self.m11, self.m12, self.m13, o.m12, o.m22, o.m32);
        let p13: i128 = wide_row_dot(self.m11, self.m12, self.m13, o.m13, o.m23, o.m33);
        let p21: i128 = wide_row_dot(self.m21, self.m22, self.m23, o.m11, o.m21, o.m31);
        let p22: i128 = wide_row_dot(self.m21, self.m22, self.m23, o.m12, o.m22, o.m32);
        let p23: i128 = wide_row_dot(self.m21, self.m22, self.m23, o.m13, o.m23, o.m33);
        let p31: i128 = wide_row_dot(self.m31, self.m32, self.m33, o.m11, o.m21, o.m31);
        let p32: i128 = wide_row_dot(self.m31, self.m32, self.m33, o.m12, o.m22, o.m32);
        let p33: i128 = wide_row_dot(self.m31, self.m32, self.m33, o.m13, o.m23, o.m33);
        if fits_i32(p11) && fits_i32(p12) && fits_i32(p13) && fits_i32(p21) && fits_i32(p22)
            && fits_i32(p23) && fits_i32(p31) && fits_i32(p32) && fits_i32(p33) {
            Some(
                Matrix3 {
                    m11: p11 as i32,
                    m12: p12 as i32,
                    m13: p13 as i32,
                    m21: p21 as i32,
                    m22: p22 as i32,
                    m23: p23 as i32,
                    m31: p31 as i32,
                    m32: p32 as i32,
                    m33: p33 as i32,
                },
            )
        } else {
            None
        }
    }

    /// The image of a column vector, each component reduced into `[0, 12)`
    /// after `offset` is added.
    pub fn apply_reduced(&self, v: &Vector3, offset: &Vector3) -> (r: Vector3)
        ensures
            r@ == self@.apply(v@).plus(offset@).reduced(),
            r@.is_reduced(),
    {
        let x: i128 = wide_row_dot(self.m11, self.m12, self.m13, v.x, v.y, v.z) + (offset.x as i128);
        let y: i128 = wide_row_dot(self.m21, self.m22, self.m23, v.x, v.y, v.z) + (offset.y as i128);
        let z: i128 = wide_row_dot(self.m31, self.m32, self.m33, v.x, v.y, v.z) + (offset.z as i128);
        Vector3 {
            x: positive_mod_stbn_i128(x),
            y: positive_mod_stbn_i128(y),
            z: positive_mod_stbn_i128(z),
        }
    }

    /// Whether every entry is -1, 0 or 1.
    pub fn has_unit_entries(&self) -> (b: bool)
        ensures
            b == self@.is_unit_entries(),
    {
        -1 <= self.m11 && self.m11 <= 1 && -1 <= self.m12 && self.m12 <= 1 && -1 <= self.m13
            && self.m13 <= 1 && -1 <= self.m21 && self.m21 <= 1 && -1 <= self.m22 && self.m22 <= 1
            && -1 <= self.m23 && self.m23 <= 1 && -1 <= self.m31 && self.m31 <= 1 && -1
            <= self.m32 && self.m32 <= 1 && -1 <= self.m33 && self.m33 <= 1
    }
}

impl Vector3 {
    /// The sum of two vectors, each component reduced into `[0, 12)`.
    pub fn plus_reduced(&self, o: &Vector3) -> (r: Vector3)
        ensures
            r@ == self@.plus(o@).reduced(),
            r@.is_reduced(),
    {
        let x: i128 = (self.x as i128) + (o.x as i128);
        let y: i128 = (self.y as i128) + (o.y as i128);
        let z: i128 = (self.z as i128) + (o.z as i128);
        Vector3 {
            x: positive_mod_stbn_i128(x),
            y: positive_mod_stbn_i128(y),
            z: positive_mod_stbn_i128(z),
        }
    }

    /// Whether the two vectors agree up to whole cells.
    pub fn is_congruent(&self, o: &Vector3) -> (b: bool)
        ensures
            b == self@.congruent(o@),
    {
        let dx: i64 = (self.x as i64) - (o.x as i64);
        let dy: i64 = (self.y as i64) - (o.y as i64);
        let dz: i64 = (self.z as i64) - (o.z as i64);
        dx % 12 == 0 && dy % 12 == 0 && dz % 12 == 0
    }
}

impl SeitzMatrix {
    pub fn identity() -> (m: SeitzMatrix)
        ensures
            m@ == AffineOp::identity(),
    {
        SeitzMatrix::from_parts(Matrix3::identity(), Vector3::zeros())
    }

    pub fn inversion() -> (m: SeitzMatrix)
        ensures
            m@ == AffineOp::inversion(),
    {
        SeitzMatrix::from_parts(
            Matrix3 { m11: -1, m12: 0, m13: 0, m21: 0, m22: -1, m23: 0, m31: 0, m32: 0, m33: -1 },
            Vector3::zeros(),
        )
    }

    /// The operation with the given 4×4 matrix, written row by row.
    pub fn new(v: [[i32; 4]; 4]) -> (m: SeitzMatrix)
        requires
            AffineOp::is_affine_rows(v),
        ensures
            m@ == AffineOp::of_rows(v),
    {
        SeitzMatrix::from_parts(
            Matrix3 {
                m11: v[0][0],
                m12: v[0][1],
                m13: v[0][2],
                m21: v[1][0],
                m22: v[1][1],
                m23: v[1][2],
                m31: v[2][0],
                m32: v[2][1],
                m33: v[2][2],
            },
            Vector3 { x: v[0][3], y: v[1][3], z: v[2][3] },
        )
    }

    /// The 4×4 matrix of the operation, row by row.
    pub fn matrix(&self) -> (v: [[i32; 4]; 4])
        ensures
            AffineOp::of_rows(v) == self@,
            AffineOp::is_affine_rows(v),
    {
        let r = self.rotation_part();
        let t = self.translation_part();
        [[r.m11, r.m12, r.m13, t.x], [r.m21, r.m22, r.m23, t.y], [r.m31, r.m32, r.m33, t.z], [
            0,
            0,
            0,
            1,
        ]]
    }

    /// Whether the linear part differs from that of `reference` and from
    /// its negative.
    pub fn is_unique_rotation(&self, reference: &SeitzMatrix) -> (b: bool)
        ensures
            b == (self@.rot != reference@.rot && self@.rot.scaled(-1) != reference@.rot),
    {
        let r = self.rotation_part();
        let q = reference.rotation_part();
        if r == q {
            false
        } else {
            match r.negated() {
                Some(n) => n != q,
                None => true,
            }
        }
    }

    /// The determinant of the linear part.
    pub fn det(&self) -> (d: i128)
        ensures
            d == self@.rot.det(),
    {
        self.rotation_part().determinant()
    }

    /// The trace of the linear part.
    pub fn trace(&self) -> (t: i64)
        ensures
            t == self@.rot.trace(),
    {
        self.rotation_part().trace()
    }

    /// Classifies the linear part by determinant and trace.
    pub fn rotation_type(&self) -> (r: Result<RotationType, SeitzMatrixError>)
        ensures
            match r {
                Ok(t) => self@.kind() == Some(t),
                Err(SeitzMatrixError::NotRotationMatrix(v)) => self@.kind() is None
                    && AffineOp::of_rows(v) == self@ && AffineOp::is_affine_rows(v),
            },
    {
        let det = self.det();
        let trace = self.trace();
        if det == -1 && trace == -3 {
            Ok(RotationType::I)
        } else if det == -1 && trace == -2 {
            Ok(RotationType::M6)
        } else if det == -1 && trace == -1 {
            Ok(RotationType::M4)
        } else if det == -1 && trace == 0 {
            Ok(RotationType::M3)
        } else if det == -1 && trace == 1 {
            Ok(RotationType::M)
        } else if det == 1 && trace == -1 {
            Ok(RotationType::N2)
        } else if det == 1 && trace == 0 {
            Ok(RotationType::N3)
        } else if det == 1 && trace == 1 {
            Ok(RotationType::N4)
        } else if det == 1 && trace == 2 {
            Ok(RotationType::N6)
        } else if det == 1 && trace == 3 {
            Ok(RotationType::E)
        } else {
            Err(SeitzMatrixError::NotRotationMatrix(self.matrix()))
        }
    }

    /// The proper rotation behind an operation that is neither the identity
    /// nor the inversion: the linear part times its determinant.
    pub fn proper_rotation(&self) -> (r: Option<Matrix3>)
        ensures
            r is Some <==> (self@.kind() is Some && self@.kind() != Some(RotationType::E)
                && self@.kind() != Some(RotationType::I) && self@.rot.scaled(
                self@.rot.det(),
            ).fits()),
            r is Some ==> r->0@ == self@.rot.scaled(self@.rot.det()),
    {
        match self.rotation_type() {
            Ok(t) => {
                if t == RotationType::E || t == RotationType::I {
                    None
                } else if self.det() == 1 {
                    Some(self.rotation_part())
                } else {
                    self.rotation_part().negated()
                }
            },
            Err(_) => None,
        }
    }

    /// The composition "first `rhs`, then `self`", or `None` where an entry
    /// of the linear part would not fit a machine integer.
    pub fn checked_compose(&self, rhs: &SeitzMatrix) -> (r: Option<SeitzMatrix>)
        ensures
            r is Some <==> self@.rot.times(rhs@.rot).fits(),
            r is Some ==> r->0@ == self@.compose(rhs@),
    {
        let a = self.rotation_part();
        let b = rhs.rotation_part();
        match a.product(&b) {
            Some(rot) => {
                let t = a.apply_reduced(&rhs.translation_part(), &self.translation_part());
                Some(SeitzMatrix::from_parts(rot, t))
            },
            None => None,
        }
    }

    /// The inverse operation, with its translation reduced into `[0, 12)`;
    /// `None` where the linear part has no integer inverse of machine
    /// integers.
    pub fn try_inverse(&self) -> (r: Option<SeitzMatrix>)
        ensures
            r is Some <==> self@.is_invertible(),
            r is Some ==> r->0@ == self@.inverse(),
    {
        let m = self.rotation_part();
        let t = self.translation_part();
        let det = m.determinant();
        if det != 1 && det != -1 {
            return None;
        }
        let s: i32 = if det == 1 { 1 } else { -1 };
        let a11: i128 = signed_copy(wide_product(m.m22, m.m33) - wide_product(m.m23, m.m32), s);
        let a12: i128 = signed_copy(wide_product(m.m13, m.m32) - wide_product(m.m12, m.m33), s);
        let a13: i128 = signed_copy(wide_product(m.m12, m.m23) - wide_product(m.m13, m.m22), s);
        let a21: i128 = signed_copy(wide_product(m.m23, m.m31) - wide_product(m.m21, m.m33), s);
        let a22: i128 = signed_copy(wide_product(m.m11, m.m33) - wide_product(m.m13, m.m31), s);
        let a23: i128 = signed_copy(wide_product(m.m13, m.m21) - wide_product(m.m11, m.m23), s);
        let a31: i128 = signed_copy(wide_product(m.m21, m.m32) - wide_product(m.m22, m.m31), s);
        let a32: i128 = signed_copy(wide_product(m.m12, m.m31) - wide_product(m.m11, m.m32), s);
        let a33: i128 = signed_copy(wide_product(m.m11, m.m22) - wide_product(m.m12, m.m21), s);
        // The negative of an entry that fits may not fit: the translation is
        // computed from `-i32::MAX ..= i32::MAX` only.
        if !(fits_i32(a11) && fits_i32(a12) && fits_i32(a13) && fits_i32(a21) && fits_i32(a22)
            && fits_i32(a23) && fits_i32(a31) && fits_i32(a32) && fits_i32(a33)) {
            return None;
        }
        let inv = Matrix3 {
            m11: a11 as i32,
            m12: a12 as i32,
            m13: a13 as i32,
            m21: a21 as i32,
            m22: a22 as i32,
            m23: a23 as i32,
            m31: a31 as i32,
            m32: a32 as i32,
            m33: a33 as i32,
        };
        let x: i128 = -wide_row_dot(inv.m11, inv.m12, inv.m13, t.x, t.y, t.z);
        let y: i128 = -wide_row_dot(inv.m21, inv.m22, inv.m23, t.x, t.y, t.z);
        let z: i128 = -wide_row_dot(inv.m31, inv.m32, inv.m33, t.x, t.y, t.z);
        proof {
            let neg = inv@.scaled(-1);
            assert(neg.apply(t@).x == x) by (nonlinear_arith)
                requires
                    neg.apply(t@).x == (-1 * inv@.m11) * t@.x + (-1 * inv@.m12) * t@.y + (-1
                        * inv@.m13) * t@.z,
                    x == -(inv@.m11 * t@.x + inv@.m12 * t@.y + inv@.m13 * t@.z),
            ;
            assert(neg.apply(t@).y == y) by (nonlinear_arith)
                requires
                    neg.apply(t@).y == (-1 * inv@.m21) * t@.x + (-1 * inv@.m22) * t@.y + (-1
                        * inv@.m23) * t@.z,
                    y == -(inv@.m21 * t@.x + inv@.m22 * t@.y + inv@.m23 * t@.z),
            ;
            assert(neg.apply(t@).z == z) by (nonlinear_arith)
                requires
                    neg.apply(t@).z == (-1 * inv@.m31) * t@.x + (-1 * inv@.m32) * t@.y + (-1
                        * inv@.m33) * t@.z,
                    z == -(inv@.m31 * t@.x + inv@.m32 * t@.y + inv@.m33 * t@.z),
            ;
        }
        let tr = Vector3 {
            x: positive_mod_stbn_i128(x),
            y: positive_mod_stbn_i128(y),
            z: positive_mod_stbn_i128(z),
        };
        Some(SeitzMatrix::from_parts(inv, tr))
    }

    /// The `exponent`-th power under composition: the identity for zero,
    /// and a power of the inverse for a negative exponent.
    pub fn powi(&self, exponent: i32) -> (r: SeitzMatrix)
        requires
            exponent > 0 ==> self@.powers_fit(exponent as nat),
            exponent < 0 ==> self@.is_invertible() && self@.inverse().powers_fit(
                (-exponent) as nat,
            ),
        ensures
            exponent == 0 ==> r@ == AffineOp::identity(),
            exponent > 0 ==> r@ == self@.power(exponent as nat),
            exponent < 0 ==> r@ == self@.inverse().power((-exponent) as nat),
    {
        if exponent == 0 {
            SeitzMatrix::identity()
        } else if exponent > 0 {
            self.repeated(exponent as i64)
        } else {
            match self.try_inverse() {
                Some(inv) => inv.repeated(-(exponent as i64)),
                None => SeitzMatrix::identity(),
            }
        }
    }

    /// The `n`-fold composition of the operation with itself.
    pub fn repeated(&self, n: i64) -> (r: SeitzMatrix)
        requires
            n >= 1,
            self@.powers_fit(n as nat),
        ensures
            r@ == self@.power(n as nat),
    {
        let mut acc = *self;
        let mut k: i64 = 1;
        while k < n
            invariant
                1 <= k <= n,
                acc@ == self@.power(k as nat),
                self@.powers_fit(n as nat),
            decreases n - k,
        {
            assert(self@.power((k + 1) as nat) == self@.power(k as nat).compose(self@));
            assert(self@.power((k + 1) as nat).rot.fits());
            match acc.checked_compose(self) {
                Some(next) => {
                    acc = next;
                },
                None => {},
            }
            k = k + 1;
        }
        acc
    }

    /// The preferred direction that the linear part fixes (or reverses,
    /// where its determinant is negative): among the directions with
    /// components -1, 0 or 1 whose last non-zero component is positive, the
    /// first in the order of `axis_rank`.  `None` where there is none.
    pub fn eigenvector(&self) -> (r: Option<Vector3>)
        ensures
            match r {
                Some(v) => self@.is_axis(v@) && forall|w: IntVector| #[trigger]
                    self@.is_axis(w) ==> AffineOp::axis_rank(v@) <= AffineOp::axis_rank(w),
                None => forall|w: IntVector| !#[trigger] self@.is_axis(w),
            },
    {
        let m = self.rotation_part();
        let det = m.determinant();
        let mut idx: i32 = 0;
        while idx < 27
            invariant
                0 <= idx <= 27,
                m@ == self@.rot,
                det == m@.det(),
                -0x4_0000_0000_0000_0000_0000_0000 <= det <= 0x4_0000_0000_0000_0000_0000_0000,
                forall|w: IntVector| #[trigger]
                    self@.is_axis(w) ==> idx <= AffineOp::axis_rank(w),
            decreases 27 - idx,
        {
            let x: i32 = 1 - idx / 9;
            let y: i32 = 1 - (idx / 3) % 3;
            let z: i32 = 1 - idx % 3;
            let v = Vector3 { x, y, z };
            assert(AffineOp::axis_rank(v@) == idx);
            let leaning = z > 0 || (z == 0 && (y > 0 || (y == 0 && x > 0)));
            if leaning {
                let ix: i128 = wide_row_dot(m.m11, m.m12, m.m13, x, y, z);
                let iy: i128 = wide_row_dot(m.m21, m.m22, m.m23, x, y, z);
                let iz: i128 = wide_row_dot(m.m31, m.m32, m.m33, x, y, z);
                if ix == signed_copy(det, x) && iy == signed_copy(det, y) && iz == signed_copy(
                    det,
                    z,
                ) {
                    assert(self@.is_axis(v@));
                    return Some(v);
                }
            }
            assert forall|w: IntVector| #[trigger] self@.is_axis(w) implies idx + 1
                <= AffineOp::axis_rank(w) by {
                if AffineOp::axis_rank(w) == idx {
                    assert(w == v@);
                }
            }
            idx = idx + 1;
        }
        assert forall|w: IntVector| !#[trigger] self@.is_axis(w) by {
            if self@.is_axis(w) {
                assert(AffineOp::axis_rank(w) <= 26);
            }
        }
        None
    }

}

impl crate::hall_symbols::SymmetryElement for SeitzMatrix {
    open spec fn has_copies(&self) -> bool {
        self@.kind() is Some
    }

    /// The order of the rotation behind the operation.
    open spec fn copies(&self) -> nat {
        self@.kind()->0.fold()
    }

    fn equiv_num(&self) -> (n: usize) {
        match self.rotation_type() {
            Ok(RotationType::E) => 1,
            Ok(RotationType::N2) => 2,
            Ok(RotationType::N3) => 3,
            Ok(RotationType::N4) => 4,
            Ok(RotationType::N6) => 6,
            Ok(RotationType::I) => 1,
            Ok(RotationType::M) => 2,
            Ok(RotationType::M3) => 3,
            Ok(RotationType::M4) => 4,
            Ok(RotationType::M6) => 6,
            Err(_) => 1,
        }
    }
}

impl PartialEq for SeitzMatrix {
    /// Equality up to whole-cell translations.
    fn eq(&self, other: &SeitzMatrix) -> (b: bool) {
        let r1 = self.rotation_part();
        let r2 = other.rotation_part();
        if r1 == r2 {
            let t1 = self.translation_part();
            let t2 = other.translation_part();
            t1.is_congruent(&t2)
        } else {
            false
        }
    }
}

impl vstd::std_specs::cmp::PartialEqSpecImpl for SeitzMatrix {
    open spec fn obeys_eq_spec() -> bool {
        true
    }

    open spec fn eq_spec(&self, other: &SeitzMatrix) -> bool {
        self@.same_modulo_cells(other@)
    }
}

impl Eq for SeitzMatrix {

}

impl core::ops::Mul for SeitzMatrix {
    type Output = SeitzMatrix;

    /// Composition: `a * b` applies `b` first.
    fn mul(self, rhs: SeitzMatrix) -> (ret: SeitzMatrix) {
        match self.checked_compose(&rhs) {
            Some(m) => {
                proof {
                    let target = SeitzMatrix::of_op(self@.compose(rhs@));
                    SeitzMatrix::lemma_of_op(self@.compose(rhs@));
                    SeitzMatrix::lemma_view_injective(m, target);
                }
                m
            },
            None => self,
        }
    }
}

impl vstd::std_specs::ops::MulSpecImpl for SeitzMatrix {
    open spec fn obeys_mul_spec() -> bool {
        true
    }

    open spec fn mul_req(self, rhs: SeitzMatrix) -> bool {
        self@.rot.times(rhs@.rot).fits()
    }

    open spec fn mul_spec(self, rhs: SeitzMatrix) -> SeitzMatrix {
        SeitzMatrix::of_op(self@.compose(rhs@))
    }
}

impl core::ops::Add<Vector3> for SeitzMatrix {
    type Output = SeitzMatrix;

    /// The operation followed by a translation.
    fn add(self, rhs: Vector3) -> (ret: SeitzMatrix) {
        let t = self.translation_part().plus_reduced(&rhs);
        let m = SeitzMatrix::from_parts(self.rotation_part(), t);
        proof {
            self.lemma_view_fits();
            SeitzMatrix::lemma_of_op(self@.shifted_by(rhs@));
            SeitzMatrix::lemma_view_injective(m, SeitzMatrix::of_op(self@.shifted_by(rhs@)));
        }
        m
    }
}

impl vstd::std_specs::ops::AddSpecImpl<Vector3> for SeitzMatrix {
    open spec fn obeys_add_spec() -> bool {
        true
    }

    open spec fn add_req(self, rhs: Vector3) -> bool {
        true
    }

    open spec fn add_spec(self, rhs: Vector3) -> SeitzMatrix {
        SeitzMatrix::of_op(self@.shifted_by(rhs@))
    }
}

} // verus!
