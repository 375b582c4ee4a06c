use vstd::prelude::*;
use crate::hall_symbols::matrix_symbol::notations::RotationType;
use crate::hall_symbols::translation_symbol::{IntVector, Vector3};

pub mod algebra;
pub mod jones_faithful;
pub mod rotation_matrices;
pub mod seitz_mat_impl;

verus! {

/// A 3×3 matrix of machine integers; `m23` is the entry in row 2, column 3.
#[derive(Debug, Clone, Copy, PartialEq, Eq, Structural, PartialOrd, Ord, Hash)]
pub struct Matrix3 {
    pub m11: i32,
    pub m12: i32,
    pub m13: i32,
    pub m21: i32,
    pub m22: i32,
    pub m23: i32,
    pub m31: i32,
    pub m32: i32,
    pub m33: i32,
}

/// The mathematical content of a [`Matrix3`].
pub struct IntMatrix {
    pub m11: int,
    pub m12: int,
    pub m13: int,
    pub m21: int,
    pub m22: int,
    pub m23: int,
    pub m31: int,
    pub m32: int,
    pub m33: int,
}

impl View for Matrix3 {
    type V = IntMatrix;

    open spec fn view(&self) -> IntMatrix {
        IntMatrix {
            m11: self.m11 as int,
            m12: self.m12 as int,
            m13: self.m13 as int,
            m21: self.m21 as int,
            m22: self.m22 as int,
            m23: self.m23 as int,
            m31: self.m31 as int,
            m32: self.m32 as int,
            m33: self.m33 as int,
        }
    }
}

impl IntMatrix {
    pub open spec fn identity() -> IntMatrix {
        IntMatrix { m11: 1, m12: 0, m13: 0, m21: 0, m22: 1, m23: 0, m31: 0, m32: 0, m33: 1 }
    }

    /// The matrix of the inversion through the origin.
    pub open spec fn inversion() -> IntMatrix {
        IntMatrix { m11: -1, m12: 0, m13: 0, m21: 0, m22: -1, m23: 0, m31: 0, m32: 0, m33: -1 }
    }

    /// Every entry multiplied by `k`.
    pub open spec fn scaled(self, k: int) -> IntMatrix {
        IntMatrix {
            m11: k * self.m11,
            m12: k * self.m12,
            m13: k * self.m13,
            m21: k * self.m21,
            m22: k * self.m22,
            m23: k * self.m23,
            m31: k * self.m31,
            m32: k * self.m32,
            m33: k * self.m33,
        }
    }

    /// Entry-wise difference.
    pub open spec fn minus(self, o: IntMatrix) -> IntMatrix {
        IntMatrix {
            m11: self.m11 - o.m11,
            m12: self.m12 - o.m12,
            m13: self.m13 - o.m13,
            m21: self.m21 - o.m21,
            m22: self.m22 - o.m22,
            m23: self.m23 - o.m23,
            m31: self.m31 - o.m31,
            m32: self.m32 - o.m32,
            m33: self.m33 - o.m33,
        }
    }

    /// The matrix product `self · o`.
    pub open spec fn times(self, o: IntMatrix) -> IntMatrix {
        IntMatrix {
            m11: self.m11 * o.m11 + self.m12 * o.m21 + self.m13 * o.m31,
            m12: self.m11 * o.m12 + self.m12 * o.m22 + self.m13 * o.m32,
            m13: self.m11 * o.m13 + self.m12 * o.m23 + self.m13 * o.m33,
            m21: self.m21 * o.m11 + self.m22 * o.m21 + self.m23 * o.m31,
            m22: self.m21 * o.m12 + self.m22 * o.m22 + self.m23 * o.m32,
            m23: self.m21 * o.m13 + self.m22 * o.m23 + self.m23 * o.m33,
            m31: self.m31 * o.m11 + self.m32 * o.m21 + self.m33 * o.m31,
            m32: self.m31 * o.m12 + self.m32 * o.m22 + self.m33 * o.m32,
            m33: self.m31 * o.m13 + self.m32 * o.m23 + self.m33 * o.m33,
        }
    }

    /// The image `self · v` of a column vector.
    pub open spec fn apply(self, v: IntVector) -> IntVector {
        IntVector {
            x: self.m11 * v.x + self.m12 * v.y + self.m13 * v.z,
            y: self.m21 * v.x + self.m22 * v.y + self.m23 * v.z,
            z: self.m31 * v.x + self.m32 * v.y + self.m33 * v.z,
        }
    }

    /// The determinant, expanded along the first row.
    pub open spec fn det(self) -> int {
        self.m11 * (self.m22 * self.m33 - self.m23 * self.m32) - self.m12 * (self.m21 * self.m33
            - self.m23 * self.m31) + self.m13 * (self.m21 * self.m32 - self.m22 * self.m31)
    }

    /// The sum of the diagonal entries.
    pub open spec fn trace(self) -> int {
        self.m11 + self.m22 + self.m33
    }

    /// The transposed matrix of cofactors: `self · self.adjugate()` is
    /// `self.det()` times the identity.
    pub open spec fn adjugate(self) -> IntMatrix {
        IntMatrix {
            m11: self.m22 * self.m33 - self.m23 * self.m32,
            m12: self.m13 * self.m32 - self.m12 * self.m33,
            m13: self.m12 * self.m23 - self.m13 * self.m22,
            m21: self.m23 * self.m31 - self.m21 * self.m33,
            m22: self.m11 * self.m33 - self.m13 * self.m31,
            m23: self.m13 * self.m21 - self.m11 * self.m23,
            m31: self.m21 * self.m32 - self.m22 * self.m31,
            m32: self.m12 * self.m31 - self.m11 * self.m32,
            m33: self.m11 * self.m22 - self.m12 * self.m21,
        }
    }

    /// Every entry has absolute value at most `b`.
    pub open spec fn within(self, b: int) -> bool {
        &&& -b <= self.m11 <= b
        &&& -b <= self.m12 <= b
        &&& -b <= self.m13 <= b
        &&& -b <= self.m21 <= b
        &&& -b <= self.m22 <= b
        &&& -b <= self.m23 <= b
        &&& -b <= self.m31 <= b
        &&& -b <= self.m32 <= b
        &&& -b <= self.m33 <= b
    }

    /// Every entry is -1, 0 or 1, as in a crystallographic point operation
    /// written in a lattice basis.
    pub open spec fn is_unit_entries(self) -> bool {
        self.within(1)
    }

    /// Every entry fits a machine `i32`.
    pub open spec fn fits(self) -> bool {
        &&& i32::MIN <= self.m11 <= i32::MAX
        &&& i32::MIN <= self.m12 <= i32::MAX
        &&& i32::MIN <= self.m13 <= i32::MAX
        &&& i32::MIN <= self.m21 <= i32::MAX
        &&& i32::MIN <= self.m22 <= i32::MAX
        &&& i32::MIN <= self.m23 <= i32::MAX
        &&& i32::MIN <= self.m31 <= i32::MAX
        &&& i32::MIN <= self.m32 <= i32::MAX
        &&& i32::MIN <= self.m33 <= i32::MAX
    }
}

/// The mathematical content of a [`SeitzMatrix`]: the map
/// `v ↦ rot · v + tr / 12` on fractional coordinates.
pub struct AffineOp {
    pub rot: IntMatrix,
    pub tr: IntVector,
}

impl AffineOp {
    pub open spec fn identity() -> AffineOp {
        AffineOp { rot: IntMatrix::identity(), tr: IntVector::zero() }
    }

    pub open spec fn inversion() -> AffineOp {
        AffineOp { rot: IntMatrix::inversion(), tr: IntVector::zero() }
    }

    /// The pure translation by `t`.
    pub open spec fn translation(t: IntVector) -> AffineOp {
        AffineOp { rot: IntMatrix::identity(), tr: t }
    }

    /// The composition "first `o`, then `self`", with the translation left
    /// as the matrix product gives it.
    pub open spec fn raw_compose(self, o: AffineOp) -> AffineOp {
        AffineOp { rot: self.rot.times(o.rot), tr: self.rot.apply(o.tr).plus(self.tr) }
    }

    /// The composition "first `o`, then `self`", with the translation
    /// reduced into `[0, 12)`.
    pub open spec fn compose(self, o: AffineOp) -> AffineOp {
        AffineOp { rot: self.rot.times(o.rot), tr: self.rot.apply(o.tr).plus(self.tr).reduced() }
    }

    /// The operation followed by the translation `t`, reduced into `[0, 12)`.
    pub open spec fn shifted_by(self, t: IntVector) -> AffineOp {
        AffineOp { rot: self.rot, tr: self.tr.plus(t).reduced() }
    }

    /// The same operation with its translation reduced into `[0, 12)`.
    pub open spec fn canonical(self) -> AffineOp {
        AffineOp { rot: self.rot, tr: self.tr.reduced() }
    }

    /// Equality of operations up to whole-cell translations.
    pub open spec fn same_modulo_cells(self, o: AffineOp) -> bool {
        self.rot == o.rot && self.tr.congruent(o.tr)
    }

    /// The entry in row `i`, column `j` of the 4×4 matrix of the operation,
    /// whose last row is `0 0 0 1`.
    pub open spec fn entry(self, i: int, j: int) -> int {
        if i == 0 {
            if j == 0 {
                self.rot.m11
            } else if j == 1 {
                self.rot.m12
            } else if j == 2 {
                self.rot.m13
            } else {
                self.tr.x
            }
        } else if i == 1 {
            if j == 0 {
                self.rot.m21
            } else if j == 1 {
                self.rot.m22
            } else if j == 2 {
                self.rot.m23
            } else {
                self.tr.y
            }
        } else if i == 2 {
            if j == 0 {
                self.rot.m31
            } else if j == 1 {
                self.rot.m32
            } else if j == 2 {
                self.rot.m33
            } else {
                self.tr.z
            }
        } else {
            if j == 3 {
                1
            } else {
                0
            }
        }
    }

    /// The operation whose 4×4 matrix has the given first three rows.
    pub open spec fn of_rows(v: [[i32; 4]; 4]) -> AffineOp {
        AffineOp {
            rot: IntMatrix {
                m11: v[0][0] as int,
                m12: v[0][1] as int,
                m13: v[0][2] as int,
                m21: v[1][0] as int,
                m22: v[1][1] as int,
                m23: v[1][2] as int,
                m31: v[2][0] as int,
                m32: v[2][1] as int,
                m33: v[2][2] as int,
            },
            tr: IntVector { x: v[0][3] as int, y: v[1][3] as int, z: v[2][3] as int },
        }
    }

    /// The last row of a 4×4 matrix is `0 0 0 1`.
    pub open spec fn is_affine_rows(v: [[i32; 4]; 4]) -> bool {
        v[3][0] == 0 && v[3][1] == 0 && v[3][2] == 0 && v[3][3] == 1
    }

    /// The `n`-fold composition of the operation with itself, every
    /// translation reduced into `[0, 12)`; the identity for `n == 0`.
    pub open spec fn power(self, n: nat) -> AffineOp
        decreases n,
    {
        if n == 0 {
            AffineOp::identity()
        } else if n == 1 {
            self
        } else {
            self.power((n - 1) as nat).compose(self)
        }
    }

    /// All of the first `n` powers have a linear part of machine integers.
    pub open spec fn powers_fit(self, n: nat) -> bool {
        forall|k: nat| 1 <= k <= n ==> (#[trigger] self.power(k)).rot.fits()
    }

    /// The linear part has determinant 1 or -1, so that its inverse is an
    /// integer matrix, and that inverse fits machine integers.
    pub open spec fn is_invertible(self) -> bool {
        (self.rot.det() == 1 || self.rot.det() == -1) && self.rot.adjugate().scaled(
            self.rot.det(),
        ).fits()
    }

    /// The inverse operation of an invertible one, with its translation
    /// reduced into `[0, 12)`.
    pub open spec fn inverse(self) -> AffineOp {
        let inv = self.rot.adjugate().scaled(self.rot.det());
        AffineOp { rot: inv, tr: inv.scaled(-1).apply(self.tr).reduced() }
    }

    /// `v` is a direction that the linear part maps to itself, or to its
    /// negative where the determinant is negative.
    pub open spec fn fixes(self, v: IntVector) -> bool {
        v != IntVector::zero() && self.rot.apply(v) == (IntVector {
            x: self.rot.det() * v.x,
            y: self.rot.det() * v.y,
            z: self.rot.det() * v.z,
        })
    }

    /// `v` is a fixed direction with components -1, 0 or 1 whose last
    /// non-zero component is positive.
    pub open spec fn is_axis(self, v: IntVector) -> bool {
        &&& -1 <= v.x <= 1 && -1 <= v.y <= 1 && -1 <= v.z <= 1
        &&& self.fixes(v)
        &&& (v.z > 0 || (v.z == 0 && (v.y > 0 || (v.y == 0 && v.x > 0))))
    }

    /// The place of a direction with components -1, 0 or 1 in the order in
    /// which axes are preferred: larger `x` first, then larger `y`, then
    /// larger `z`.
    pub open spec fn axis_rank(v: IntVector) -> int {
        (1 - v.x) * 9 + (1 - v.y) * 3 + (1 - v.z)
    }

    /// The kind of point operation that a determinant and a trace stand for.
    pub open spec fn classify(det: int, trace: int) -> Option<RotationType> {
        if det == -1 && trace == -3 {
            Some(RotationType::I)
        } else if det == -1 && trace == -2 {
            Some(RotationType::M6)
        } else if det == -1 && trace == -1 {
            Some(RotationType::M4)
        } else if det == -1 && trace == 0 {
            Some(RotationType::M3)
        } else if det == -1 && trace == 1 {
            Some(RotationType::M)
        } else if det == 1 && trace == -1 {
            Some(RotationType::N2)
        } else if det == 1 && trace == 0 {
            Some(RotationType::N3)
        } else if det == 1 && trace == 1 {
            Some(RotationType::N4)
        } else if det == 1 && trace == 2 {
            Some(RotationType::N6)
        } else if det == 1 && trace == 3 {
            Some(RotationType::E)
        } else {
            None
        }
    }

    /// The kind of point operation of the linear part, if it is one.
    pub open spec fn kind(self) -> Option<RotationType> {
        AffineOp::classify(self.rot.det(), self.rot.trace())
    }
}

/// A symmetry operation: a 3×3 integer matrix acting on fractional
/// coordinates, followed by a translation counted in twelfths of a cell
/// edge.  As a 4×4 matrix its last row is `0 0 0 1`.
#[derive(Debug, Clone, Copy, Hash)]
pub struct SeitzMatrix {
    rotation: Matrix3,
    translation: Vector3,
}

impl View for SeitzMatrix {
    type V = AffineOp;

    closed spec fn view(&self) -> AffineOp {
        AffineOp { rot: self.rotation@, tr: self.translation@ }
    }
}

impl SeitzMatrix {
    /// The operation with the given parts.
    pub fn from_parts(rotation: Matrix3, translation: Vector3) -> (m: SeitzMatrix)
        ensures
            m@ == (AffineOp { rot: rotation@, tr: translation@ }),
    {
        SeitzMatrix { rotation, translation }
    }

    pub fn rotation_part(&self) -> (r: Matrix3)
        ensures
            r@ == self@.rot,
    {
        self.rotation
    }

    pub fn translation_part(&self) -> (t: Vector3)
        ensures
            t@ == self@.tr,
    {
        self.translation
    }

    pub fn set_translation_part(&mut self, new_translation: Vector3)
        ensures
            final(self)@ == (AffineOp { rot: old(self)@.rot, tr: new_translation@ }),
    {
        self.translation = new_translation;
    }

    /// The value whose view is `op`, for an `op` of machine integers.
    pub closed spec fn of_op(op: AffineOp) -> SeitzMatrix {
        SeitzMatrix {
            rotation: Matrix3 {
                m11: op.rot.m11 as i32,
                m12: op.rot.m12 as i32,
                m13: op.rot.m13 as i32,
                m21: op.rot.m21 as i32,
                m22: op.rot.m22 as i32,
                m23: op.rot.m23 as i32,
                m31: op.rot.m31 as i32,
                m32: op.rot.m32 as i32,
                m33: op.rot.m33 as i32,
            },
            translation: Vector3 { x: op.tr.x as i32, y: op.tr.y as i32, z: op.tr.z as i32 },
        }
    }

    /// `of_op` inverts the view.
    pub proof fn lemma_of_op(op: AffineOp)
        requires
            op.rot.fits(),
            op.tr.fits(),
        ensures
            SeitzMatrix::of_op(op)@ == op,
    {
    }

    /// Two values with the same view are the same value.
    pub proof fn lemma_view_injective(a: SeitzMatrix, b: SeitzMatrix)
        requires
            a@ == b@,
        ensures
            a == b,
    {
    }

    /// A view always comes from machine integers.
    pub proof fn lemma_view_fits(&self)
        ensures
            self@.rot.fits(),
            self@.tr.fits(),
    {
    }
}

/// Why a matrix could not be classified as a point operation.
#[derive(Debug, Clone, Copy, PartialEq, Eq, Hash)]
pub enum SeitzMatrixError {
    /// Determinant and trace of the upper-left block match none of the ten
    /// kinds; the payload is the 4×4 matrix, row by row.
    NotRotationMatrix([[i32; 4]; 4]),
}

} // verus!
