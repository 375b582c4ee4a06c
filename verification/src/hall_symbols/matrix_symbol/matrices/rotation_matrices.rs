use vstd::prelude::*;
use crate::hall_symbols::matrix_symbol::matrices::{AffineOp, IntMatrix, Matrix3, SeitzMatrix};
use crate::hall_symbols::matrix_symbol::notations::{NFold, NFoldDiag, NFoldSub, RotationAxis};
use crate::hall_symbols::matrix_symbol::{MatrixSymbol, MatrixSymbolError, MatrixSymbolView};
use crate::hall_symbols::translation_symbol::{IntVector, TranslationSymbol, Vector3};

verus! {

/// The matrix with the given rows.
pub open spec fn int_rows(
    a: (int, int, int),
    b: (int, int, int),
    c: (int, int, int),
) -> IntMatrix {
    IntMatrix {
        m11: a.0,
        m12: a.1,
        m13: a.2,
        m21: b.0,
        m22: b.1,
        m23: b.2,
        m31: c.0,
        m32: c.1,
        m33: c.2,
    }
}

/// The matrix with the given rows.
pub fn rows(a: (i32, i32, i32), b: (i32, i32, i32), c: (i32, i32, i32)) -> (m: Matrix3)
    ensures
        m@ == int_rows(
            (a.0 as int, a.1 as int, a.2 as int),
            (b.0 as int, b.1 as int, b.2 as int),
            (c.0 as int, c.1 as int, c.2 as int),
        ),
{
    Matrix3 {
        m11: a.0,
        m12: a.1,
        m13: a.2,
        m21: b.0,
        m22: b.1,
        m23: b.2,
        m31: c.0,
        m32: c.1,
        m33: c.2,
    }
}

/// The proper rotation that a fold, a diagonal mark and an axis name; `None`
/// where the three name none.  A fold of one is the identity whatever the
/// rest; a three-fold with an asterisk is the body diagonal whatever the
/// axis; the quotes go with two-folds only, and every other rotation needs
/// an axis and takes no mark.
pub open spec fn rotation_table(fold: NFold, diag: NFoldDiag, axis: RotationAxis) -> Option<
    IntMatrix,
> {
    match (fold, diag, axis) {
        (NFold::N1, _, _) => Some(IntMatrix::identity()),
        (NFold::N2, NFoldDiag::Absent, RotationAxis::X) => Some(
            int_rows((1, 0, 0), (0, -1, 0), (0, 0, -1)),
        ),
        (NFold::N2, NFoldDiag::Absent, RotationAxis::Y) => Some(
            int_rows((-1, 0, 0), (0, 1, 0), (0, 0, -1)),
        ),
        (NFold::N2, NFoldDiag::Absent, RotationAxis::Z) => Some(
            int_rows((-1, 0, 0), (0, -1, 0), (0, 0, 1)),
        ),
        (NFold::N2, NFoldDiag::SingleQuote, RotationAxis::X) => Some(
            int_rows((-1, 0, 0), (0, 0, -1), (0, -1, 0)),
        ),
        (NFold::N2, NFoldDiag::SingleQuote, RotationAxis::Y) => Some(
            int_rows((0, 0, -1), (0, -1, 0), (-1, 0, 0)),
        ),
        (NFold::N2, NFoldDiag::SingleQuote, RotationAxis::Z) => Some(
            int_rows((0, -1, 0), (-1, 0, 0), (0, 0, -1)),
        ),
        (NFold::N2, NFoldDiag::DoubleQuote, RotationAxis::X) => Some(
            int_rows((-1, 0, 0), (0, 0, 1), (0, 1, 0)),
        ),
        (NFold::N2, NFoldDiag::DoubleQuote, RotationAxis::Y) => Some(
            int_rows((0, 0, 1), (0, -1, 0), (1, 0, 0)),
        ),
        (NFold::N2, NFoldDiag::DoubleQuote, RotationAxis::Z) => Some(
            int_rows((0, 1, 0), (1, 0, 0), (0, 0, -1)),
        ),
        (NFold::N3, NFoldDiag::Absent, RotationAxis::X) => Some(
            int_rows((1, 0, 0), (0, 0, -1), (0, 1, -1)),
        ),
        (NFold::N3, NFoldDiag::Absent, RotationAxis::Y) => Some(
            int_rows((-1, 0, 1), (0, 1, 0), (-1, 0, 0)),
        ),
        (NFold::N3, NFoldDiag::Absent, RotationAxis::Z) => Some(
            int_rows((0, -1, 0), (1, -1, 0), (0, 0, 1)),
        ),
        (NFold::N3, NFoldDiag::Asterisk, _) => Some(int_rows((0, 0, 1), (1, 0, 0), (0, 1, 0))),
        (NFold::N4, NFoldDiag::Absent, RotationAxis::X) => Some(
            int_rows((1, 0, 0), (0, 0, -1), (0, 1, 0)),
        ),
        (NFold::N4, NFoldDiag::Absent, RotationAxis::Y) => Some(
            int_rows((0, 0, 1), (0, 1, 0), (-1, 0, 0)),
        ),
        (NFold::N4, NFoldDiag::Absent, RotationAxis::Z) => Some(
            int_rows((0, -1, 0), (1, 0, 0), (0, 0, 1)),
        ),
        (NFold::N6, NFoldDiag::Absent, RotationAxis::X) => Some(
            int_rows((1, 0, 0), (0, 1, -1), (0, 1, 0)),
        ),
        (NFold::N6, NFoldDiag::Absent, RotationAxis::Y) => Some(
            int_rows((0, 0, 1), (0, 1, 0), (-1, 0, 1)),
        ),
        (NFold::N6, NFoldDiag::Absent, RotationAxis::Z) => Some(
            int_rows((1, -1, 0), (1, 0, 0), (0, 0, 1)),
        ),
        _ => None,
    }
}

/// The length, in twelfths of a cell edge, of the screw translation that a
/// fold and its subscript call for: `Some(0)` where there is no screw, `None`
/// where there is no such screw axis.  A fold of one or two carries none,
/// whatever its subscript.
pub open spec fn screw_twelfths(fold: NFold, sub: NFoldSub) -> Option<int> {
    match (fold, sub) {
        (NFold::Invalid, _) => None,
        (NFold::N1, _) => Some(0),
        (NFold::N2, _) => Some(0),
        (_, NFoldSub::Absent) => Some(0),
        (NFold::N3, NFoldSub::N1) => Some(4),
        (NFold::N3, NFoldSub::N2) => Some(8),
        (NFold::N4, NFoldSub::N1) => Some(3),
        (NFold::N4, NFoldSub::N3) => Some(9),
        (NFold::N6, NFoldSub::N1) => Some(2),
        (NFold::N6, NFoldSub::N2) => Some(4),
        (NFold::N6, NFoldSub::N4) => Some(8),
        (NFold::N6, NFoldSub::N5) => Some(10),
        _ => None,
    }
}

/// The screw translation of a fold with its subscript along an axis; `None`
/// where there is no such screw axis, or where a screw needs an axis and
/// has none.
pub open spec fn screw_shift(fold: NFold, sub: NFoldSub, axis: RotationAxis) -> Option<
    IntVector,
> {
    match screw_twelfths(fold, sub) {
        None => None,
        Some(k) => if k == 0 {
            Some(IntVector::zero())
        } else {
            match axis {
                RotationAxis::Omitted => None,
                RotationAxis::X => Some(IntVector { x: k, y: 0, z: 0 }),
                RotationAxis::Y => Some(IntVector { x: 0, y: k, z: 0 }),
                RotationAxis::Z => Some(IntVector { x: 0, y: 0, z: k }),
            }
        },
    }
}

/// The sum of the shifts of a run of glide letters.
pub open spec fn glide_total(letters: Seq<TranslationSymbol>) -> IntVector
    decreases letters.len(),
{
    if letters.len() == 0 {
        IntVector::zero()
    } else {
        glide_total(letters.drop_last()).plus(letters.last().shift())
    }
}

/// The glide translation of a symbol: the sum of its letters' shifts, each
/// component reduced into `[0, 12)`; nothing where it has no letters.
pub open spec fn glide_shift(letters: Option<Seq<TranslationSymbol>>) -> IntVector {
    match letters {
        Some(s) => glide_total(s).reduced(),
        None => IntVector::zero(),
    }
}

impl MatrixSymbolView {
    /// The operation that the symbol stands for: the rotation of the table,
    /// negated under a minus sign, with the screw translation plus the glide
    /// translation.  `None` where the symbol names no rotation or no screw.
    pub open spec fn compiled(self) -> Option<AffineOp> {
        match (
            rotation_table(self.nfold_body, self.nfold_diag, self.rotation_axis),
            screw_shift(self.nfold_body, self.nfold_sub, self.rotation_axis),
        ) {
            (Some(rot), Some(screw)) => Some(
                AffineOp {
                    rot: if self.minus_sign {
                        rot.scaled(-1)
                    } else {
                        rot
                    },
                    tr: screw.plus(glide_shift(self.translation_symbols)),
                },
            ),
            _ => None,
        }
    }
}

/// The power `n` of a matrix.
pub open spec fn matrix_power(m: IntMatrix, n: nat) -> IntMatrix
    decreases n,
{
    if n == 0 {
        IntMatrix::identity()
    } else {
        matrix_power(m, (n - 1) as nat).times(m)
    }
}

/// The number that a fold stands for; zero for none.
pub open spec fn fold_number(fold: NFold) -> nat {
    match fold {
        NFold::Invalid => 0,
        NFold::N1 => 1,
        NFold::N2 => 2,
        NFold::N3 => 3,
        NFold::N4 => 4,
        NFold::N6 => 6,
    }
}

/// The first powers of a matrix, written out.
proof fn lemma_powers(r: IntMatrix)
    ensures
        matrix_power(r, 1) == r,
        matrix_power(r, 2) == r.times(r),
        matrix_power(r, 3) == r.times(r).times(r),
        matrix_power(r, 4) == r.times(r).times(r).times(r),
        matrix_power(r, 6) == r.times(r).times(r).times(r).times(r).times(r),
{
    reveal_with_fuel(matrix_power, 7);
    crate::hall_symbols::matrix_symbol::matrices::algebra::lemma_times_identity(r);
}

/// A matrix of small entries whose power `n` is the identity, `n` being
/// 2, 3, 4 or 6.
pub open spec fn has_order(q: IntMatrix, n: nat) -> bool {
    &&& q.is_unit_entries()
    &&& q.det() == 1
    &&& n == 2 ==> q.times(q) == IntMatrix::identity()
    &&& n == 3 ==> q.times(q).times(q) == IntMatrix::identity()
    &&& n == 4 ==> q.times(q).times(q).times(q) == IntMatrix::identity()
    &&& n == 6 ==> q.times(q).times(q).times(q).times(q).times(q) == IntMatrix::identity()
}

proof fn lemma_entry_n2_absent_x()
    ensures
        has_order(int_rows((1, 0, 0), (0, -1, 0), (0, 0, -1)), 2),
{
    let q = int_rows((1, 0, 0), (0, -1, 0), (0, 0, -1));
    assert(q.m11 * q.m11 + q.m12 * q.m21 + q.m13 * q.m31 == 1);
    assert(q.times(q) == IntMatrix::identity());
    assert(q.det() == 1);
}

proof fn lemma_entry_n2_absent_y()
    ensures
        has_order(int_rows((-1, 0, 0), (0, 1, 0), (0, 0, -1)), 2),
{
    let q = int_rows((-1, 0, 0), (0, 1, 0), (0, 0, -1));
    assert(q.m11 * q.m11 + q.m12 * q.m21 + q.m13 * q.m31 == 1);
    assert(q.times(q) == IntMatrix::identity());
    assert(q.det() == 1);
}

proof fn lemma_entry_n2_absent_z()
    ensures
        has_order(int_rows((-1, 0, 0), (0, -1, 0), (0, 0, 1)), 2),
{
    let q = int_rows((-1, 0, 0), (0, -1, 0), (0, 0, 1));
    assert(q.m11 * q.m11 + q.m12 * q.m21 + q.m13 * q.m31 == 1);
    assert(q.times(q) == IntMatrix::identity());
    assert(q.det() == 1);
}

proof fn lemma_entry_n2_singlequote_x()
    ensures
        has_order(int_rows((-1, 0, 0), (0, 0, -1), (0, -1, 0)), 2),
{
    let q = int_rows((-1, 0, 0), (0, 0, -1), (0, -1, 0));
    assert(q.m11 * q.m11 + q.m12 * q.m21 + q.m13 * q.m31 == 1);
    assert(q.times(q) == IntMatrix::identity());
    assert(q.det() == 1);
}

proof fn lemma_entry_n2_singlequote_y()
    ensures
        has_order(int_rows((0, 0, -1), (0, -1, 0), (-1, 0, 0)), 2),
{
    let q = int_rows((0, 0, -1), (0, -1, 0), (-1, 0, 0));
    assert(q.m11 * q.m11 + q.m12 * q.m21 + q.m13 * q.m31 == 1);
    assert(q.times(q) == IntMatrix::identity());
    assert(q.det() == 1);
}

proof fn lemma_entry_n2_singlequote_z()
    ensures
        has_order(int_rows((0, -1, 0), (-1, 0, 0), (0, 0, -1)), 2),
{
    let q = int_rows((0, -1, 0), (-1, 0, 0), (0, 0, -1));
    assert(q.m11 * q.m11 + q.m12 * q.m21 + q.m13 * q.m31 == 1);
    assert(q.times(q) == IntMatrix::identity());
    assert(q.det() == 1);
}

proof fn lemma_entry_n2_doublequote_x()
    ensures
        has_order(int_rows((-1, 0, 0), (0, 0, 1), (0, 1, 0)), 2),
{
    let q = int_rows((-1, 0, 0), (0, 0, 1), (0, 1, 0));
    assert(q.m11 * q.m11 + q.m12 * q.m21 + q.m13 * q.m31 == 1);
    assert(q.times(q) == IntMatrix::identity());
    assert(q.det() == 1);
}

proof fn lemma_entry_n2_doublequote_y()
    ensures
        has_order(int_rows((0, 0, 1), (0, -1, 0), (1, 0, 0)), 2),
{
    let q = int_rows((0, 0, 1), (0, -1, 0), (1, 0, 0));
    assert(q.m11 * q.m11 + q.m12 * q.m21 + q.m13 * q.m31 == 1);
    assert(q.times(q) == IntMatrix::identity());
    assert(q.det() == 1);
}

proof fn lemma_entry_n2_doublequote_z()
    ensures
        has_order(int_rows((0, 1, 0), (1, 0, 0), (0, 0, -1)), 2),
{
    let q = int_rows((0, 1, 0), (1, 0, 0), (0, 0, -1));
    assert(q.m11 * q.m11 + q.m12 * q.m21 + q.m13 * q.m31 == 1);
    assert(q.times(q) == IntMatrix::identity());
    assert(q.det() == 1);
}

proof fn lemma_entry_n3_absent_x()
    ensures
        has_order(int_rows((1, 0, 0), (0, 0, -1), (0, 1, -1)), 3),
{
    let q = int_rows((1, 0, 0), (0, 0, -1), (0, 1, -1));
    let p2 = q.times(q);
    assert(p2.times(q) == IntMatrix::identity());
    assert(q.det() == 1);
}

proof fn lemma_entry_n3_absent_y()
    ensures
        has_order(int_rows((-1, 0, 1), (0, 1, 0), (-1, 0, 0)), 3),
{
    let q = int_rows((-1, 0, 1), (0, 1, 0), (-1, 0, 0));
    let p2 = q.times(q);
    assert(p2.times(q) == IntMatrix::identity());
    assert(q.det() == 1);
}

proof fn lemma_entry_n3_absent_z()
    ensures
        has_order(int_rows((0, -1, 0), (1, -1, 0), (0, 0, 1)), 3),
{
    let q = int_rows((0, -1, 0), (1, -1, 0), (0, 0, 1));
    let p2 = q.times(q);
    assert(p2.times(q) == IntMatrix::identity());
    assert(q.det() == 1);
}

proof fn lemma_entry_n3_asterisk_any()
    ensures
        has_order(int_rows((0, 0, 1), (1, 0, 0), (0, 1, 0)), 3),
{
    let q = int_rows((0, 0, 1), (1, 0, 0), (0, 1, 0));
    let p2 = q.times(q);
    assert(p2.times(q) == IntMatrix::identity());
    assert(q.det() == 1);
}

proof fn lemma_entry_n4_absent_x()
    ensures
        has_order(int_rows((1, 0, 0), (0, 0, -1), (0, 1, 0)), 4),
{
    let q = int_rows((1, 0, 0), (0, 0, -1), (0, 1, 0));
    let p2 = q.times(q);
    let p3 = p2.times(q);
    let p4 = p3.times(q);
    assert(p4 == IntMatrix::identity());
}

proof fn lemma_entry_n4_absent_y()
    ensures
        has_order(int_rows((0, 0, 1), (0, 1, 0), (-1, 0, 0)), 4),
{
    let q = int_rows((0, 0, 1), (0, 1, 0), (-1, 0, 0));
    let p2 = q.times(q);
    let p3 = p2.times(q);
    let p4 = p3.times(q);
    assert(p4 == IntMatrix::identity());
}

proof fn lemma_entry_n4_absent_z()
    ensures
        has_order(int_rows((0, -1, 0), (1, 0, 0), (0, 0, 1)), 4),
{
    let q = int_rows((0, -1, 0), (1, 0, 0), (0, 0, 1));
    let p2 = q.times(q);
    let p3 = p2.times(q);
    let p4 = p3.times(q);
    assert(p4 == IntMatrix::identity());
}

proof fn lemma_entry_n6_absent_x()
    ensures
        has_order(int_rows((1, 0, 0), (0, 1, -1), (0, 1, 0)), 6),
{
    let q = int_rows((1, 0, 0), (0, 1, -1), (0, 1, 0));
    let p2 = q.times(q);
    let p3 = p2.times(q);
    let p4 = p3.times(q);
    let p5 = p4.times(q);
    let p6 = p5.times(q);
    assert(p6 == IntMatrix::identity());
}

proof fn lemma_entry_n6_absent_y()
    ensures
        has_order(int_rows((0, 0, 1), (0, 1, 0), (-1, 0, 1)), 6),
{
    let q = int_rows((0, 0, 1), (0, 1, 0), (-1, 0, 1));
    let p2 = q.times(q);
    let p3 = p2.times(q);
    let p4 = p3.times(q);
    let p5 = p4.times(q);
    let p6 = p5.times(q);
    assert(p6 == IntMatrix::identity());
}

proof fn lemma_entry_n6_absent_z()
    ensures
        has_order(int_rows((1, -1, 0), (1, 0, 0), (0, 0, 1)), 6),
{
    let q = int_rows((1, -1, 0), (1, 0, 0), (0, 0, 1));
    let p2 = q.times(q);
    let p3 = p2.times(q);
    let p4 = p3.times(q);
    let p5 = p4.times(q);
    let p6 = p5.times(q);
    assert(p6 == IntMatrix::identity());
}

/// Every rotation of the table with a fold above one has small entries,
/// determinant 1, and the order that its fold names.
proof fn lemma_table_orders(fold: NFold, diag: NFoldDiag, axis: RotationAxis)
    requires
        rotation_table(fold, diag, axis) is Some,
        fold != NFold::N1,
    ensures
        has_order(rotation_table(fold, diag, axis)->0, fold_number(fold)),
{
    lemma_entry_n2_absent_x();
    lemma_entry_n2_absent_y();
    lemma_entry_n2_absent_z();
    lemma_entry_n2_singlequote_x();
    lemma_entry_n2_singlequote_y();
    lemma_entry_n2_singlequote_z();
    lemma_entry_n2_doublequote_x();
    lemma_entry_n2_doublequote_y();
    lemma_entry_n2_doublequote_z();
    lemma_entry_n3_absent_x();
    lemma_entry_n3_absent_y();
    lemma_entry_n3_absent_z();
    lemma_entry_n3_asterisk_any();
    lemma_entry_n4_absent_x();
    lemma_entry_n4_absent_y();
    lemma_entry_n4_absent_z();
    lemma_entry_n6_absent_x();
    lemma_entry_n6_absent_y();
    lemma_entry_n6_absent_z();
}

/// Every rotation of the table has entries -1, 0 or 1 and determinant 1,
/// and the power that its fold names is the identity.
pub proof fn lemma_rotation_table(fold: NFold, diag: NFoldDiag, axis: RotationAxis)
    requires
        rotation_table(fold, diag, axis) is Some,
    ensures
        rotation_table(fold, diag, axis)->0.is_unit_entries(),
        rotation_table(fold, diag, axis)->0.scaled(-1).is_unit_entries(),
        rotation_table(fold, diag, axis)->0.det() == 1,
        matrix_power(rotation_table(fold, diag, axis)->0, fold_number(fold))
            == IntMatrix::identity(),
{
    let r = rotation_table(fold, diag, axis)->0;
    lemma_powers(r);
    if fold != NFold::N1 {
        lemma_table_orders(fold, diag, axis);
    }
}

/// The operation that a symbol stands for has a linear part of entries
/// -1, 0 or 1.
pub proof fn lemma_compiled_unit(m: MatrixSymbolView)
    requires
        m.compiled() is Some,
    ensures
        m.compiled()->0.rot.is_unit_entries(),
{
    lemma_rotation_table(m.nfold_body, m.nfold_diag, m.rotation_axis);
}

/// Reducing the running sum at every letter gives the reduced total.
pub proof fn lemma_glide_total_step(letters: Seq<TranslationSymbol>)
    requires
        letters.len() > 0,
    ensures
        glide_total(letters).reduced() == glide_total(letters.drop_last()).reduced().plus(
            letters.last().shift(),
        ).reduced(),
{
    let a = glide_total(letters.drop_last());
    let b = letters.last().shift();
    crate::utils::lemma_twelfths_add(a.x, b.x);
    crate::utils::lemma_twelfths_add(a.y, b.y);
    crate::utils::lemma_twelfths_add(a.z, b.z);
}

/// The rotation of the table, as machine integers.
pub fn rotation_entries(fold: NFold, diag: NFoldDiag, axis: RotationAxis) -> (r: Option<Matrix3>)
    ensures
        r is Some <==> rotation_table(fold, diag, axis) is Some,
        r is Some ==> Some(r->0@) == rotation_table(fold, diag, axis),
{
    match (fold, diag, axis) {
        (NFold::N1, _, _) => Some(Matrix3::identity()),
        (NFold::N2, NFoldDiag::Absent, RotationAxis::X) => Some(
            rows((1, 0, 0), (0, -1, 0), (0, 0, -1)),
        ),
        (NFold::N2, NFoldDiag::Absent, RotationAxis::Y) => Some(
            rows((-1, 0, 0), (0, 1, 0), (0, 0, -1)),
        ),
        (NFold::N2, NFoldDiag::Absent, RotationAxis::Z) => Some(
            rows((-1, 0, 0), (0, -1, 0), (0, 0, 1)),
        ),
        (NFold::N2, NFoldDiag::SingleQuote, RotationAxis::X) => Some(
            rows((-1, 0, 0), (0, 0, -1), (0, -1, 0)),
        ),
        (NFold::N2, NFoldDiag::SingleQuote, RotationAxis::Y) => Some(
            rows((0, 0, -1), (0, -1, 0), (-1, 0, 0)),
        ),
        (NFold::N2, NFoldDiag::SingleQuote, RotationAxis::Z) => Some(
            rows((0, -1, 0), (-1, 0, 0), (0, 0, -1)),
        ),
        (NFold::N2, NFoldDiag::DoubleQuote, RotationAxis::X) => Some(
            rows((-1, 0, 0), (0, 0, 1), (0, 1, 0)),
        ),
        (NFold::N2, NFoldDiag::DoubleQuote, RotationAxis::Y) => Some(
            rows((0, 0, 1), (0, -1, 0), (1, 0, 0)),
        ),
        (NFold::N2, NFoldDiag::DoubleQuote, RotationAxis::Z) => Some(
            rows((0, 1, 0), (1, 0, 0), (0, 0, -1)),
        ),
        (NFold::N3, NFoldDiag::Absent, RotationAxis::X) => Some(
            rows((1, 0, 0), (0, 0, -1), (0, 1, -1)),
        ),
        (NFold::N3, NFoldDiag::Absent, RotationAxis::Y) => Some(
            rows((-1, 0, 1), (0, 1, 0), (-1, 0, 0)),
        ),
        (NFold::N3, NFoldDiag::Absent, RotationAxis::Z) => Some(
            rows((0, -1, 0), (1, -1, 0), (0, 0, 1)),
        ),
        (NFold::N3, NFoldDiag::Asterisk, _) => Some(rows((0, 0, 1), (1, 0, 0), (0, 1, 0))),
        (NFold::N4, NFoldDiag::Absent, RotationAxis::X) => Some(
            rows((1, 0, 0), (0, 0, -1), (0, 1, 0)),
        ),
        (NFold::N4, NFoldDiag::Absent, RotationAxis::Y) => Some(
            rows((0, 0, 1), (0, 1, 0), (-1, 0, 0)),
        ),
        (NFold::N4, NFoldDiag::Absent, RotationAxis::Z) => Some(
            rows((0, -1, 0), (1, 0, 0), (0, 0, 1)),
        ),
        (NFold::N6, NFoldDiag::Absent, RotationAxis::X) => Some(
            rows((1, 0, 0), (0, 1, -1), (0, 1, 0)),
        ),
        (NFold::N6, NFoldDiag::Absent, RotationAxis::Y) => Some(
            rows((0, 0, 1), (0, 1, 0), (-1, 0, 1)),
        ),
        (NFold::N6, NFoldDiag::Absent, RotationAxis::Z) => Some(
            rows((1, -1, 0), (1, 0, 0), (0, 0, 1)),
        ),
        _ => None,
    }
}

/// The vector of length `k` along an axis.
pub fn along_axis(axis: RotationAxis, k: i32) -> (r: Option<Vector3>)
    ensures
        match axis {
            RotationAxis::Omitted => r is None,
            RotationAxis::X => r == Some(Vector3 { x: k, y: 0, z: 0 }),
            RotationAxis::Y => r == Some(Vector3 { x: 0, y: k, z: 0 }),
            RotationAxis::Z => r == Some(Vector3 { x: 0, y: 0, z: k }),
        },
{
    match axis {
        RotationAxis::Omitted => None,
        RotationAxis::X => Some(Vector3::new(k, 0, 0)),
        RotationAxis::Y => Some(Vector3::new(0, k, 0)),
        RotationAxis::Z => Some(Vector3::new(0, 0, k)),
    }
}

impl MatrixSymbol {
    /// The rotation that fold, mark and axis name, with no translation.
    pub(crate) fn get_rotation_matrix(&self) -> (r: Result<SeitzMatrix, MatrixSymbolError<'_>>)
        ensures
            match r {
                Ok(m) => Some(m@.rot) == rotation_table(
                    self@.nfold_body,
                    self@.nfold_diag,
                    self@.rotation_axis,
                ) && m@.tr == IntVector::zero(),
                Err(MatrixSymbolError::Invalid(s)) => s@ == self@ && rotation_table(
                    self@.nfold_body,
                    self@.nfold_diag,
                    self@.rotation_axis,
                ) is None,
                Err(MatrixSymbolError::IncompleteFields) => false,
            },
    {
        match rotation_entries(self.nfold_body(), self.nfold_diag(), self.rotation_axis()) {
            Some(rot) => Ok(SeitzMatrix::from_parts(rot, Vector3::zeros())),
            None => Err(MatrixSymbolError::Invalid(self)),
        }
    }

    /// The operation with its linear part negated and its translation kept:
    /// the operation followed by the inversion through the origin.
    pub(crate) fn set_inversion(&self, rot_mat: SeitzMatrix) -> (m: SeitzMatrix)
        requires
            rot_mat@.rot.scaled(-1).fits(),
        ensures
            m@ == (AffineOp { rot: rot_mat@.rot.scaled(-1), tr: rot_mat@.tr }),
    {
        match rot_mat.rotation_part().negated() {
            Some(neg) => SeitzMatrix::from_parts(neg, rot_mat.translation_part()),
            None => rot_mat,
        }
    }

    /// Adds the glide translation of the symbol's letters.
    pub(crate) fn set_translation_from_symbols(&self, rot_mat: SeitzMatrix) -> (r: Result<
        SeitzMatrix,
        MatrixSymbolError<'_>,
    >)
        requires
            -0x4000_0000 <= rot_mat@.tr.x <= 0x4000_0000,
            -0x4000_0000 <= rot_mat@.tr.y <= 0x4000_0000,
            -0x4000_0000 <= rot_mat@.tr.z <= 0x4000_0000,
        ensures
            r is Ok,
            r->Ok_0@ == (AffineOp {
                rot: rot_mat@.rot,
                tr: rot_mat@.tr.plus(glide_shift(self@.translation_symbols)),
            }),
    {
        match self.translation_symbols() {
            Some(letters) => {
                let mut total = Vector3::zeros();
                let mut i: usize = 0;
                while i < letters.len()
                    invariant
                        0 <= i <= letters.len(),
                        total@ == glide_total(letters@.subrange(0, i as int)).reduced(),
                    decreases letters.len() - i,
                {
                    let step = letters[i].translation_vector();
                    proof {
                        let upto = letters@.subrange(0, i + 1);
                        assert(upto.drop_last() == letters@.subrange(0, i as int));
                        assert(upto.last() == letters@[i as int]);
                        lemma_glide_total_step(upto);
                    }
                    total = total.plus_reduced(&step);
                    i = i + 1;
                }
                assert(letters@.subrange(0, letters.len() as int) == letters@);
                let t = rot_mat.translation_part();
                Ok(
                    SeitzMatrix::from_parts(
                        rot_mat.rotation_part(),
                        Vector3::new(t.x + total.x, t.y + total.y, t.z + total.z),
                    ),
                )
            },
            None => Ok(rot_mat),
        }
    }

    /// Puts the screw translation of fold, subscript and axis in place of
    /// the translation.
    pub(crate) fn set_transform(&self, rot_mat: SeitzMatrix) -> (r: Result<
        SeitzMatrix,
        MatrixSymbolError<'_>,
    >)
        ensures
            match r {
                Ok(m) => {
                    let k = screw_twelfths(self@.nfold_body, self@.nfold_sub);
                    let shift = screw_shift(
                        self@.nfold_body,
                        self@.nfold_sub,
                        self@.rotation_axis,
                    );
                    shift is Some && m@.rot == rot_mat@.rot && m@.tr == (if k == Some(0int) {
                        rot_mat@.tr
                    } else {
                        shift->0
                    })
                },
                Err(MatrixSymbolError::Invalid(s)) => s@ == self@ && screw_shift(
                    self@.nfold_body,
                    self@.nfold_sub,
                    self@.rotation_axis,
                ) is None,
                Err(MatrixSymbolError::IncompleteFields) => false,
            },
    {
        let length: i32 = match (self.nfold_body(), self.nfold_sub()) {
            (NFold::Invalid, _) => {
                return Err(MatrixSymbolError::Invalid(self));
            },
            (NFold::N1, _) => 0,
            (NFold::N2, _) => 0,
            (_, NFoldSub::Absent) => 0,
            (NFold::N3, NFoldSub::N1) => 4,
            (NFold::N3, NFoldSub::N2) => 8,
            (NFold::N4, NFoldSub::N1) => 3,
            (NFold::N4, NFoldSub::N3) => 9,
            (NFold::N6, NFoldSub::N1) => 2,
            (NFold::N6, NFoldSub::N2) => 4,
            (NFold::N6, NFoldSub::N4) => 8,
            (NFold::N6, NFoldSub::N5) => 10,
            _ => {
                return Err(MatrixSymbolError::Invalid(self));
            },
        };
        if length == 0 {
            Ok(rot_mat)
        } else {
            match along_axis(self.rotation_axis(), length) {
                Some(t) => Ok(SeitzMatrix::from_parts(rot_mat.rotation_part(), t)),
                None => Err(MatrixSymbolError::Invalid(self)),
            }
        }
    }

    /// The operation that the symbol stands for.
    pub fn seitz_matrix(&self) -> (r: Result<SeitzMatrix, MatrixSymbolError<'_>>)
        ensures
            match r {
                Ok(m) => Some(m@) == self@.compiled(),
                Err(MatrixSymbolError::Invalid(s)) => s@ == self@ && self@.compiled() is None,
                Err(MatrixSymbolError::IncompleteFields) => false,
            },
    {
        let rot_mat = match self.get_rotation_matrix() {
            Ok(m) => m,
            Err(e) => {
                return Err(e);
            },
        };
        let screwed = match self.set_transform(rot_mat) {
            Ok(m) => m,
            Err(e) => {
                return Err(e);
            },
        };
        let glided = match self.set_translation_from_symbols(screwed) {
            Ok(m) => m,
            Err(e) => {
                return Err(e);
            },
        };
        if self.minus_sign() {
            Ok(self.set_inversion(glided))
        } else {
            Ok(glided)
        }
    }
}

} // verus!
