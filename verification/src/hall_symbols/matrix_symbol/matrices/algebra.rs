use vstd::prelude::*;
use crate::hall_symbols::matrix_symbol::matrices::{AffineOp, IntMatrix};
use crate::hall_symbols::translation_symbol::IntVector;

verus! {

/// The identity matrix is neutral for the matrix product.
pub proof fn lemma_times_identity(m: IntMatrix)
    ensures
        IntMatrix::identity().times(m) == m,
        m.times(IntMatrix::identity()) == m,
{
}

/// The identity matrix maps every vector to itself.
pub proof fn lemma_apply_identity(v: IntVector)
    ensures
        IntMatrix::identity().apply(v) == v,
{
}

proof fn lemma_spread_right(p: int, q: int, r: int, c: int)
    ensures
        (p + q + r) * c == p * c + q * c + r * c,
{
    assert((p + q + r) * c == p * c + q * c + r * c) by (nonlinear_arith);
}

proof fn lemma_spread_left(a: int, p: int, q: int, r: int)
    ensures
        a * (p + q + r) == a * p + a * q + a * r,
{
    assert(a * (p + q + r) == a * p + a * q + a * r) by (nonlinear_arith);
}

proof fn lemma_regroup(a: int, b: int, c: int)
    ensures
        (a * b) * c == a * (b * c),
{
    assert((a * b) * c == a * (b * c)) by (nonlinear_arith);
}

/// One entry of a triple product, bracketed either way.
proof fn lemma_assoc_entry(
    a1: int,
    a2: int,
    a3: int,
    b11: int,
    b12: int,
    b13: int,
    b21: int,
    b22: int,
    b23: int,
    b31: int,
    b32: int,
    b33: int,
    c1: int,
    c2: int,
    c3: int,
)
    ensures
        (a1 * b11 + a2 * b21 + a3 * b31) * c1 + (a1 * b12 + a2 * b22 + a3 * b32) * c2 + (a1 * b13
            + a2 * b23 + a3 * b33) * c3 == a1 * (b11 * c1 + b12 * c2 + b13 * c3) + a2 * (b21 * c1
            + b22 * c2 + b23 * c3) + a3 * (b31 * c1 + b32 * c2 + b33 * c3),
{
    lemma_spread_right(a1 * b11, a2 * b21, a3 * b31, c1);
    lemma_spread_right(a1 * b12, a2 * b22, a3 * b32, c2);
    lemma_spread_right(a1 * b13, a2 * b23, a3 * b33, c3);
    lemma_spread_left(a1, b11 * c1, b12 * c2, b13 * c3);
    lemma_spread_left(a2, b21 * c1, b22 * c2, b23 * c3);
    lemma_spread_left(a3, b31 * c1, b32 * c2, b33 * c3);
    lemma_regroup(a1, b11, c1);
    lemma_regroup(a2, b21, c1);
    lemma_regroup(a3, b31, c1);
    lemma_regroup(a1, b12, c2);
    lemma_regroup(a2, b22, c2);
    lemma_regroup(a3, b32, c2);
    lemma_regroup(a1, b13, c3);
    lemma_regroup(a2, b23, c3);
    lemma_regroup(a3, b33, c3);
}

/// The matrix product is associative.
pub proof fn lemma_times_assoc(a: IntMatrix, b: IntMatrix, c: IntMatrix)
    ensures
        a.times(b).times(c) == a.times(b.times(c)),
{
    lemma_assoc_entry(
        a.m11, a.m12, a.m13, b.m11, b.m12, b.m13, b.m21, b.m22, b.m23, b.m31, b.m32, b.m33, c.m11,
        c.m21, c.m31,
    );
    lemma_assoc_entry(
        a.m11, a.m12, a.m13, b.m11, b.m12, b.m13, b.m21, b.m22, b.m23, b.m31, b.m32, b.m33, c.m12,
        c.m22, c.m32,
    );
    lemma_assoc_entry(
        a.m11, a.m12, a.m13, b.m11, b.m12, b.m13, b.m21, b.m22, b.m23, b.m31, b.m32, b.m33, c.m13,
        c.m23, c.m33,
    );
    lemma_assoc_entry(
        a.m21, a.m22, a.m23, b.m11, b.m12, b.m13, b.m21, b.m22, b.m23, b.m31, b.m32, b.m33, c.m11,
        c.m21, c.m31,
    );
    lemma_assoc_entry(
        a.m21, a.m22, a.m23, b.m11, b.m12, b.m13, b.m21, b.m22, b.m23, b.m31, b.m32, b.m33, c.m12,
        c.m22, c.m32,
    );
    lemma_assoc_entry(
        a.m21, a.m22, a.m23, b.m11, b.m12, b.m13, b.m21, b.m22, b.m23, b.m31, b.m32, b.m33, c.m13,
        c.m23, c.m33,
    );
    lemma_assoc_entry(
        a.m31, a.m32, a.m33, b.m11, b.m12, b.m13, b.m21, b.m22, b.m23, b.m31, b.m32, b.m33, c.m11,
        c.m21, c.m31,
    );
    lemma_assoc_entry(
        a.m31, a.m32, a.m33, b.m11, b.m12, b.m13, b.m21, b.m22, b.m23, b.m31, b.m32, b.m33, c.m12,
        c.m22, c.m32,
    );
    lemma_assoc_entry(
        a.m31, a.m32, a.m33, b.m11, b.m12, b.m13, b.m21, b.m22, b.m23, b.m31, b.m32, b.m33, c.m13,
        c.m23, c.m33,
    );
}

/// A product of matrices with entries -1, 0 or 1 has entries of absolute
/// value at most 3.
pub proof fn lemma_unit_product_small(a: IntMatrix, b: IntMatrix)
    requires
        a.is_unit_entries(),
        b.is_unit_entries(),
    ensures
        a.times(b).within(3),
        a.times(b).fits(),
{
    lemma_unit_dot(a.m11, a.m12, a.m13, b.m11, b.m21, b.m31);
    lemma_unit_dot(a.m11, a.m12, a.m13, b.m12, b.m22, b.m32);
    lemma_unit_dot(a.m11, a.m12, a.m13, b.m13, b.m23, b.m33);
    lemma_unit_dot(a.m21, a.m22, a.m23, b.m11, b.m21, b.m31);
    lemma_unit_dot(a.m21, a.m22, a.m23, b.m12, b.m22, b.m32);
    lemma_unit_dot(a.m21, a.m22, a.m23, b.m13, b.m23, b.m33);
    lemma_unit_dot(a.m31, a.m32, a.m33, b.m11, b.m21, b.m31);
    lemma_unit_dot(a.m31, a.m32, a.m33, b.m12, b.m22, b.m32);
    lemma_unit_dot(a.m31, a.m32, a.m33, b.m13, b.m23, b.m33);
}

proof fn lemma_unit_dot(a: int, b: int, c: int, x: int, y: int, z: int)
    requires
        -1 <= a <= 1,
        -1 <= b <= 1,
        -1 <= c <= 1,
        -1 <= x <= 1,
        -1 <= y <= 1,
        -1 <= z <= 1,
    ensures
        -3 <= a * x + b * y + c * z <= 3,
{
    assert(-1 <= a * x <= 1) by (nonlinear_arith)
        requires
            -1 <= a <= 1,
            -1 <= x <= 1,
    ;
    assert(-1 <= b * y <= 1) by (nonlinear_arith)
        requires
            -1 <= b <= 1,
            -1 <= y <= 1,
    ;
    assert(-1 <= c * z <= 1) by (nonlinear_arith)
        requires
            -1 <= c <= 1,
            -1 <= z <= 1,
    ;
}

/// Composing with the identity on either side changes nothing but the
/// representative of the translation.
pub proof fn lemma_compose_identity(m: AffineOp)
    ensures
        AffineOp::identity().compose(m) == m.canonical(),
        m.compose(AffineOp::identity()) == m.canonical(),
{
    lemma_times_identity(m.rot);
    lemma_apply_identity(m.tr);
}

} // verus!

verus! {

proof fn lemma_reduced_dot(a: int, b: int, c: int, x: int, y: int, z: int, t: int)
    ensures
        (a * (x % 12) + b * (y % 12) + c * (z % 12) + t) % 12 == (a * x + b * y + c * z + t) % 12,
{
    vstd::arithmetic::div_mod::lemma_mul_mod_noop_right(a, x, 12);
    vstd::arithmetic::div_mod::lemma_mul_mod_noop_right(b, y, 12);
    vstd::arithmetic::div_mod::lemma_mul_mod_noop_right(c, z, 12);
    let p = a * (x % 12);
    let q = b * (y % 12);
    let r = c * (z % 12);
    let p2 = a * x;
    let q2 = b * y;
    let r2 = c * z;
    assert(p % 12 == p2 % 12 && q % 12 == q2 % 12 && r % 12 == r2 % 12);
    assert((p + q + r + t) % 12 == (p2 + q2 + r2 + t) % 12);
}

/// The image of a reduced vector is, up to whole cells, the image of the
/// vector.
pub proof fn lemma_apply_reduced(m: IntMatrix, v: IntVector, t: IntVector)
    ensures
        m.apply(v.reduced()).plus(t).reduced() == m.apply(v).plus(t).reduced(),
{
    lemma_reduced_dot(m.m11, m.m12, m.m13, v.x, v.y, v.z, t.x);
    lemma_reduced_dot(m.m21, m.m22, m.m23, v.x, v.y, v.z, t.y);
    lemma_reduced_dot(m.m31, m.m32, m.m33, v.x, v.y, v.z, t.z);
}

proof fn lemma_spread_sum(a: int, b: int, c: int, x: int, y: int, z: int, p: int, q: int, r: int)
    ensures
        a * (x + p) + b * (y + q) + c * (z + r) == (a * x + b * y + c * z) + (a * p + b * q + c
            * r),
{
    assert(a * (x + p) == a * x + a * p) by (nonlinear_arith);
    assert(b * (y + q) == b * y + b * q) by (nonlinear_arith);
    assert(c * (z + r) == c * z + c * r) by (nonlinear_arith);
}

/// The image of a sum is the sum of the images.
pub proof fn lemma_apply_sum(m: IntMatrix, v: IntVector, w: IntVector)
    ensures
        m.apply(v.plus(w)) == m.apply(v).plus(m.apply(w)),
{
    lemma_spread_sum(m.m11, m.m12, m.m13, v.x, v.y, v.z, w.x, w.y, w.z);
    lemma_spread_sum(m.m21, m.m22, m.m23, v.x, v.y, v.z, w.x, w.y, w.z);
    lemma_spread_sum(m.m31, m.m32, m.m33, v.x, v.y, v.z, w.x, w.y, w.z);
}

/// Composition is associative.
pub proof fn law_compose_associative(a: AffineOp, b: AffineOp, c: AffineOp)
    ensures
        a.compose(b).compose(c) == a.compose(b.compose(c)),
{
    lemma_times_assoc(a.rot, b.rot, c.rot);
    // (ab)c: rot(ab) t_c + reduced(rot_a t_b + t_a)
    let left = a.rot.times(b.rot).apply(c.tr).plus(a.rot.apply(b.tr).plus(a.tr).reduced());
    // a(bc): rot_a reduced(rot_b t_c + t_b) + t_a
    let right = a.rot.apply(b.rot.apply(c.tr).plus(b.tr).reduced()).plus(a.tr);
    let whole = a.rot.apply(b.rot.apply(c.tr)).plus(a.rot.apply(b.tr)).plus(a.tr);
    lemma_assoc_entry(
        a.rot.m11, a.rot.m12, a.rot.m13, b.rot.m11, b.rot.m12, b.rot.m13, b.rot.m21, b.rot.m22,
        b.rot.m23, b.rot.m31, b.rot.m32, b.rot.m33, c.tr.x, c.tr.y, c.tr.z,
    );
    lemma_assoc_entry(
        a.rot.m21, a.rot.m22, a.rot.m23, b.rot.m11, b.rot.m12, b.rot.m13, b.rot.m21, b.rot.m22,
        b.rot.m23, b.rot.m31, b.rot.m32, b.rot.m33, c.tr.x, c.tr.y, c.tr.z,
    );
    lemma_assoc_entry(
        a.rot.m31, a.rot.m32, a.rot.m33, b.rot.m11, b.rot.m12, b.rot.m13, b.rot.m21, b.rot.m22,
        b.rot.m23, b.rot.m31, b.rot.m32, b.rot.m33, c.tr.x, c.tr.y, c.tr.z,
    );
    assert(a.rot.times(b.rot).apply(c.tr) == a.rot.apply(b.rot.apply(c.tr)));
    assert(left.reduced() == whole.reduced());
    lemma_apply_reduced(a.rot, b.rot.apply(c.tr).plus(b.tr), a.tr);
    lemma_apply_sum(a.rot, b.rot.apply(c.tr), b.tr);
    assert(right.reduced() == whole.reduced());
}

/// `(a b - c d) x` spread out.
proof fn lemma_minor_times(a: int, b: int, c: int, d: int, x: int)
    ensures
        (a * b - c * d) * x == a * b * x - c * d * x,
{
    assert((a * b - c * d) * x == a * b * x - c * d * x) by (nonlinear_arith);
}

/// A product of three numbers in another order.
proof fn lemma_swap(a: int, b: int, c: int)
    ensures
        a * b * c == a * c * b,
        a * b * c == b * a * c,
        a * b * c == c * b * a,
        a * b * c == b * c * a,
        a * b * c == c * a * b,
        a * b * c == a * (b * c),
{
    assert(a * b * c == a * c * b) by (nonlinear_arith);
    assert(a * b * c == b * a * c) by (nonlinear_arith);
    assert(a * b * c == c * b * a) by (nonlinear_arith);
    assert(a * b * c == b * c * a) by (nonlinear_arith);
    assert(a * b * c == c * a * b) by (nonlinear_arith);
    assert(a * b * c == a * (b * c)) by (nonlinear_arith);
}

/// The scalar triple product `(u × v) · w` of three vectors.
pub open spec fn triple(u: IntVector, v: IntVector, w: IntVector) -> int {
    (u.y * v.z - u.z * v.y) * w.x + (u.z * v.x - u.x * v.z) * w.y + (u.x * v.y - u.y * v.x) * w.z
}

/// The triple product as a sum of six products of three components.
proof fn lemma_triple_spread(u: IntVector, v: IntVector, w: IntVector)
    ensures
        triple(u, v, w) == u.y * v.z * w.x - u.z * v.y * w.x + u.z * v.x * w.y - u.x * v.z * w.y
            + u.x * v.y * w.z - u.y * v.x * w.z,
{
    lemma_minor_times(u.y, v.z, u.z, v.y, w.x);
    lemma_minor_times(u.z, v.x, u.x, v.z, w.y);
    lemma_minor_times(u.x, v.y, u.y, v.x, w.z);
}

/// The triple product vanishes where the third vector is one of the first
/// two.
proof fn lemma_triple_zero(u: IntVector, v: IntVector)
    ensures
        triple(u, v, u) == 0,
        triple(u, v, v) == 0,
{
    lemma_triple_spread(u, v, u);
    lemma_triple_spread(u, v, v);
    lemma_swap(u.y, v.z, u.x);
    lemma_swap(u.z, v.y, u.x);
    lemma_swap(u.z, v.x, u.y);
    lemma_swap(u.x, v.z, u.y);
    lemma_swap(u.x, v.y, u.z);
    lemma_swap(u.y, v.x, u.z);
    lemma_swap(u.y, v.z, v.x);
    lemma_swap(u.z, v.y, v.x);
    lemma_swap(u.z, v.x, v.y);
    lemma_swap(u.x, v.z, v.y);
    lemma_swap(u.x, v.y, v.z);
    lemma_swap(u.y, v.x, v.z);
}

/// The triple product of the vectors taken in turn.
proof fn lemma_triple_cycle(u: IntVector, v: IntVector, w: IntVector)
    ensures
        triple(u, v, w) == triple(v, w, u),
{
    lemma_triple_spread(u, v, w);
    lemma_triple_spread(v, w, u);
    lemma_swap(u.y, v.z, w.x);
    lemma_swap(u.z, v.y, w.x);
    lemma_swap(u.z, v.x, w.y);
    lemma_swap(u.x, v.z, w.y);
    lemma_swap(u.x, v.y, w.z);
    lemma_swap(u.y, v.x, w.z);
    lemma_swap(v.y, w.z, u.x);
    lemma_swap(v.z, w.y, u.x);
    lemma_swap(v.z, w.x, u.y);
    lemma_swap(v.x, w.z, u.y);
    lemma_swap(v.x, w.y, u.z);
    lemma_swap(v.y, w.x, u.z);
}

/// The rows of a matrix.
pub open spec fn row(m: IntMatrix, i: int) -> IntVector {
    if i == 1 {
        IntVector { x: m.m11, y: m.m12, z: m.m13 }
    } else if i == 2 {
        IntVector { x: m.m21, y: m.m22, z: m.m23 }
    } else {
        IntVector { x: m.m31, y: m.m32, z: m.m33 }
    }
}

/// The columns of a matrix.
pub open spec fn column(m: IntMatrix, j: int) -> IntVector {
    if j == 1 {
        IntVector { x: m.m11, y: m.m21, z: m.m31 }
    } else if j == 2 {
        IntVector { x: m.m12, y: m.m22, z: m.m32 }
    } else {
        IntVector { x: m.m13, y: m.m23, z: m.m33 }
    }
}

/// The determinant is the triple product of the rows, and of the columns.
proof fn lemma_det_triple(m: IntMatrix)
    ensures
        m.det() == triple(row(m, 2), row(m, 3), row(m, 1)),
        m.det() == triple(column(m, 2), column(m, 3), column(m, 1)),
{
    let r = triple(row(m, 2), row(m, 3), row(m, 1));
    let c = triple(column(m, 2), column(m, 3), column(m, 1));
    lemma_triple_spread(row(m, 2), row(m, 3), row(m, 1));
    lemma_triple_spread(column(m, 2), column(m, 3), column(m, 1));
    // The determinant spread out.
    assert(m.m11 * (m.m22 * m.m33 - m.m23 * m.m32) == m.m22 * m.m33 * m.m11 - m.m23 * m.m32
        * m.m11) by {
        lemma_minor_times(m.m22, m.m33, m.m23, m.m32, m.m11);
        assert(m.m11 * (m.m22 * m.m33 - m.m23 * m.m32) == (m.m22 * m.m33 - m.m23 * m.m32) * m.m11)
            by (nonlinear_arith);
    }
    assert(m.m12 * (m.m21 * m.m33 - m.m23 * m.m31) == m.m21 * m.m33 * m.m12 - m.m23 * m.m31
        * m.m12) by {
        lemma_minor_times(m.m21, m.m33, m.m23, m.m31, m.m12);
        assert(m.m12 * (m.m21 * m.m33 - m.m23 * m.m31) == (m.m21 * m.m33 - m.m23 * m.m31) * m.m12)
            by (nonlinear_arith);
    }
    assert(m.m13 * (m.m21 * m.m32 - m.m22 * m.m31) == m.m21 * m.m32 * m.m13 - m.m22 * m.m31
        * m.m13) by {
        lemma_minor_times(m.m21, m.m32, m.m22, m.m31, m.m13);
        assert(m.m13 * (m.m21 * m.m32 - m.m22 * m.m31) == (m.m21 * m.m32 - m.m22 * m.m31) * m.m13)
            by (nonlinear_arith);
    }
    assert(r == m.det());
    // The columns: the same six products in other orders.
    lemma_swap(m.m22, m.m33, m.m11);
    lemma_swap(m.m32, m.m23, m.m11);
    lemma_swap(m.m32, m.m13, m.m21);
    lemma_swap(m.m12, m.m33, m.m21);
    lemma_swap(m.m12, m.m23, m.m31);
    lemma_swap(m.m22, m.m13, m.m31);
    lemma_swap(m.m23, m.m32, m.m11);
    lemma_swap(m.m21, m.m33, m.m12);
    lemma_swap(m.m23, m.m31, m.m12);
    lemma_swap(m.m21, m.m32, m.m13);
    lemma_swap(m.m22, m.m31, m.m13);
    assert(c == m.det());
}


proof fn lemma_commute(a: int, b: int)
    ensures
        a * b == b * a,
{
    assert(a * b == b * a) by (nonlinear_arith);
}

/// The product of the adjugate of a matrix and the matrix, either way
/// round, is the determinant times the identity.
pub proof fn lemma_adjugate(m: IntMatrix)
    ensures
        m.adjugate().times(m) == IntMatrix::identity().scaled(m.det()),
        m.times(m.adjugate()) == IntMatrix::identity().scaled(m.det()),
{
    let d = m.det();
    let c1 = column(m, 1);
    let c2 = column(m, 2);
    let c3 = column(m, 3);
    let r1 = row(m, 1);
    let r2 = row(m, 2);
    let r3 = row(m, 3);
    lemma_det_triple(m);
    lemma_triple_zero(c2, c3);
    lemma_triple_zero(c3, c1);
    lemma_triple_zero(c1, c2);
    lemma_triple_cycle(c3, c1, c2);
    lemma_triple_cycle(c1, c2, c3);
    lemma_triple_zero(r2, r3);
    lemma_triple_zero(r3, r1);
    lemma_triple_zero(r1, r2);
    lemma_triple_cycle(r3, r1, r2);
    lemma_triple_cycle(r1, r2, r3);
    lemma_commute(m.m23, m.m32);
    lemma_commute(m.m13, m.m32);
    lemma_commute(m.m13, m.m22);
    lemma_commute(m.m21, m.m33);
    lemma_commute(m.m11, m.m33);
    lemma_commute(m.m11, m.m23);
    lemma_commute(m.m22, m.m31);
    lemma_commute(m.m12, m.m31);
    lemma_commute(m.m12, m.m21);
    lemma_commute(m.m12, m.m33);
    lemma_commute(m.m13, m.m31);
    lemma_commute(m.m11, m.m32);
    let adj = m.adjugate();
    lemma_commute(m.m11, adj.m11);
    lemma_commute(m.m12, adj.m21);
    lemma_commute(m.m13, adj.m31);
    lemma_commute(m.m11, adj.m12);
    lemma_commute(m.m12, adj.m22);
    lemma_commute(m.m13, adj.m32);
    lemma_commute(m.m11, adj.m13);
    lemma_commute(m.m12, adj.m23);
    lemma_commute(m.m13, adj.m33);
    lemma_commute(m.m21, adj.m11);
    lemma_commute(m.m22, adj.m21);
    lemma_commute(m.m23, adj.m31);
    lemma_commute(m.m21, adj.m12);
    lemma_commute(m.m22, adj.m22);
    lemma_commute(m.m23, adj.m32);
    lemma_commute(m.m21, adj.m13);
    lemma_commute(m.m22, adj.m23);
    lemma_commute(m.m23, adj.m33);
    lemma_commute(m.m31, adj.m11);
    lemma_commute(m.m32, adj.m21);
    lemma_commute(m.m33, adj.m31);
    lemma_commute(m.m31, adj.m12);
    lemma_commute(m.m32, adj.m22);
    lemma_commute(m.m33, adj.m32);
    lemma_commute(m.m31, adj.m13);
    lemma_commute(m.m32, adj.m23);
    lemma_commute(m.m33, adj.m33);
    let left = m.adjugate().times(m);
    assert(left.m11 == triple(c2, c3, c1));
    assert(left.m12 == triple(c2, c3, c2));
    assert(left.m13 == triple(c2, c3, c3));
    assert(left.m21 == triple(c3, c1, c1));
    assert(left.m22 == triple(c3, c1, c2));
    assert(left.m23 == triple(c3, c1, c3));
    assert(left.m31 == triple(c1, c2, c1));
    assert(left.m32 == triple(c1, c2, c2));
    assert(left.m33 == triple(c1, c2, c3));
    let right = m.times(m.adjugate());
    assert(right.m11 == triple(r2, r3, r1));
    assert(right.m21 == triple(r2, r3, r2));
    assert(right.m31 == triple(r2, r3, r3));
    assert(right.m12 == triple(r3, r1, r1));
    assert(right.m22 == triple(r3, r1, r2));
    assert(right.m32 == triple(r3, r1, r3));
    assert(right.m13 == triple(r1, r2, r1));
    assert(right.m23 == triple(r1, r2, r2));
    assert(right.m33 == triple(r1, r2, r3));
    let scaled = IntMatrix::identity().scaled(d);
    assert(d * 0 == 0 && d * 1 == d) by (nonlinear_arith);
    assert(scaled.m12 == d * 0);
    assert(scaled.m11 == d && scaled.m22 == d && scaled.m33 == d);
    assert(scaled.m12 == 0 && scaled.m13 == 0 && scaled.m21 == 0 && scaled.m23 == 0 && scaled.m31
        == 0 && scaled.m32 == 0);
    assert(left.m11 == d && left.m22 == d && left.m33 == d);
    assert(right.m11 == d && right.m22 == d && right.m33 == d);
    assert(left == scaled);
    assert(right == scaled);
}

proof fn lemma_scaled_dot(k: int, a: int, b: int, c: int, x: int, y: int, z: int)
    ensures
        (k * a) * x + (k * b) * y + (k * c) * z == k * (a * x + b * y + c * z),
        a * (k * x) + b * (k * y) + c * (k * z) == k * (a * x + b * y + c * z),
{
    assert((k * a) * x == k * (a * x)) by (nonlinear_arith);
    assert((k * b) * y == k * (b * y)) by (nonlinear_arith);
    assert((k * c) * z == k * (c * z)) by (nonlinear_arith);
    assert(a * (k * x) == k * (a * x)) by (nonlinear_arith);
    assert(b * (k * y) == k * (b * y)) by (nonlinear_arith);
    assert(c * (k * z) == k * (c * z)) by (nonlinear_arith);
    assert(k * (a * x + b * y + c * z) == k * (a * x) + k * (b * y) + k * (c * z))
        by (nonlinear_arith);
}

/// A factor of one of two matrices is a factor of their product.
pub proof fn lemma_scaled_times(k: int, a: IntMatrix, b: IntMatrix)
    ensures
        a.scaled(k).times(b) == a.times(b).scaled(k),
        a.times(b.scaled(k)) == a.times(b).scaled(k),
{
    lemma_scaled_dot(k, a.m11, a.m12, a.m13, b.m11, b.m21, b.m31);
    lemma_scaled_dot(k, a.m11, a.m12, a.m13, b.m12, b.m22, b.m32);
    lemma_scaled_dot(k, a.m11, a.m12, a.m13, b.m13, b.m23, b.m33);
    lemma_scaled_dot(k, a.m21, a.m22, a.m23, b.m11, b.m21, b.m31);
    lemma_scaled_dot(k, a.m21, a.m22, a.m23, b.m12, b.m22, b.m32);
    lemma_scaled_dot(k, a.m21, a.m22, a.m23, b.m13, b.m23, b.m33);
    lemma_scaled_dot(k, a.m31, a.m32, a.m33, b.m11, b.m21, b.m31);
    lemma_scaled_dot(k, a.m31, a.m32, a.m33, b.m12, b.m22, b.m32);
    lemma_scaled_dot(k, a.m31, a.m32, a.m33, b.m13, b.m23, b.m33);
}

/// The image of a vector under the negative of a matrix is the negative
/// of its image.
pub proof fn lemma_apply_negated(m: IntMatrix, v: IntVector)
    ensures
        m.scaled(-1).apply(v) == m.apply(v).negated(),
{
    lemma_scaled_dot(-1, m.m11, m.m12, m.m13, v.x, v.y, v.z);
    lemma_scaled_dot(-1, m.m21, m.m22, m.m23, v.x, v.y, v.z);
    lemma_scaled_dot(-1, m.m31, m.m32, m.m33, v.x, v.y, v.z);
}

/// The image of a vector under a product is the image of its image.
pub proof fn lemma_apply_times(a: IntMatrix, b: IntMatrix, v: IntVector)
    ensures
        a.times(b).apply(v) == a.apply(b.apply(v)),
{
    lemma_assoc_entry(
        a.m11, a.m12, a.m13, b.m11, b.m12, b.m13, b.m21, b.m22, b.m23, b.m31, b.m32, b.m33, v.x,
        v.y, v.z,
    );
    lemma_assoc_entry(
        a.m21, a.m22, a.m23, b.m11, b.m12, b.m13, b.m21, b.m22, b.m23, b.m31, b.m32, b.m33, v.x,
        v.y, v.z,
    );
    lemma_assoc_entry(
        a.m31, a.m32, a.m33, b.m11, b.m12, b.m13, b.m21, b.m22, b.m23, b.m31, b.m32, b.m33, v.x,
        v.y, v.z,
    );
}

/// The linear part of the inverse of an operation of determinant 1 or -1
/// is the inverse of its linear part.
pub proof fn lemma_inverse_rotation(op: AffineOp)
    requires
        op.rot.det() == 1 || op.rot.det() == -1,
    ensures
        op.inverse().rot.times(op.rot) == IntMatrix::identity(),
        op.rot.times(op.inverse().rot) == IntMatrix::identity(),
{
    let d = op.rot.det();
    let adj = op.rot.adjugate();
    lemma_adjugate(op.rot);
    lemma_scaled_times(d, adj, op.rot);
    lemma_scaled_times(d, op.rot, adj);
    let twice = IntMatrix::identity().scaled(d).scaled(d);
    assert(d * (d * 1) == 1 && d * (d * 0) == 0) by (nonlinear_arith)
        requires
            d == 1 || d == -1,
    ;
    assert(twice == IntMatrix::identity());
}

/// An operation and its inverse cancel, either way round.
pub proof fn law_inverse_cancels(op: AffineOp)
    requires
        op.is_invertible(),
    ensures
        op.inverse().compose(op) == AffineOp::identity(),
        op.compose(op.inverse()) == AffineOp::identity(),
{
    let inv = op.inverse();
    lemma_inverse_rotation(op);
    // First the operation, then its inverse.
    lemma_apply_negated(inv.rot, op.tr);
    let back = inv.rot.apply(op.tr);
    assert(inv.tr == back.negated().reduced());
    assert(back.plus(back.negated().reduced()).reduced() == IntVector::zero());
    // First the inverse, then the operation.
    lemma_apply_reduced(op.rot, back.negated(), op.tr);
    lemma_apply_negated(op.rot, back);
    lemma_scaled_times(-1, op.rot, inv.rot);
    lemma_apply_times(op.rot, inv.rot, op.tr);
    lemma_apply_identity(op.tr);
    assert(op.rot.apply(back) == op.tr);
    lemma_negated_image(op.rot, back);
    assert(op.rot.apply(back.negated()) == op.tr.negated());
    assert(op.tr.negated().plus(op.tr).reduced() == IntVector::zero());
}

/// The image of the opposite of a vector is the opposite of its image.
pub proof fn lemma_negated_image(m: IntMatrix, v: IntVector)
    ensures
        m.apply(v.negated()) == m.apply(v).negated(),
{
    assert(v.negated() == (IntVector { x: -1 * v.x, y: -1 * v.y, z: -1 * v.z }));
    lemma_scaled_dot(-1, m.m11, m.m12, m.m13, v.x, v.y, v.z);
    lemma_scaled_dot(-1, m.m21, m.m22, m.m23, v.x, v.y, v.z);
    lemma_scaled_dot(-1, m.m31, m.m32, m.m33, v.x, v.y, v.z);
}

/// The row vector `c` times the matrix `m`: the sum of the rows of `m`,
/// each times its component of `c`.
pub open spec fn combination(c: IntVector, m: IntMatrix) -> IntVector {
    IntVector {
        x: c.x * m.m11 + c.y * m.m21 + c.z * m.m31,
        y: c.x * m.m12 + c.y * m.m22 + c.z * m.m32,
        z: c.x * m.m13 + c.y * m.m23 + c.z * m.m33,
    }
}

proof fn lemma_weighted(p: int, c1: int, c2: int, c3: int, a: int, b: int, c: int)
    ensures
        p * (c1 * a + c2 * b + c3 * c) == c1 * (p * a) + c2 * (p * b) + c3 * (p * c),
{
    assert(p * (c1 * a + c2 * b + c3 * c) == p * (c1 * a) + p * (c2 * b) + p * (c3 * c))
        by (nonlinear_arith);
    assert(p * (c1 * a) == c1 * (p * a)) by (nonlinear_arith);
    assert(p * (c2 * b) == c2 * (p * b)) by (nonlinear_arith);
    assert(p * (c3 * c) == c3 * (p * c)) by (nonlinear_arith);
}

/// The triple product with a combination of rows for its third vector is
/// the combination of the triple products with the rows.
proof fn lemma_triple_of_combination(u: IntVector, v: IntVector, c: IntVector, m: IntMatrix)
    ensures
        triple(u, v, combination(c, m)) == c.x * triple(u, v, row(m, 1)) + c.y * triple(
            u,
            v,
            row(m, 2),
        ) + c.z * triple(u, v, row(m, 3)),
{
    let p = u.y * v.z - u.z * v.y;
    let q = u.z * v.x - u.x * v.z;
    let r = u.x * v.y - u.y * v.x;
    lemma_weighted(p, c.x, c.y, c.z, m.m11, m.m21, m.m31);
    lemma_weighted(q, c.x, c.y, c.z, m.m12, m.m22, m.m32);
    lemma_weighted(r, c.x, c.y, c.z, m.m13, m.m23, m.m33);
    let t1 = p * m.m11 + q * m.m12 + r * m.m13;
    let t2 = p * m.m21 + q * m.m22 + r * m.m23;
    let t3 = p * m.m31 + q * m.m32 + r * m.m33;
    assert(triple(u, v, row(m, 1)) == t1);
    assert(triple(u, v, row(m, 2)) == t2);
    assert(triple(u, v, row(m, 3)) == t3);
    assert(c.x * t1 == c.x * (p * m.m11) + c.x * (q * m.m12) + c.x * (r * m.m13))
        by (nonlinear_arith)
        requires
            t1 == p * m.m11 + q * m.m12 + r * m.m13,
    ;
    assert(c.y * t2 == c.y * (p * m.m21) + c.y * (q * m.m22) + c.y * (r * m.m23))
        by (nonlinear_arith)
        requires
            t2 == p * m.m21 + q * m.m22 + r * m.m23,
    ;
    assert(c.z * t3 == c.z * (p * m.m31) + c.z * (q * m.m32) + c.z * (r * m.m33))
        by (nonlinear_arith)
        requires
            t3 == p * m.m31 + q * m.m32 + r * m.m33,
    ;
}

/// The triple product changes its sign where the first two vectors change
/// places, and vanishes where they are the same.
proof fn lemma_triple_swap(u: IntVector, v: IntVector, w: IntVector)
    ensures
        triple(v, u, w) == -triple(u, v, w),
        triple(u, u, w) == 0,
{
    lemma_triple_spread(u, v, w);
    lemma_triple_spread(v, u, w);
    lemma_triple_spread(u, u, w);
    lemma_swap(u.y, v.z, w.x);
    lemma_swap(u.z, v.y, w.x);
    lemma_swap(u.z, v.x, w.y);
    lemma_swap(u.x, v.z, w.y);
    lemma_swap(u.x, v.y, w.z);
    lemma_swap(u.y, v.x, w.z);
    lemma_swap(u.y, u.z, w.x);
    lemma_swap(u.z, u.x, w.y);
    lemma_swap(u.x, u.y, w.z);
}

/// The triple products of two rows of a matrix and a combination of its
/// rows: the component of the third row times the triple product of the
/// rows, with its sign, or nothing for one row taken twice.
proof fn lemma_two_rows(c: IntVector, m: IntMatrix)
    ensures
        triple(row(m, 1), row(m, 2), combination(c, m)) == c.z * triple(
            row(m, 1),
            row(m, 2),
            row(m, 3),
        ),
        triple(row(m, 2), row(m, 1), combination(c, m)) == -(c.z * triple(
            row(m, 1),
            row(m, 2),
            row(m, 3),
        )),
        triple(row(m, 2), row(m, 3), combination(c, m)) == c.x * triple(
            row(m, 1),
            row(m, 2),
            row(m, 3),
        ),
        triple(row(m, 3), row(m, 2), combination(c, m)) == -(c.x * triple(
            row(m, 1),
            row(m, 2),
            row(m, 3),
        )),
        triple(row(m, 3), row(m, 1), combination(c, m)) == c.y * triple(
            row(m, 1),
            row(m, 2),
            row(m, 3),
        ),
        triple(row(m, 1), row(m, 3), combination(c, m)) == -(c.y * triple(
            row(m, 1),
            row(m, 2),
            row(m, 3),
        )),
        triple(row(m, 1), row(m, 1), combination(c, m)) == 0,
        triple(row(m, 2), row(m, 2), combination(c, m)) == 0,
        triple(row(m, 3), row(m, 3), combination(c, m)) == 0,
{
    let b1 = row(m, 1);
    let b2 = row(m, 2);
    let b3 = row(m, 3);
    let d = triple(b1, b2, b3);
    lemma_triple_zero(b1, b2);
    lemma_triple_zero(b2, b3);
    lemma_triple_zero(b3, b1);
    lemma_triple_zero(b2, b1);
    lemma_triple_zero(b3, b2);
    lemma_triple_zero(b1, b3);
    lemma_triple_cycle(b1, b2, b3);
    lemma_triple_cycle(b2, b3, b1);
    lemma_triple_swap(b1, b2, b3);
    lemma_triple_swap(b2, b3, b1);
    lemma_triple_swap(b3, b1, b2);
    lemma_triple_swap(b1, b1, b1);
    lemma_triple_swap(b2, b2, b2);
    lemma_triple_swap(b3, b3, b3);
    lemma_triple_swap(b1, b1, b2);
    lemma_triple_swap(b1, b1, b3);
    lemma_triple_swap(b2, b2, b1);
    lemma_triple_swap(b2, b2, b3);
    lemma_triple_swap(b3, b3, b1);
    lemma_triple_swap(b3, b3, b2);
    lemma_triple_of_combination(b1, b2, c, m);
    lemma_triple_of_combination(b2, b1, c, m);
    lemma_triple_of_combination(b2, b3, c, m);
    lemma_triple_of_combination(b3, b2, c, m);
    lemma_triple_of_combination(b3, b1, c, m);
    lemma_triple_of_combination(b1, b3, c, m);
    lemma_triple_of_combination(b1, b1, c, m);
    lemma_triple_of_combination(b2, b2, c, m);
    lemma_triple_of_combination(b3, b3, c, m);
    assert(c.x * 0 == 0 && c.y * 0 == 0 && c.z * 0 == 0) by (nonlinear_arith);
    assert(c.x * (-d) == -(c.x * d) && c.y * (-d) == -(c.y * d) && c.z * (-d) == -(c.z * d))
        by (nonlinear_arith);
}

/// The triple product of a row of a matrix and two combinations of its
/// rows.
proof fn lemma_one_row(b: IntVector, c: IntVector, m: IntMatrix)
    ensures
        triple(combination(b, m), combination(c, m), row(m, 1)) == (b.y * c.z - b.z * c.y)
            * triple(row(m, 1), row(m, 2), row(m, 3)),
        triple(combination(b, m), combination(c, m), row(m, 2)) == (b.z * c.x - b.x * c.z)
            * triple(row(m, 1), row(m, 2), row(m, 3)),
        triple(combination(b, m), combination(c, m), row(m, 3)) == (b.x * c.y - b.y * c.x)
            * triple(row(m, 1), row(m, 2), row(m, 3)),
{
    let b1 = row(m, 1);
    let b2 = row(m, 2);
    let b3 = row(m, 3);
    let d = triple(b1, b2, b3);
    let p = combination(b, m);
    let q = combination(c, m);
    lemma_two_rows(c, m);
    // triple(p, q, b_i) == triple(q, b_i, p), a combination of the triple(q, b_i, b_j),
    // each of which is triple(b_i, b_j, q).
    lemma_triple_cycle(p, q, b1);
    lemma_triple_cycle(p, q, b2);
    lemma_triple_cycle(p, q, b3);
    lemma_triple_of_combination(q, b1, b, m);
    lemma_triple_of_combination(q, b2, b, m);
    lemma_triple_of_combination(q, b3, b, m);
    lemma_triple_cycle(q, b1, b1);
    lemma_triple_cycle(q, b1, b2);
    lemma_triple_cycle(q, b1, b3);
    lemma_triple_cycle(q, b2, b1);
    lemma_triple_cycle(q, b2, b2);
    lemma_triple_cycle(q, b2, b3);
    lemma_triple_cycle(q, b3, b1);
    lemma_triple_cycle(q, b3, b2);
    lemma_triple_cycle(q, b3, b3);
    lemma_pair_times(b.y, c.z, b.z, c.y, d);
    lemma_pair_times(b.z, c.x, b.x, c.z, d);
    lemma_pair_times(b.x, c.y, b.y, c.x, d);
    assert(b.x * 0 == 0 && b.y * 0 == 0 && b.z * 0 == 0) by (nonlinear_arith);
}

proof fn lemma_pair_times(a: int, b: int, c: int, e: int, d: int)
    ensures
        (a * b - c * e) * d == a * (b * d) + c * (-(e * d)),
{
    assert((a * b - c * e) * d == a * (b * d) + c * (-(e * d))) by (nonlinear_arith);
}

/// The determinant of a product is the product of the determinants.
pub proof fn law_det_of_product(a: IntMatrix, b: IntMatrix)
    ensures
        a.times(b).det() == a.det() * b.det(),
{
    let a1 = row(a, 1);
    let a2 = row(a, 2);
    let a3 = row(a, 3);
    let d = triple(row(b, 1), row(b, 2), row(b, 3));
    let product = a.times(b);
    assert(row(product, 1) == combination(a1, b));
    assert(row(product, 2) == combination(a2, b));
    assert(row(product, 3) == combination(a3, b));
    lemma_det_triple(product);
    lemma_det_triple(a);
    lemma_det_triple(b);
    lemma_triple_cycle(row(b, 1), row(b, 2), row(b, 3));
    assert(b.det() == d);
    lemma_triple_of_combination(combination(a2, b), combination(a3, b), a1, b);
    lemma_one_row(a2, a3, b);
    let x = a2.y * a3.z - a2.z * a3.y;
    let y = a2.z * a3.x - a2.x * a3.z;
    let z = a2.x * a3.y - a2.y * a3.x;
    assert(product.det() == a1.x * (x * d) + a1.y * (y * d) + a1.z * (z * d));
    assert(a.det() == x * a1.x + y * a1.y + z * a1.z);
    lemma_factor_out(x, y, z, a1.x, a1.y, a1.z, d);
}

proof fn lemma_factor_out(x: int, y: int, z: int, p: int, q: int, r: int, d: int)
    ensures
        (x * p + y * q + z * r) * d == p * (x * d) + q * (y * d) + r * (z * d),
{
    assert((x * p + y * q + z * r) * d == (x * p) * d + (y * q) * d + (z * r) * d)
        by (nonlinear_arith);
    assert((x * p) * d == p * (x * d)) by (nonlinear_arith);
    assert((y * q) * d == q * (y * d)) by (nonlinear_arith);
    assert((z * r) * d == r * (z * d)) by (nonlinear_arith);
}

} // verus!
