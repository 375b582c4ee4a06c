use vstd::prelude::*;
use crate::hall_symbols::closure::{
    hits, in_lattice, is_closed, is_generated, is_known, is_translation_group, is_word, known_at,
    lattice_related, lemma_lattice_is_group, lemma_word_concat, pair_sum, same_coset, shifts_to,
    spells, word_rotation,
};
use crate::hall_symbols::laws::law_point_group;
use crate::hall_symbols::matrix_symbol::matrices::algebra::{
    lemma_times_assoc, lemma_times_identity,
};
use crate::hall_symbols::matrix_symbol::matrices::rotation_matrices::{
    fold_number, lemma_rotation_table, matrix_power, rotation_table,
};
use crate::hall_symbols::matrix_symbol::matrices::{AffineOp, IntMatrix};
use crate::hall_symbols::matrix_symbol::MatrixSymbolView;
use crate::hall_symbols::translation_symbol::IntVector;
use crate::hall_symbols::HallSymbolView;

verus! {

/// A power of a sum of exponents is the product of the powers.
pub proof fn lemma_power_add(r: IntMatrix, a: nat, b: nat)
    ensures
        matrix_power(r, a + b) == matrix_power(r, a).times(matrix_power(r, b)),
    decreases b,
{
    if b == 0 {
        lemma_times_identity(matrix_power(r, a));
    } else {
        lemma_power_add(r, a, (b - 1) as nat);
        lemma_times_assoc(matrix_power(r, a), matrix_power(r, (b - 1) as nat), r);
        assert(matrix_power(r, a + b) == matrix_power(r, (a + b - 1) as nat).times(r));
    }
}

/// A matrix whose power `n` is the identity has the identity for every
/// power that is a multiple of `n`.
pub proof fn lemma_power_multiple(r: IntMatrix, n: nat, k: nat)
    requires
        matrix_power(r, n) == IntMatrix::identity(),
    ensures
        matrix_power(r, n * k) == IntMatrix::identity(),
    decreases k,
{
    if k == 0 {
        assert(n * k == 0) by (nonlinear_arith)
            requires
                k == 0,
        ;
    } else {
        lemma_power_multiple(r, n, (k - 1) as nat);
        assert(n * k == n * ((k - 1) as nat) + n) by (nonlinear_arith)
            requires
                k >= 1,
        ;
        lemma_power_add(r, n * ((k - 1) as nat), n);
        lemma_times_identity(IntMatrix::identity());
    }
}

/// An even power of a matrix is the power of its square.
pub proof fn lemma_power_of_square(r: IntMatrix, k: nat)
    ensures
        matrix_power(r, 2 * k) == matrix_power(r.times(r), k),
    decreases k,
{
    if k > 0 {
        lemma_power_of_square(r, (k - 1) as nat);
        lemma_power_add(r, (2 * (k - 1)) as nat, 2);
        reveal_with_fuel(matrix_power, 3);
        lemma_times_identity(r);
        assert(matrix_power(r, 2) == r.times(r));
        assert(2 * (k - 1) + 2 == 2 * k);
    }
}

proof fn lemma_negated_dot(a: int, b: int, c: int, x: int, y: int, z: int)
    ensures
        (-1 * a) * (-1 * x) + (-1 * b) * (-1 * y) + (-1 * c) * (-1 * z) == a * x + b * y + c * z,
{
    assert((-1 * a) * (-1 * x) == a * x) by (nonlinear_arith);
    assert((-1 * b) * (-1 * y) == b * y) by (nonlinear_arith);
    assert((-1 * c) * (-1 * z) == c * z) by (nonlinear_arith);
}

/// A matrix and its negative have the same square.
pub proof fn lemma_negated_square(q: IntMatrix)
    ensures
        q.scaled(-1).times(q.scaled(-1)) == q.times(q),
{
    lemma_negated_dot(q.m11, q.m12, q.m13, q.m11, q.m21, q.m31);
    lemma_negated_dot(q.m11, q.m12, q.m13, q.m12, q.m22, q.m32);
    lemma_negated_dot(q.m11, q.m12, q.m13, q.m13, q.m23, q.m33);
    lemma_negated_dot(q.m21, q.m22, q.m23, q.m11, q.m21, q.m31);
    lemma_negated_dot(q.m21, q.m22, q.m23, q.m12, q.m22, q.m32);
    lemma_negated_dot(q.m21, q.m22, q.m23, q.m13, q.m23, q.m33);
    lemma_negated_dot(q.m31, q.m32, q.m33, q.m11, q.m21, q.m31);
    lemma_negated_dot(q.m31, q.m32, q.m33, q.m12, q.m22, q.m32);
    lemma_negated_dot(q.m31, q.m32, q.m33, q.m13, q.m23, q.m33);
}

/// The twelfth power of a matrix of finite order 1, 2, 3, 4 or 6, and of
/// its negative, is the identity.
pub proof fn lemma_twelfth_power(q: IntMatrix, n: nat)
    requires
        n == 1 || n == 2 || n == 3 || n == 4 || n == 6,
        matrix_power(q, n) == IntMatrix::identity(),
    ensures
        matrix_power(q, 12) == IntMatrix::identity(),
        matrix_power(q.scaled(-1), 12) == IntMatrix::identity(),
{
    let k: nat = if n == 1 {
        12
    } else if n == 2 {
        6
    } else if n == 3 {
        4
    } else if n == 4 {
        3
    } else {
        2
    };
    lemma_power_multiple(q, n, k);
    assert(n * k == 12);
    lemma_power_of_square(q, 6);
    lemma_power_of_square(q.scaled(-1), 6);
    lemma_negated_square(q);
}

/// The twelfth power of the linear part of every generator is the
/// identity.
pub proof fn lemma_generator_twelfth_power(m: MatrixSymbolView)
    requires
        m.compiled() is Some,
    ensures
        matrix_power(m.compiled()->0.rot, 12) == IntMatrix::identity(),
{
    lemma_rotation_table(m.nfold_body, m.nfold_diag, m.rotation_axis);
    let q = rotation_table(m.nfold_body, m.nfold_diag, m.rotation_axis)->0;
    lemma_twelfth_power(q, fold_number(m.nfold_body));
}

/// The word of `n` times the letter `g`.
pub open spec fn repeated_letter(g: int, n: nat) -> Seq<int> {
    Seq::new(n, |i: int| g)
}

/// The product of a repeated letter is a power of its generator.
pub proof fn lemma_repeated_letter(gens: Seq<IntMatrix>, g: int, n: nat)
    ensures
        word_rotation(gens, repeated_letter(g, n)) == matrix_power(gens[g], n),
    decreases n,
{
    if n > 0 {
        let w = repeated_letter(g, n);
        assert(w.drop_last() =~= repeated_letter(g, (n - 1) as nat));
        lemma_repeated_letter(gens, g, (n - 1) as nat);
    }
}

/// A word whose product is the inverse of the product of `w`, where the
/// twelfth power of every generator is the identity: the letters of `w`
/// from last to first, each one eleven times.
pub open spec fn inverse_word(w: Seq<int>) -> Seq<int>
    decreases w.len(),
{
    if w.len() == 0 {
        Seq::empty()
    } else {
        repeated_letter(w.last(), 11) + inverse_word(w.drop_last())
    }
}

/// The product of a word and that of its inverse word multiply to the
/// identity, either way round.
pub proof fn lemma_inverse_word(gens: Seq<IntMatrix>, w: Seq<int>)
    requires
        is_word(gens, w),
        forall|g: int| 0 <= g < gens.len() ==> matrix_power(#[trigger] gens[g], 12)
            == IntMatrix::identity(),
    ensures
        is_word(gens, inverse_word(w)),
        word_rotation(gens, w).times(word_rotation(gens, inverse_word(w)))
            == IntMatrix::identity(),
        word_rotation(gens, inverse_word(w)).times(word_rotation(gens, w))
            == IntMatrix::identity(),
    decreases w.len(),
{
    let id = IntMatrix::identity();
    if w.len() == 0 {
        lemma_times_identity(id);
    } else {
        let g = w.last();
        let rest = w.drop_last();
        assert(is_word(gens, rest)) by {
            assert forall|i: int| 0 <= i < rest.len() implies 0 <= #[trigger] rest[i]
                < gens.len() by {
                assert(rest[i] == w[i]);
            }
        }
        lemma_inverse_word(gens, rest);
        let big = word_rotation(gens, rest);
        let small = word_rotation(gens, inverse_word(rest));
        let letter = gens[g];
        let eleven = matrix_power(letter, 11);
        lemma_repeated_letter(gens, g, 11);
        lemma_word_concat(gens, repeated_letter(g, 11), inverse_word(rest));
        let inv = word_rotation(gens, inverse_word(w));
        assert(inv == eleven.times(small));
        assert(word_rotation(gens, w) == big.times(letter));
        assert(matrix_power(letter, 12) == eleven.times(letter));
        lemma_power_add(letter, 1, 11);
        reveal_with_fuel(matrix_power, 2);
        lemma_times_identity(letter);
        assert(matrix_power(letter, 1) == letter);
        assert(letter.times(eleven) == id);
        assert(eleven.times(letter) == id);
        // (big letter)(eleven small) = big (letter eleven) small = big small
        lemma_times_assoc(big.times(letter), eleven, small);
        lemma_times_assoc(big, letter, eleven);
        lemma_times_identity(big);
        // (eleven small)(big letter) = eleven (small big) letter = eleven letter
        lemma_times_assoc(eleven.times(small), big, letter);
        lemma_times_assoc(eleven, small, big);
        lemma_times_identity(eleven);
        assert(is_word(gens, inverse_word(w))) by {
            let v = inverse_word(w);
            assert forall|i: int| 0 <= i < v.len() implies 0 <= #[trigger] v[i] < gens.len() by {
                if i >= 11 {
                    assert(v[i] == inverse_word(rest)[i - 11]);
                }
            }
        }
    }
}

/// The determinants of the identity and of the inversion.
pub proof fn lemma_plain_dets()
    ensures
        IntMatrix::identity().det() == 1,
        IntMatrix::inversion().det() == -1,
{
    lemma_diagonal_det(IntMatrix::identity(), 1);
    lemma_diagonal_det(IntMatrix::inversion(), -1);
}

/// The determinant of `k` times the identity, for `k` 1 or -1.
proof fn lemma_diagonal_det(m: IntMatrix, k: int)
    requires
        k == 1 || k == -1,
        m.m11 == k && m.m22 == k && m.m33 == k,
        m.m12 == 0 && m.m13 == 0 && m.m21 == 0 && m.m23 == 0 && m.m31 == 0 && m.m32 == 0,
    ensures
        m.det() == k,
{
    assert(m.m22 * m.m33 - m.m23 * m.m32 == 1) by (nonlinear_arith)
        requires
            m.m22 == k && m.m33 == k && m.m23 == 0 && m.m32 == 0,
            k == 1 || k == -1,
    ;
    assert(m.m12 * (m.m21 * m.m33 - m.m23 * m.m31) == 0) by (nonlinear_arith)
        requires
            m.m12 == 0,
    ;
    assert(m.m13 * (m.m21 * m.m32 - m.m22 * m.m31) == 0) by (nonlinear_arith)
        requires
            m.m13 == 0,
    ;
    assert(m.m11 * (m.m22 * m.m33 - m.m23 * m.m32) == k) by (nonlinear_arith)
        requires
            m.m11 == k,
            m.m22 * m.m33 - m.m23 * m.m32 == 1,
    ;
}

/// The determinant of the negative of a matrix is the negative of its
/// determinant.
pub proof fn lemma_det_negated(m: IntMatrix)
    ensures
        m.scaled(-1).det() == -m.det(),
{
    let id = IntMatrix::identity();
    crate::hall_symbols::matrix_symbol::matrices::algebra::lemma_scaled_times(-1, id, m);
    lemma_times_identity(m);
    assert(id.scaled(-1).times(m) == m.scaled(-1));
    crate::hall_symbols::matrix_symbol::matrices::algebra::law_det_of_product(id.scaled(-1), m);
    assert(id.scaled(-1) == IntMatrix::inversion());
    lemma_plain_dets();
    assert(-1 * m.det() == -m.det());
}

/// The linear part of every generator has determinant 1 or -1.
pub proof fn lemma_generator_det(m: MatrixSymbolView)
    requires
        m.compiled() is Some,
    ensures
        m.compiled()->0.rot.det() == 1 || m.compiled()->0.rot.det() == -1,
{
    lemma_rotation_table(m.nfold_body, m.nfold_diag, m.rotation_axis);
    lemma_det_negated(rotation_table(m.nfold_body, m.nfold_diag, m.rotation_axis)->0);
}

/// A product of matrices of determinant 1 or -1 has determinant 1 or -1.
pub proof fn lemma_word_det(gens: Seq<IntMatrix>, w: Seq<int>)
    requires
        is_word(gens, w),
        forall|g: int|
            0 <= g < gens.len() ==> (#[trigger] gens[g]).det() == 1 || gens[g].det() == -1,
    ensures
        word_rotation(gens, w).det() == 1 || word_rotation(gens, w).det() == -1,
    decreases w.len(),
{
    if w.len() > 0 {
        let rest = w.drop_last();
        assert(is_word(gens, rest)) by {
            assert forall|i: int| 0 <= i < rest.len() implies 0 <= #[trigger] rest[i]
                < gens.len() by {
                assert(rest[i] == w[i]);
            }
        }
        lemma_word_det(gens, rest);
        let a = word_rotation(gens, rest);
        let b = gens[w.last()];
        assert(0 <= w[w.len() - 1] < gens.len());
        assert(b.det() == 1 || b.det() == -1);
        assert(word_rotation(gens, w) == a.times(b));
        crate::hall_symbols::matrix_symbol::matrices::algebra::law_det_of_product(a, b);
        assert(a.det() * b.det() == 1 || a.det() * b.det() == -1) by (nonlinear_arith)
            requires
                a.det() == 1 || a.det() == -1,
                b.det() == 1 || b.det() == -1,
        ;
    } else {
        lemma_plain_dets();
    }
}

/// A matrix of entries -1, 0 or 1 has an adjugate of small entries.
pub proof fn lemma_unit_adjugate(m: IntMatrix, d: int)
    requires
        m.is_unit_entries(),
        d == 1 || d == -1,
    ensures
        m.adjugate().scaled(d).fits(),
{
    let adj = m.adjugate();
    assert(adj.within(2)) by {
        lemma_unit_minor(m.m22, m.m33, m.m23, m.m32);
        lemma_unit_minor(m.m13, m.m32, m.m12, m.m33);
        lemma_unit_minor(m.m12, m.m23, m.m13, m.m22);
        lemma_unit_minor(m.m23, m.m31, m.m21, m.m33);
        lemma_unit_minor(m.m11, m.m33, m.m13, m.m31);
        lemma_unit_minor(m.m13, m.m21, m.m11, m.m23);
        lemma_unit_minor(m.m21, m.m32, m.m22, m.m31);
        lemma_unit_minor(m.m12, m.m31, m.m11, m.m32);
        lemma_unit_minor(m.m11, m.m22, m.m12, m.m21);
    }
    assert(adj.scaled(d).within(2)) by {
        if d == 1 {
            assert(adj.scaled(1) == adj);
        } else {
            let n = adj.scaled(-1);
            assert(n.m11 == -adj.m11 && n.m12 == -adj.m12 && n.m13 == -adj.m13);
            assert(n.m21 == -adj.m21 && n.m22 == -adj.m22 && n.m23 == -adj.m23);
            assert(n.m31 == -adj.m31 && n.m32 == -adj.m32 && n.m33 == -adj.m33);
        }
    }
}

proof fn lemma_unit_minor(a: int, b: int, c: int, d: int)
    requires
        -1 <= a <= 1,
        -1 <= b <= 1,
        -1 <= c <= 1,
        -1 <= d <= 1,
    ensures
        -2 <= a * b - c * d <= 2,
{
    assert(-1 <= a * b <= 1) by (nonlinear_arith)
        requires
            -1 <= a <= 1,
            -1 <= b <= 1,
    ;
    assert(-1 <= c * d <= 1) by (nonlinear_arith)
        requires
            -1 <= c <= 1,
            -1 <= d <= 1,
    ;
}

/// Every general position has an inverse: its linear part has
/// determinant 1 or -1.
pub proof fn law_positions_invertible(h: HallSymbolView, list: Seq<AffineOp>, k: int)
    requires
        h.is_positions(list),
        h.all_compile(),
        0 <= k < list.len(),
    ensures
        list[k].is_invertible(),
{
    let gens = h.rotations();
    assert forall|g: int| 0 <= g < gens.len() implies (#[trigger] gens[g]).det() == 1
        || gens[g].det() == -1 by {
        if g < h.matrix_symbols.len() {
            assert(h.matrix_symbols[g].compiled() is Some);
            lemma_generator_det(h.matrix_symbols[g]);
            assert(gens[g] == h.matrix_symbols[g].compiled()->0.rot);
        } else {
            assert(gens[g] == IntMatrix::inversion());
            lemma_plain_dets();
        }
    }
    assert(is_generated(gens, list[k].rot));
    let w = choose|w: Seq<int>| #[trigger] spells(gens, w, list[k].rot);
    lemma_word_det(gens, w);
    lemma_unit_adjugate(list[k].rot, list[k].rot.det());
}

/// Entry `d` of the list is a pure translation in the coset of the
/// translation by `v`.
pub open spec fn pure_at(lat: Seq<IntVector>, list: Seq<AffineOp>, v: IntVector, d: int) -> bool {
    0 <= d < list.len() && list[d].rot == IntMatrix::identity() && lattice_related(
        lat,
        v,
        list[d].tr,
    )
}

/// The list holds a pure translation in the coset of the translation by
/// `v`.
pub open spec fn has_pure(lat: Seq<IntVector>, list: Seq<AffineOp>, v: IntVector) -> bool {
    exists|d: int| #[trigger] pure_at(lat, list, v, d)
}

/// `n` times the vector `v`.
pub open spec fn multiple(v: IntVector, n: nat) -> IntVector {
    IntVector { x: n * v.x, y: n * v.y, z: n * v.z }
}

/// Translations in the cosets of two translations add up to one in the
/// coset of their sum.
proof fn lemma_related_sum(
    lat: Seq<IntVector>,
    v: IntVector,
    t: IntVector,
    w: IntVector,
    u: IntVector,
)
    requires
        is_translation_group(lat),
        lattice_related(lat, v, t),
        lattice_related(lat, w, u),
    ensures
        lattice_related(lat, v.plus(w), t.plus(u).reduced()),
{
    let a = choose|a: int| #[trigger] shifts_to(lat, v, t, a);
    let b = choose|b: int| #[trigger] shifts_to(lat, w, u, b);
    assert(in_lattice(lat, pair_sum(lat, a, b)));
    let c = choose|c: int| #[trigger] hits(lat, pair_sum(lat, a, b), c);
    lemma_congruent_sum(v.x, t.x, w.x, u.x, lat[a].x, lat[b].x, lat[c].x);
    lemma_congruent_sum(v.y, t.y, w.y, u.y, lat[a].y, lat[b].y, lat[c].y);
    lemma_congruent_sum(v.z, t.z, w.z, u.z, lat[a].z, lat[b].z, lat[c].z);
    assert(shifts_to(lat, v.plus(w), t.plus(u).reduced(), c));
}

proof fn lemma_congruent_sum(v: int, t: int, w: int, u: int, a: int, b: int, c: int)
    requires
        (t - (v + a)) % 12 == 0,
        (u - (w + b)) % 12 == 0,
        ((a + b) - c) % 12 == 0,
    ensures
        (((t + u) % 12) - ((v + w) + c)) % 12 == 0,
{
}

/// A closed list that holds pure translations in the cosets of two
/// translations holds one in the coset of their sum.
proof fn lemma_pure_sum(lat: Seq<IntVector>, list: Seq<AffineOp>, v: IntVector, w: IntVector)
    requires
        is_translation_group(lat),
        is_closed(lat, list),
        has_pure(lat, list, v),
        has_pure(lat, list, w),
    ensures
        has_pure(lat, list, v.plus(w)),
{
    let a = choose|a: int| #[trigger] pure_at(lat, list, v, a);
    let b = choose|b: int| #[trigger] pure_at(lat, list, w, b);
    let both = list[b].compose(list[a]);
    lemma_times_identity(IntMatrix::identity());
    crate::hall_symbols::matrix_symbol::matrices::algebra::lemma_apply_identity(list[a].tr);
    assert(both.rot == IntMatrix::identity());
    assert(both.tr == list[a].tr.plus(list[b].tr).reduced());
    assert(is_known(lat, list, both));
    let e = choose|e: int| #[trigger] known_at(lat, list, both, e);
    lemma_related_sum(lat, v, list[a].tr, w, list[b].tr);
    crate::hall_symbols::closure::lemma_related_trans(lat, v.plus(w), both.tr, list[e].tr);
    assert(pure_at(lat, list, v.plus(w), e));
}

/// A closed list that holds a pure translation in the coset of a
/// translation holds one in the coset of each of its multiples.
proof fn lemma_pure_multiple(lat: Seq<IntVector>, list: Seq<AffineOp>, v: IntVector, n: nat)
    requires
        is_translation_group(lat),
        is_closed(lat, list),
        has_pure(lat, list, v),
        n >= 1,
    ensures
        has_pure(lat, list, multiple(v, n)),
    decreases n,
{
    if n == 1 {
        assert(multiple(v, 1) == v);
    } else {
        lemma_pure_multiple(lat, list, v, (n - 1) as nat);
        lemma_pure_sum(lat, list, multiple(v, (n - 1) as nat), v);
        assert(multiple(v, (n - 1) as nat).plus(v) == multiple(v, n)) by {
            assert((n - 1) * v.x + v.x == n * v.x) by (nonlinear_arith);
            assert((n - 1) * v.y + v.y == n * v.y) by (nonlinear_arith);
            assert((n - 1) * v.z + v.z == n * v.z) by (nonlinear_arith);
        }
    }
}

/// Where a pure translation `pure` lies in the coset of eleven times the
/// translation of `y` after `op`, the product of `pure` and `y` lies in
/// the coset of the inverse of `op`, `y` having the linear part of that
/// inverse.
proof fn lemma_corrected_inverse(lat: Seq<IntVector>, op: AffineOp, y: AffineOp, pure: AffineOp)
    requires
        is_translation_group(lat),
        op.is_invertible(),
        y.rot == op.inverse().rot,
        pure.rot == IntMatrix::identity(),
        lattice_related(lat, multiple(y.compose(op).tr, 11), pure.tr),
    ensures
        same_coset(lat, op.inverse(), pure.compose(y)),
{
    let inv = op.inverse();
    let back = inv.rot.apply(op.tr);
    let s = y.compose(op).tr;
    crate::hall_symbols::matrix_symbol::matrices::algebra::lemma_apply_negated(inv.rot, op.tr);
    assert(inv.tr == back.negated().reduced());
    assert(s == back.plus(y.tr).reduced());
    lemma_times_identity(y.rot);
    crate::hall_symbols::matrix_symbol::matrices::algebra::lemma_apply_identity(y.tr);
    let z = pure.compose(y);
    assert(z.rot == y.rot);
    assert(z.tr == y.tr.plus(pure.tr).reduced());
    let l = choose|l: int| #[trigger] shifts_to(lat, multiple(s, 11), pure.tr, l);
    lemma_eleven_times(back.x, y.tr.x, pure.tr.x, lat[l].x);
    lemma_eleven_times(back.y, y.tr.y, pure.tr.y, lat[l].y);
    lemma_eleven_times(back.z, y.tr.z, pure.tr.z, lat[l].z);
    assert(shifts_to(lat, inv.tr, z.tr, l));
}

proof fn lemma_eleven_times(back: int, t: int, p: int, l: int)
    requires
        (p - (11 * ((back + t) % 12) + l)) % 12 == 0,
    ensures
        (((t + p) % 12) - (((-back) % 12) + l)) % 12 == 0,
{
}

/// The general positions hold the inverse of each of them: every entry
/// has an inverse, and the inverse lies in the coset of an entry.
pub proof fn law_inverses_present(h: HallSymbolView, list: Seq<AffineOp>, k: int)
    requires
        h.is_positions(list),
        h.all_compile(),
        0 <= k < list.len(),
    ensures
        list[k].is_invertible(),
        is_known(h.lattice(), list, list[k].inverse()),
{
    let gens = h.rotations();
    let lat = h.lattice();
    let op = list[k];
    let inv = op.inverse();
    lemma_lattice_is_group(h.lattice_symbol.char);
    law_positions_invertible(h, list, k);
    assert forall|g: int| 0 <= g < gens.len() implies matrix_power(#[trigger] gens[g], 12)
        == IntMatrix::identity() by {
        if g < h.matrix_symbols.len() {
            assert(h.matrix_symbols[g].compiled() is Some);
            lemma_generator_twelfth_power(h.matrix_symbols[g]);
        } else {
            reveal_with_fuel(matrix_power, 2);
            lemma_times_identity(IntMatrix::identity());
            assert(IntMatrix::inversion() == IntMatrix::identity().scaled(-1));
            lemma_twelfth_power(IntMatrix::identity(), 1);
        }
    }
    // An entry with the linear part of the inverse.
    assert(is_generated(gens, op.rot));
    let w = choose|w: Seq<int>| #[trigger] spells(gens, w, op.rot);
    lemma_inverse_word(gens, w);
    law_point_group(h, list, inverse_word(w));
    let j = choose|j: int|
        0 <= j < list.len() && (#[trigger] list[j]).rot == word_rotation(gens, inverse_word(w));
    let y = list[j];
    lemma_left_inverse_rotation(op, y.rot);
    // Its product with the entry is a pure translation that the list knows.
    let shift = y.compose(op);
    assert(is_known(lat, list, shift));
    let c = choose|c: int| #[trigger] known_at(lat, list, shift, c);
    assert(pure_at(lat, list, shift.tr, c));
    // So is eleven times that translation, which undoes it.
    lemma_pure_multiple(lat, list, shift.tr, 11);
    let d = choose|d: int| #[trigger] pure_at(lat, list, multiple(shift.tr, 11), d);
    lemma_corrected_inverse(lat, op, y, list[d]);
    let z = list[d].compose(y);
    assert(is_known(lat, list, z));
    let m = choose|m: int| #[trigger] known_at(lat, list, z, m);
    crate::hall_symbols::closure::lemma_related_trans(lat, inv.tr, z.tr, list[m].tr);
    assert(known_at(lat, list, inv, m));
}

/// The linear part of an operation that undoes `op` from the left is
/// that of the inverse of `op`.
proof fn lemma_left_inverse_rotation(op: AffineOp, x: IntMatrix)
    requires
        op.rot.det() == 1 || op.rot.det() == -1,
        x.times(op.rot) == IntMatrix::identity(),
    ensures
        x == op.inverse().rot,
{
    let inv = op.inverse();
    crate::hall_symbols::matrix_symbol::matrices::algebra::lemma_inverse_rotation(op);
    lemma_times_assoc(x, op.rot, inv.rot);
    lemma_times_identity(x);
    lemma_times_identity(inv.rot);
}

} // verus!
