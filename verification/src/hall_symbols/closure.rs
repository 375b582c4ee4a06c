use vstd::prelude::*;
use crate::hall_symbols::lattice_symbol::Lattices;
use crate::hall_symbols::matrix_symbol::matrices::algebra::{
    lemma_times_assoc, lemma_times_identity,
};
use crate::hall_symbols::matrix_symbol::matrices::{AffineOp, IntMatrix};
use crate::hall_symbols::translation_symbol::IntVector;

verus! {

/// `t` is congruent to the lattice vector number `c`.
pub open spec fn hits(lat: Seq<IntVector>, t: IntVector, c: int) -> bool {
    0 <= c < lat.len() && t.congruent(lat[c])
}

/// `t` is a lattice vector up to whole cells.
pub open spec fn in_lattice(lat: Seq<IntVector>, t: IntVector) -> bool {
    exists|c: int| #[trigger] hits(lat, t, c)
}

/// The sum of two lattice vectors.
pub open spec fn pair_sum(lat: Seq<IntVector>, a: int, b: int) -> IntVector {
    lat[a].plus(lat[b])
}

/// The opposite of a lattice vector.
pub open spec fn opposite(lat: Seq<IntVector>, a: int) -> IntVector {
    lat[a].negated()
}

/// The vectors begin with zero and are, up to whole cells, closed under
/// sum and negation.
pub open spec fn is_translation_group(lat: Seq<IntVector>) -> bool {
    &&& lat.len() > 0
    &&& lat[0] == IntVector::zero()
    &&& forall|a: int, b: int|
        0 <= a < lat.len() && 0 <= b < lat.len() ==> in_lattice(lat, #[trigger] pair_sum(lat, a, b))
    &&& forall|a: int| 0 <= a < lat.len() ==> in_lattice(lat, #[trigger] opposite(lat, a))
}

proof fn lemma_congruent_component(a: int, b: int)
    ensures
        ((a - b % 12) % 12 == 0) == ((a - b) % 12 == 0),
{
}

/// Being congruent to a vector is being congruent to what it reduces to.
pub proof fn lemma_congruent_reduced(a: IntVector, b: IntVector)
    ensures
        a.congruent(b.reduced()) == a.congruent(b),
{
    lemma_congruent_component(a.x, b.x);
    lemma_congruent_component(a.y, b.y);
    lemma_congruent_component(a.z, b.z);
}

/// `t` is `s` plus the lattice vector number `l`, up to whole cells.
pub open spec fn shifts_to(lat: Seq<IntVector>, s: IntVector, t: IntVector, l: int) -> bool {
    0 <= l < lat.len() && t.congruent(s.plus(lat[l]))
}

/// `t` is `s` plus a lattice vector, up to whole cells.
pub open spec fn lattice_related(lat: Seq<IntVector>, s: IntVector, t: IntVector) -> bool {
    exists|l: int| #[trigger] shifts_to(lat, s, t, l)
}

/// The two operations have the same linear part, and translations that
/// differ by a lattice vector up to whole cells.
pub open spec fn same_coset(lat: Seq<IntVector>, a: AffineOp, b: AffineOp) -> bool {
    a.rot == b.rot && lattice_related(lat, a.tr, b.tr)
}

/// Entry `k` of the list lies in the coset of `m`.
pub open spec fn known_at(lat: Seq<IntVector>, list: Seq<AffineOp>, m: AffineOp, k: int) -> bool {
    0 <= k < list.len() && same_coset(lat, m, list[k])
}

/// Some entry of the list lies in the coset of `m`.
pub open spec fn is_known(lat: Seq<IntVector>, list: Seq<AffineOp>, m: AffineOp) -> bool {
    exists|k: int| #[trigger] known_at(lat, list, m, k)
}

/// Every entry has a reduced translation and a linear part of entries -1,
/// 0 or 1, and no two entries lie in one coset.
pub open spec fn is_coset_list(lat: Seq<IntVector>, list: Seq<AffineOp>) -> bool {
    &&& forall|k: int|
        0 <= k < list.len() ==> (#[trigger] list[k]).tr.is_reduced() && list[k].rot.is_unit_entries()
    &&& forall|i: int, j: int|
        0 <= i < list.len() && 0 <= j < list.len() && i != j ==> !same_coset(
            lat,
            #[trigger] list[i],
            #[trigger] list[j],
        )
}

/// The product of every two entries lies in the coset of some entry.
pub open spec fn is_closed(lat: Seq<IntVector>, list: Seq<AffineOp>) -> bool {
    forall|i: int, j: int|
        0 <= i < list.len() && 0 <= j < list.len() ==> is_known(
            lat,
            list,
            #[trigger] list[i].compose(list[j]),
        )
}

/// Candidate number `i` for the translation that stands for the coset of
/// `t`: `t` itself for zero, and `t` plus lattice vector `i - 1` after it,
/// each reduced into `[0, 12)`.
pub open spec fn candidate(lat: Seq<IntVector>, t: IntVector, i: int) -> IntVector {
    if i <= 0 {
        t.reduced()
    } else {
        t.plus(lat[i - 1]).reduced()
    }
}

/// `a` is to be preferred to `b`: it is shorter, or as long with fewer
/// components that are not positive.
pub open spec fn preferred(a: IntVector, b: IntVector) -> bool {
    a.norm_squared() < b.norm_squared() || (a.norm_squared() == b.norm_squared()
        && a.non_positive_count() < b.non_positive_count())
}

/// The number of the best candidate among the first `n + 1`: the first of
/// those to which none is preferred.
pub open spec fn best_upto(lat: Seq<IntVector>, t: IntVector, n: int) -> int
    decreases n,
{
    if n <= 0 {
        0
    } else {
        let b = best_upto(lat, t, n - 1);
        if preferred(candidate(lat, t, n), candidate(lat, t, b)) {
            n
        } else {
            b
        }
    }
}

/// The translation that stands for the coset of `t`: the shortest of `t`
/// and its sums with the lattice vectors, each reduced into `[0, 12)`;
/// among the shortest, one with the fewest components that are not
/// positive; among those, the first.
pub open spec fn minimal_translation(lat: Seq<IntVector>, t: IntVector) -> IntVector {
    candidate(lat, t, best_upto(lat, t, lat.len() as int))
}

/// `s` is the translation that stands for the coset of `t`.
pub open spec fn stands_for(lat: Seq<IntVector>, t: IntVector, s: IntVector) -> bool {
    minimal_translation(lat, t) == s
}

/// `s` is the translation that stands for the coset of some translation.
pub open spec fn is_chosen(lat: Seq<IntVector>, s: IntVector) -> bool {
    exists|t: IntVector| #[trigger] stands_for(lat, t, s)
}

/// Every entry of the list has a translation that was chosen to stand for
/// a coset.
pub open spec fn all_chosen(lat: Seq<IntVector>, list: Seq<AffineOp>) -> bool {
    forall|k: int| 0 <= k < list.len() ==> is_chosen(lat, (#[trigger] list[k]).tr)
}

/// The product of the generators that the word names, from left to right.
pub open spec fn word_rotation(gens: Seq<IntMatrix>, w: Seq<int>) -> IntMatrix
    decreases w.len(),
{
    if w.len() == 0 {
        IntMatrix::identity()
    } else {
        word_rotation(gens, w.drop_last()).times(gens[w.last()])
    }
}

/// Every letter of the word names a generator.
pub open spec fn is_word(gens: Seq<IntMatrix>, w: Seq<int>) -> bool {
    forall|i: int| 0 <= i < w.len() ==> 0 <= #[trigger] w[i] < gens.len()
}

/// `w` is a word in the generators whose product is `r`.
pub open spec fn spells(gens: Seq<IntMatrix>, w: Seq<int>, r: IntMatrix) -> bool {
    is_word(gens, w) && word_rotation(gens, w) == r
}

/// `r` is a product of generators.
pub open spec fn is_generated(gens: Seq<IntMatrix>, r: IntMatrix) -> bool {
    exists|w: Seq<int>| #[trigger] spells(gens, w, r)
}

/// The product of a word followed by another is the product of their
/// products.
pub proof fn lemma_word_concat(gens: Seq<IntMatrix>, v: Seq<int>, w: Seq<int>)
    ensures
        word_rotation(gens, v + w) == word_rotation(gens, v).times(word_rotation(gens, w)),
    decreases w.len(),
{
    if w.len() == 0 {
        assert(v + w =~= v);
        lemma_times_identity(word_rotation(gens, v));
    } else {
        assert((v + w).drop_last() =~= v + w.drop_last());
        assert((v + w).last() == w.last());
        lemma_word_concat(gens, v, w.drop_last());
        lemma_times_assoc(
            word_rotation(gens, v),
            word_rotation(gens, w.drop_last()),
            gens[w.last()],
        );
    }
}

/// The product of two products of generators is one.
pub proof fn lemma_generated_times(gens: Seq<IntMatrix>, a: IntMatrix, b: IntMatrix)
    requires
        is_generated(gens, a),
        is_generated(gens, b),
    ensures
        is_generated(gens, a.times(b)),
{
    let v = choose|v: Seq<int>| #[trigger] spells(gens, v, a);
    let w = choose|w: Seq<int>| #[trigger] spells(gens, w, b);
    lemma_word_concat(gens, v, w);
    assert(is_word(gens, v + w));
    assert(spells(gens, v + w, a.times(b)));
}

/// The identity is the product of no generators, and each generator is a
/// product of one.
pub proof fn lemma_generated_base(gens: Seq<IntMatrix>)
    ensures
        is_generated(gens, IntMatrix::identity()),
        forall|g: int| 0 <= g < gens.len() ==> is_generated(gens, #[trigger] gens[g]),
{
    assert(spells(gens, Seq::<int>::empty(), IntMatrix::identity()));
    assert forall|g: int| 0 <= g < gens.len() implies is_generated(gens, #[trigger] gens[g]) by {
        let w = seq![g];
        assert(w.drop_last() =~= Seq::<int>::empty());
        lemma_times_identity(gens[g]);
        assert(spells(gens, w, gens[g]));
    }
}

/// Every translation lies in its own coset.
pub proof fn lemma_related_refl(lat: Seq<IntVector>, t: IntVector)
    requires
        is_translation_group(lat),
    ensures
        lattice_related(lat, t, t),
        lattice_related(lat, t, t.reduced()),
        lattice_related(lat, t.reduced(), t),
{
    assert(shifts_to(lat, t, t, 0));
    assert(shifts_to(lat, t, t.reduced(), 0));
    assert(shifts_to(lat, t.reduced(), t, 0));
}

/// Lying in one coset is symmetric.
pub proof fn lemma_related_sym(lat: Seq<IntVector>, s: IntVector, t: IntVector)
    requires
        is_translation_group(lat),
        lattice_related(lat, s, t),
    ensures
        lattice_related(lat, t, s),
{
    let l = choose|l: int| #[trigger] shifts_to(lat, s, t, l);
    assert(in_lattice(lat, opposite(lat, l)));
    let c = choose|c: int| #[trigger] hits(lat, opposite(lat, l), c);
    assert(shifts_to(lat, t, s, c));
}

/// Lying in one coset is transitive.
pub proof fn lemma_related_trans(lat: Seq<IntVector>, s: IntVector, t: IntVector, u: IntVector)
    requires
        is_translation_group(lat),
        lattice_related(lat, s, t),
        lattice_related(lat, t, u),
    ensures
        lattice_related(lat, s, u),
{
    let l = choose|l: int| #[trigger] shifts_to(lat, s, t, l);
    let m = choose|m: int| #[trigger] shifts_to(lat, t, u, m);
    assert(in_lattice(lat, pair_sum(lat, l, m)));
    let c = choose|c: int| #[trigger] hits(lat, pair_sum(lat, l, m), c);
    assert(shifts_to(lat, s, u, c));
}

/// Each candidate lies in the coset of the translation, reduced.
pub proof fn lemma_candidate_related(lat: Seq<IntVector>, t: IntVector, i: int)
    requires
        is_translation_group(lat),
        0 <= i <= lat.len(),
    ensures
        lattice_related(lat, t, candidate(lat, t, i)),
        candidate(lat, t, i).is_reduced(),
{
    if i == 0 {
        assert(shifts_to(lat, t, candidate(lat, t, i), 0));
    } else {
        assert(shifts_to(lat, t, candidate(lat, t, i), i - 1));
    }
}

/// The best candidate is one of the candidates.
pub proof fn lemma_best_upto_bounds(lat: Seq<IntVector>, t: IntVector, n: int)
    requires
        0 <= n,
    ensures
        0 <= best_upto(lat, t, n) <= n,
    decreases n,
{
    if n > 0 {
        lemma_best_upto_bounds(lat, t, n - 1);
    }
}

/// No candidate is preferred to the best one, and the best one is
/// preferred to every candidate before it.
pub proof fn lemma_best_upto_is_best(lat: Seq<IntVector>, t: IntVector, n: int, j: int)
    requires
        0 <= j <= n,
    ensures
        !preferred(candidate(lat, t, j), candidate(lat, t, best_upto(lat, t, n))),
        j < best_upto(lat, t, n) ==> preferred(
            candidate(lat, t, best_upto(lat, t, n)),
            candidate(lat, t, j),
        ),
    decreases n,
{
    if n > 0 {
        lemma_best_upto_bounds(lat, t, n - 1);
        if j < n {
            lemma_best_upto_is_best(lat, t, n - 1, j);
        }
        lemma_best_upto_is_best(lat, t, n - 1, best_upto(lat, t, n - 1));
    }
}

/// The translation that stands for a coset lies in it, reduced.
pub proof fn lemma_minimal_translation(lat: Seq<IntVector>, t: IntVector)
    requires
        is_translation_group(lat),
    ensures
        lattice_related(lat, t, minimal_translation(lat, t)),
        minimal_translation(lat, t).is_reduced(),
{
    lemma_best_upto_bounds(lat, t, lat.len() as int);
    lemma_candidate_related(lat, t, best_upto(lat, t, lat.len() as int));
}

/// In a coset list, an entry moved by a lattice vector lies in the coset
/// of that entry and of no other.
pub proof fn lemma_one_per_coset(
    lat: Seq<IntVector>,
    list: Seq<AffineOp>,
    k: int,
    l: int,
    j: int,
)
    requires
        is_translation_group(lat),
        is_coset_list(lat, list),
        0 <= k < list.len(),
        0 <= l < lat.len(),
        0 <= j < list.len(),
    ensures
        is_known(lat, list, list[k].shifted_by(lat[l])),
        same_coset(lat, list[k].shifted_by(lat[l]), list[j]) <==> j == k,
{
    let moved = list[k].shifted_by(lat[l]);
    assert(shifts_to(lat, list[k].tr, moved.tr, l));
    lemma_related_sym(lat, list[k].tr, moved.tr);
    assert(known_at(lat, list, moved, k));
    if j != k && same_coset(lat, moved, list[j]) {
        lemma_related_trans(lat, list[k].tr, moved.tr, list[j].tr);
        assert(same_coset(lat, list[k], list[j]));
    }
}

/// An operation that no entry knows can join the list under any reduced
/// translation of its coset.
pub proof fn lemma_push_keeps_cosets(
    lat: Seq<IntVector>,
    list: Seq<AffineOp>,
    m: AffineOp,
    stored: AffineOp,
)
    requires
        is_translation_group(lat),
        is_coset_list(lat, list),
        !is_known(lat, list, m),
        stored.rot == m.rot,
        m.rot.is_unit_entries(),
        lattice_related(lat, m.tr, stored.tr),
        stored.tr.is_reduced(),
    ensures
        is_coset_list(lat, list.push(stored)),
{
    let next = list.push(stored);
    assert forall|i: int, j: int|
        0 <= i < next.len() && 0 <= j < next.len() && i != j implies !same_coset(
        lat,
        #[trigger] next[i],
        #[trigger] next[j],
    ) by {
        if same_coset(lat, next[i], next[j]) {
            if j == list.len() {
                // list[i] ~ stored, and m ~ stored: so m ~ list[i].
                lemma_related_sym(lat, list[i].tr, stored.tr);
                lemma_related_trans(lat, m.tr, stored.tr, list[i].tr);
                assert(known_at(lat, list, m, i));
            } else if i == list.len() {
                lemma_related_trans(lat, m.tr, stored.tr, list[j].tr);
                assert(known_at(lat, list, m, j));
            } else {
                assert(same_coset(lat, list[i], list[j]));
            }
        }
    }
}

/// What the list knew it still knows after a push.
pub proof fn lemma_push_keeps_known(
    lat: Seq<IntVector>,
    list: Seq<AffineOp>,
    stored: AffineOp,
    m: AffineOp,
)
    requires
        is_known(lat, list, m),
    ensures
        is_known(lat, list.push(stored), m),
{
    let k = choose|k: int| #[trigger] known_at(lat, list, m, k);
    assert(list.push(stored)[k] == list[k]);
    assert(known_at(lat, list.push(stored), m, k));
}

/// The index of the lattice vector that the sum of two of them is, up to
/// whole cells.
pub open spec fn sum_index(l: Lattices, a: int, b: int) -> int {
    match l {
        Lattices::P => 0,
        Lattices::R => (a + b) % 3,
        Lattices::F => if a == 0 {
            b
        } else if b == 0 {
            a
        } else if a == b {
            0
        } else {
            6 - a - b
        },
        _ => (a + b) % 2,
    }
}

/// The index of the lattice vector that the opposite of one is, up to
/// whole cells.
pub open spec fn opposite_index(l: Lattices, a: int) -> int {
    match l {
        Lattices::R => (3 - a) % 3,
        _ => a,
    }
}

/// The lattice vectors of every centring begin with zero and are, up to
/// whole cells, closed under sum and negation.
pub proof fn lemma_lattice_is_group(l: Lattices)
    ensures
        is_translation_group(l.vectors()),
{
    let lat = l.vectors();
    assert forall|a: int, b: int| 0 <= a < lat.len() && 0 <= b < lat.len() implies in_lattice(
        lat,
        #[trigger] pair_sum(lat, a, b),
    ) by {
        let c = sum_index(l, a, b);
        assert(hits(lat, pair_sum(lat, a, b), c));
    }
    assert forall|a: int| 0 <= a < lat.len() implies in_lattice(
        lat,
        #[trigger] opposite(lat, a),
    ) by {
        let c = opposite_index(l, a);
        assert(hits(lat, opposite(lat, a), c));
    }
}

/// A number that tells apart the matrices of entries -1, 0 and 1.
pub open spec fn rotation_code(m: IntMatrix) -> int {
    (m.m11 + 1) + 3 * (m.m12 + 1) + 9 * (m.m13 + 1) + 27 * (m.m21 + 1) + 81 * (m.m22 + 1) + 243 * (
    m.m23 + 1) + 729 * (m.m31 + 1) + 2187 * (m.m32 + 1) + 6561 * (m.m33 + 1)
}

/// A number that tells apart the reduced translations.
pub open spec fn translation_code(t: IntVector) -> int {
    t.x + 12 * t.y + 144 * t.z
}

/// A number that tells apart the operations that a coset list may hold.
pub open spec fn operation_code(m: AffineOp) -> int {
    rotation_code(m.rot) * 1728 + translation_code(m.tr)
}

/// How many operations have a linear part of entries -1, 0 or 1 and a
/// reduced translation.
pub open spec fn operation_count() -> int {
    34012224
}

/// Two digits in base 1728 are told by the number they write.
proof fn lemma_two_digits(a1: int, a0: int, b1: int, b0: int)
    requires
        0 <= a0 < 1728,
        0 <= b0 < 1728,
        a1 * 1728 + a0 == b1 * 1728 + b0,
    ensures
        a1 == b1,
        a0 == b0,
{
}

/// The code of a matrix of entries -1, 0 and 1 lies below 19683.
proof fn lemma_rotation_code_range(m: IntMatrix)
    requires
        m.is_unit_entries(),
    ensures
        0 <= rotation_code(m) < 19683,
{
}

/// The code of a reduced translation lies below 1728, and tells it.
proof fn lemma_translation_code(s: IntVector, t: IntVector)
    requires
        s.is_reduced(),
        t.is_reduced(),
    ensures
        0 <= translation_code(s) < 1728,
        translation_code(s) == translation_code(t) ==> s == t,
{
    if translation_code(s) == translation_code(t) {
        lemma_three_digits(12, s.x, s.y, s.z, t.x, t.y, t.z);
    }
}

/// Operations of one code are one, and the codes lie below the count.
pub proof fn lemma_operation_code(a: AffineOp, b: AffineOp)
    requires
        a.rot.is_unit_entries(),
        a.tr.is_reduced(),
        b.rot.is_unit_entries(),
        b.tr.is_reduced(),
    ensures
        0 <= operation_code(a) < operation_count(),
        operation_code(a) == operation_code(b) ==> a == b,
{
    lemma_rotation_code_range(a.rot);
    lemma_rotation_code_range(b.rot);
    lemma_translation_code(a.tr, b.tr);
    lemma_translation_code(b.tr, a.tr);
    let ra = rotation_code(a.rot);
    let rb = rotation_code(b.rot);
    let ta = translation_code(a.tr);
    let tb = translation_code(b.tr);
    assert(operation_code(a) == ra * 1728 + ta);
    assert(operation_code(b) == rb * 1728 + tb);
    if operation_code(a) == operation_code(b) {
        lemma_two_digits(ra, ta, rb, tb);
        lemma_rotation_code(a.rot, b.rot);
    }
}

/// Three digits in a base are told by the number they write.
proof fn lemma_three_digits(base: int, a0: int, a1: int, a2: int, b0: int, b1: int, b2: int)
    requires
        base == 3 || base == 12 || base == 27,
        0 <= a0 < base,
        0 <= a1 < base,
        0 <= a2 < base,
        0 <= b0 < base,
        0 <= b1 < base,
        0 <= b2 < base,
        a0 + base * a1 + base * base * a2 == b0 + base * b1 + base * base * b2,
    ensures
        a0 == b0,
        a1 == b1,
        a2 == b2,
{
    if base == 3 {
        assert(a0 + 3 * a1 + 9 * a2 == b0 + 3 * b1 + 9 * b2);
        assert(a0 % 3 == b0 % 3);
    } else if base == 12 {
        assert(a0 + 12 * a1 + 144 * a2 == b0 + 12 * b1 + 144 * b2);
        assert(a0 % 12 == b0 % 12);
    } else {
        assert(a0 + 27 * a1 + 729 * a2 == b0 + 27 * b1 + 729 * b2);
        assert(a0 % 27 == b0 % 27);
    }
}

/// Matrices of entries -1, 0 and 1 with one code are one.
proof fn lemma_rotation_code(a: IntMatrix, b: IntMatrix)
    requires
        a.is_unit_entries(),
        b.is_unit_entries(),
        rotation_code(a) == rotation_code(b),
    ensures
        a == b,
{
    let la = (a.m11 + 1) + 3 * (a.m12 + 1) + 9 * (a.m13 + 1);
    let ma = (a.m21 + 1) + 3 * (a.m22 + 1) + 9 * (a.m23 + 1);
    let ha = (a.m31 + 1) + 3 * (a.m32 + 1) + 9 * (a.m33 + 1);
    let lb = (b.m11 + 1) + 3 * (b.m12 + 1) + 9 * (b.m13 + 1);
    let mb = (b.m21 + 1) + 3 * (b.m22 + 1) + 9 * (b.m23 + 1);
    let hb = (b.m31 + 1) + 3 * (b.m32 + 1) + 9 * (b.m33 + 1);
    assert(rotation_code(a) == la + 27 * ma + 729 * ha);
    assert(rotation_code(b) == lb + 27 * mb + 729 * hb);
    lemma_three_digits(27, la, ma, ha, lb, mb, hb);
    lemma_three_digits(3, a.m11 + 1, a.m12 + 1, a.m13 + 1, b.m11 + 1, b.m12 + 1, b.m13 + 1);
    lemma_three_digits(3, a.m21 + 1, a.m22 + 1, a.m23 + 1, b.m21 + 1, b.m22 + 1, b.m23 + 1);
    lemma_three_digits(3, a.m31 + 1, a.m32 + 1, a.m33 + 1, b.m31 + 1, b.m32 + 1, b.m33 + 1);
}

/// A coset list holds no more entries than there are operations.
pub proof fn lemma_coset_list_bounded(lat: Seq<IntVector>, list: Seq<AffineOp>)
    requires
        is_translation_group(lat),
        is_coset_list(lat, list),
    ensures
        list.len() <= operation_count(),
{
    let codes = Seq::new(list.len(), |i: int| operation_code(list[i]));
    assert forall|i: int, j: int| 0 <= i < codes.len() && 0 <= j < codes.len() && i != j implies codes[i]
        != codes[j] by {
        lemma_operation_code(list[i], list[j]);
        if codes[i] == codes[j] {
            lemma_related_refl(lat, list[i].tr);
            assert(same_coset(lat, list[i], list[j]));
        }
    }
    assert(codes.no_duplicates());
    codes.unique_seq_to_set();
    vstd::set_lib::lemma_int_range(0, operation_count());
    assert(codes.to_set().subset_of(vstd::set_lib::set_int_range(0, operation_count()))) by {
        assert forall|c: int| codes.to_set().contains(c) implies vstd::set_lib::set_int_range(
            0,
            operation_count(),
        ).contains(c) by {
            let i = choose|i: int| 0 <= i < codes.len() && codes[i] == c;
            lemma_operation_code(list[i], list[i]);
        }
    }
    vstd::set_lib::lemma_len_subset(
        codes.to_set(),
        vstd::set_lib::set_int_range(0, operation_count()),
    );
}

/// The list knows the first `upto` of the given operations.
pub open spec fn knows_all(
    lat: Seq<IntVector>,
    list: Seq<AffineOp>,
    seeds: Seq<AffineOp>,
    upto: int,
) -> bool {
    forall|i: int| 0 <= i < upto ==> is_known(lat, list, #[trigger] seeds[i])
}

/// What a list knows, a list that begins with it knows too.
pub proof fn lemma_extension_keeps_known(
    lat: Seq<IntVector>,
    list: Seq<AffineOp>,
    longer: Seq<AffineOp>,
    m: AffineOp,
)
    requires
        list.len() <= longer.len(),
        forall|k: int| 0 <= k < list.len() ==> longer[k] == list[k],
        is_known(lat, list, m),
    ensures
        is_known(lat, longer, m),
{
    let k = choose|k: int| #[trigger] known_at(lat, list, m, k);
    assert(longer[k] == list[k]);
    assert(known_at(lat, longer, m, k));
}

/// An operation that was put on the list under the translation that
/// stands for its coset is known to the list.
pub proof fn lemma_stored_is_known(lat: Seq<IntVector>, list: Seq<AffineOp>, m: AffineOp)
    requires
        is_translation_group(lat),
    ensures
        is_known(
            lat,
            list.push(AffineOp { rot: m.rot, tr: minimal_translation(lat, m.tr) }),
            m,
        ),
{
    lemma_minimal_translation(lat, m.tr);
    let longer = list.push(AffineOp { rot: m.rot, tr: minimal_translation(lat, m.tr) });
    assert(known_at(lat, longer, m, list.len() as int));
}

/// Zero stands for the coset of zero.
pub proof fn lemma_minimal_zero(lat: Seq<IntVector>)
    requires
        is_translation_group(lat),
    ensures
        minimal_translation(lat, IntVector::zero()) == IntVector::zero(),
{
    lemma_best_zero(lat, lat.len() as int);
}

proof fn lemma_best_zero(lat: Seq<IntVector>, n: int)
    requires
        0 <= n <= lat.len(),
    ensures
        candidate(lat, IntVector::zero(), best_upto(lat, IntVector::zero(), n))
            == IntVector::zero(),
    decreases n,
{
    let zero = IntVector::zero();
    if n <= 0 {
        assert(best_upto(lat, zero, n) == 0);
        assert(candidate(lat, zero, 0) == zero.reduced());
        assert(zero.reduced() == zero);
    } else {
        lemma_best_zero(lat, n - 1);
        let c = candidate(lat, zero, n);
        let b = best_upto(lat, zero, n - 1);
        assert(candidate(lat, zero, b) == zero);
        assert(c == zero.plus(lat[n - 1]).reduced());
        assert(0 <= c.x < 12 && 0 <= c.y < 12 && 0 <= c.z < 12);
        lemma_not_preferred_to_zero(c);
        assert(!preferred(c, zero));
        assert(best_upto(lat, zero, n) == b);
    }
}

/// No reduced vector is to be preferred to zero.
proof fn lemma_not_preferred_to_zero(c: IntVector)
    requires
        c.is_reduced(),
    ensures
        !preferred(c, IntVector::zero()),
{
    assert(c.x * c.x >= 0 && c.y * c.y >= 0 && c.z * c.z >= 0) by (nonlinear_arith);
    if c.norm_squared() == 0 {
        assert(c.x == 0) by (nonlinear_arith)
            requires
                c.x * c.x + c.y * c.y + c.z * c.z == 0,
                c.y * c.y >= 0,
                c.z * c.z >= 0,
        ;
        assert(c.y == 0) by (nonlinear_arith)
            requires
                c.x * c.x + c.y * c.y + c.z * c.z == 0,
                c.x * c.x >= 0,
                c.z * c.z >= 0,
        ;
        assert(c.z == 0) by (nonlinear_arith)
            requires
                c.x * c.x + c.y * c.y + c.z * c.z == 0,
                c.x * c.x >= 0,
                c.y * c.y >= 0,
        ;
    }
}

} // verus!
