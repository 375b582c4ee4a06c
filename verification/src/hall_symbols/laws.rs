use vstd::prelude::*;
use crate::hall_symbols::closure::{
    is_generated, is_known, is_word, known_at, lemma_lattice_is_group, lemma_related_refl,
    same_coset, word_rotation,
};
use crate::hall_symbols::matrix_symbol::matrices::AffineOp;
use crate::hall_symbols::ordering::{in_reference, rank_of};
use crate::hall_symbols::origin_shift::lemma_conjugate_formula;
use crate::hall_symbols::parser::restored;
use crate::hall_symbols::matrix_symbol::notations::RotationAxis;
use crate::hall_symbols::matrix_symbol::MatrixSymbolView;
use crate::hall_symbols::HallSymbolView;

verus! {

/// General positions are closed under composition: the product of any two
/// of them lies in the coset of one of them.
pub proof fn law_closed_under_composition(h: HallSymbolView, list: Seq<AffineOp>, i: int, j: int)
    requires
        h.is_positions(list),
        0 <= i < list.len(),
        0 <= j < list.len(),
    ensures
        is_known(h.lattice(), list, list[i].compose(list[j])),
{
}

/// The identity is among the general positions exactly once, and first.
pub proof fn law_identity_once(h: HallSymbolView, list: Seq<AffineOp>, k: int)
    requires
        h.is_positions(list),
        0 <= k < list.len(),
    ensures
        list[0] == AffineOp::identity(),
        list[k] == AffineOp::identity() <==> k == 0,
{
    lemma_lattice_is_group(h.lattice_symbol.char);
    if list[k] == AffineOp::identity() && k != 0 {
        lemma_related_refl(h.lattice(), list[0].tr);
        assert(same_coset(h.lattice(), list[0], list[k]));
    }
}

/// General positions hold one operation from each coset of the lattice:
/// an entry moved by a lattice translation lies in the coset of that entry
/// and of no other.
pub proof fn law_one_per_coset(h: HallSymbolView, list: Seq<AffineOp>, k: int, l: int, j: int)
    requires
        h.is_positions(list),
        0 <= k < list.len(),
        0 <= l < h.lattice().len(),
        0 <= j < list.len(),
    ensures
        is_known(h.lattice(), list, list[k].shifted_by(h.lattice()[l])),
        same_coset(h.lattice(), list[k].shifted_by(h.lattice()[l]), list[j]) <==> j == k,
{
    lemma_lattice_is_group(h.lattice_symbol.char);
    crate::hall_symbols::closure::lemma_one_per_coset(h.lattice(), list, k, l, j);
}

/// General positions stand in the order of the reference table that the
/// first generator selects, and each of them has a place in it.
pub proof fn law_reference_order(h: HallSymbolView, list: Seq<AffineOp>, i: int, j: int)
    requires
        h.is_positions(list),
        0 <= i < j < list.len(),
    ensures
        rank_of(h.reference(), list[i]) <= rank_of(h.reference(), list[j]),
        rank_of(h.reference(), list[j]) < h.reference().len(),
{
}

/// The linear parts of the general positions are the products of the
/// linear parts of the generators, all of them and no others.
pub proof fn law_point_group(h: HallSymbolView, list: Seq<AffineOp>, w: Seq<int>)
    requires
        h.is_positions(list),
        h.all_compile(),
        is_word(h.rotations(), w),
    ensures
        exists|k: int| 0 <= k < list.len() && (#[trigger] list[k]).rot == word_rotation(
            h.rotations(),
            w,
        ),
        in_reference(h.reference(), word_rotation(h.rotations(), w)),
        forall|k: int| 0 <= k < list.len() ==> is_generated(h.rotations(), (#[trigger] list[k]).rot),
    decreases w.len(),
{
    let gens = h.rotations();
    let lat = h.lattice();
    if w.len() == 0 {
        assert(list[0].rot == word_rotation(gens, w));
    } else {
        let g = w.last();
        assert(is_word(gens, w.drop_last())) by {
            assert forall|i: int| 0 <= i < w.drop_last().len() implies 0 <= #[trigger] w.drop_last()[i]
                < gens.len() by {
                assert(w.drop_last()[i] == w[i]);
            }
        }
        law_point_group(h, list, w.drop_last());
        let a = choose|a: int|
            0 <= a < list.len() && (#[trigger] list[a]).rot == word_rotation(gens, w.drop_last());
        assert(0 <= g < gens.len());
        let source = if g < h.matrix_symbols.len() {
            assert(h.matrix_symbols[g].compiled() is Some);
            lemma_conjugate_formula(h.matrix_symbols[g].compiled()->0, h.origin_shift.vector());
            h.generator(g)
        } else {
            assert(h.seeds()[h.lattice().len() as int] == AffineOp::inversion());
            h.seeds()[h.lattice().len() as int]
        };
        assert(source.rot == gens[g]);
        assert(is_known(lat, list, source));
        let b = choose|b: int| #[trigger] known_at(lat, list, source, b);
        assert(is_known(lat, list, list[a].compose(list[b])));
        let c = choose|c: int| #[trigger] known_at(lat, list, list[a].compose(list[b]), c);
        assert(list[c].rot == word_rotation(gens, w));
    }
}

/// A first generator that names no axis stands for the same operation as
/// one that names `z`.
pub proof fn law_first_axis_is_z(symbols: Seq<MatrixSymbolView>)
    requires
        symbols.len() > 0,
        symbols[0].rotation_axis == RotationAxis::Omitted,
    ensures
        restored(symbols)[0] == restored(
            symbols.update(0, MatrixSymbolView { rotation_axis: RotationAxis::Z, ..symbols[0] }),
        )[0],
        restored(symbols)[0].rotation_axis == RotationAxis::Z,
{
}

} // verus!
