use vstd::prelude::*;
use vstd::string::*;
use crate::hall_symbols::closure::{
    all_chosen, best_upto, candidate, is_chosen, is_closed, is_coset_list, is_generated, is_known,
    is_translation_group, is_word, knows_all, known_at, lattice_related, lemma_congruent_reduced,
    lemma_coset_list_bounded,
    lemma_extension_keeps_known, lemma_generated_base, lemma_generated_times,
    lemma_lattice_is_group, lemma_minimal_translation, lemma_minimal_zero, lemma_push_keeps_cosets,
    lemma_push_keeps_known, lemma_related_refl, lemma_stored_is_known, minimal_translation,
    operation_count, preferred, shifts_to, stands_for, word_rotation,
};
use crate::database::sym_ops_order::texts_of;
use crate::hall_symbols::general_positions::ops_of;
use crate::hall_symbols::lattice_symbol::{views_of, LatticeSymbol};
use crate::hall_symbols::matrix_symbol::matrices::algebra::{
    lemma_compose_identity, lemma_unit_product_small,
};
use crate::hall_symbols::matrix_symbol::matrices::rotation_matrices::lemma_compiled_unit;
use crate::hall_symbols::matrix_symbol::matrices::{AffineOp, IntMatrix};
use crate::hall_symbols::matrix_symbol::{MatrixSymbol, MatrixSymbolView};
use crate::hall_symbols::ordering::{
    arrange_by_reference, in_reference, is_arranged, is_arrangement,
    lemma_arrangement_keeps_cosets, lemma_arrangement_keeps_first, lemma_arrangement_keeps_known,
    lemma_identity_first, lemma_rank_from, order_table, rank_of, reference_order,
};
use crate::hall_symbols::origin_shift::OriginShift;
use crate::hall_symbols::translation_symbol::{IntVector, Vector3};

pub mod closure;
pub mod general_positions;
pub mod inverses;
pub mod lattice_symbol;
pub mod laws;
pub mod matrix_symbol;
pub mod ordering;
pub mod origin_shift;
pub mod parser;
pub mod scan;
pub mod translation_symbol;

pub use general_positions::GeneralPositions;
pub use matrix_symbol::SeitzMatrix;

verus! {

/// Something that comes in a set of equivalent copies.
pub trait SymmetryElement {
    /// Whether the number of copies is defined.
    spec fn has_copies(&self) -> bool;

    /// The number of copies.
    spec fn copies(&self) -> nat;

    fn equiv_num(&self) -> (n: usize)
        requires
            self.has_copies(),
        ensures
            n == self.copies(),
    ;
}

impl SymmetryElement for LatticeSymbol {
    open spec fn has_copies(&self) -> bool {
        true
    }

    /// One copy for each lattice translation of the centring, and twice
    /// as many where the symbol brings in the inversion.
    open spec fn copies(&self) -> nat {
        if self.minus_sign {
            2 * self.char.vectors().len()
        } else {
            self.char.vectors().len()
        }
    }

    fn equiv_num(&self) -> (n: usize) {
        if self.minus_sign {
            2 * self.num_of_translations()
        } else {
            self.num_of_translations()
        }
    }
}

/// The product of the orders of the first `n` generators of a symbol and
/// of the number of copies that its lattice symbol makes.
pub open spec fn equivalent_positions(h: HallSymbolView, n: nat) -> nat
    decreases n,
{
    if n == 0 {
        h.lattice_symbol.copies()
    } else {
        let order = h.matrix_symbols[n - 1].compiled()->0.kind()->0.fold();
        equivalent_positions(h, (n - 1) as nat) * order
    }
}

/// A Hall symbol, parsed: the lattice symbol, the generators in the order
/// written, and the shift of origin.
#[derive(Debug, Clone, PartialEq, Eq)]
pub struct HallSymbolNotation {
    lattice_symbol: LatticeSymbol,
    matrix_symbols: Vec<MatrixSymbol>,
    origin_shift: OriginShift,
}

/// The content of a [`HallSymbolNotation`].
pub struct HallSymbolView {
    pub lattice_symbol: LatticeSymbol,
    pub matrix_symbols: Seq<MatrixSymbolView>,
    pub origin_shift: OriginShift,
}

/// The content of a list of generators.
pub open spec fn symbols_of(list: Seq<MatrixSymbol>) -> Seq<MatrixSymbolView> {
    Seq::new(list.len(), |i: int| list[i]@)
}

impl View for HallSymbolNotation {
    type V = HallSymbolView;

    closed spec fn view(&self) -> HallSymbolView {
        HallSymbolView {
            lattice_symbol: self.lattice_symbol,
            matrix_symbols: symbols_of(self.matrix_symbols@),
            origin_shift: self.origin_shift,
        }
    }
}

impl HallSymbolView {
    /// The lattice translations of the centring.
    pub open spec fn lattice(self) -> Seq<IntVector> {
        self.lattice_symbol.char.vectors()
    }

    /// The first `n` generators as text, with a blank before each.
    pub open spec fn generators_text(self, n: int) -> Seq<char>
        decreases n,
    {
        if n <= 0 {
            Seq::empty()
        } else {
            self.generators_text(n - 1) + seq![' '] + self.matrix_symbols[n - 1].text()
        }
    }

    /// The symbol as text: the lattice symbol, the generators with a
    /// blank before each, and the origin shift after a blank unless it is
    /// zero.
    pub open spec fn text(self) -> Seq<char> {
        self.lattice_symbol.text() + (if self.matrix_symbols.len() == 0 {
            seq![' ']
        } else {
            self.generators_text(self.matrix_symbols.len() as int)
        }) + (if self.origin_shift != (OriginShift { va: 0, vb: 0, vc: 0 }) {
            seq![' '] + self.origin_shift.text()
        } else {
            Seq::empty()
        })
    }

    /// Every generator stands for an operation.
    pub open spec fn all_compile(self) -> bool {
        forall|k: int|
            0 <= k < self.matrix_symbols.len() ==> (#[trigger] self.matrix_symbols[k]).compiled()
                is Some
    }

    /// The operation of generator `k`, seen from the shifted origin.
    pub open spec fn generator(self, k: int) -> AffineOp {
        self.origin_shift.conjugate(self.matrix_symbols[k].compiled()->0)
    }

    /// The operations that the lattice symbol brings into the group.
    pub open spec fn seeds(self) -> Seq<AffineOp> {
        self.lattice_symbol.operations()
    }

    /// The linear parts that span the point group: those of the
    /// generators, and after them the inversion where the lattice symbol
    /// bears a minus sign.
    pub open spec fn rotations(self) -> Seq<IntMatrix> {
        let generators = Seq::new(
            self.matrix_symbols.len(),
            |k: int|
                match self.matrix_symbols[k].compiled() {
                    Some(op) => op.rot,
                    None => IntMatrix::identity(),
                },
        );
        if self.lattice_symbol.minus_sign {
            generators.push(IntMatrix::inversion())
        } else {
            generators
        }
    }

    /// The reference order that the first generator selects.
    pub open spec fn reference(self) -> Seq<Seq<char>> {
        reference_order(self.matrix_symbols[0])
    }

    /// Every product of linear parts of generators stands in the reference
    /// order.
    pub open spec fn point_group_in_reference(self) -> bool {
        forall|w: Seq<int>|
            is_word(self.rotations(), w) ==> in_reference(
                self.reference(),
                #[trigger] word_rotation(self.rotations(), w),
            )
    }

    /// The list knows every generator.
    pub open spec fn knows_generators(self, list: Seq<AffineOp>, upto: int) -> bool {
        forall|k: int| 0 <= k < upto ==> is_known(self.lattice(), list, #[trigger] self.generator(k))
    }

    /// `list` is a list of general positions of the symbol: one operation
    /// from each coset of the lattice in the group that the generators
    /// and the operations of the lattice symbol span, the identity first,
    /// in the order of the reference table.
    pub open spec fn is_positions(self, list: Seq<AffineOp>) -> bool {
        &&& is_coset_list(self.lattice(), list)
        &&& list.len() > 0
        &&& list[0] == AffineOp::identity()
        &&& knows_all(self.lattice(), list, self.seeds(), self.seeds().len() as int)
        &&& self.knows_generators(list, self.matrix_symbols.len() as int)
        &&& is_closed(self.lattice(), list)
        &&& all_generated(self.rotations(), list)
        &&& all_chosen(self.lattice(), list)
        &&& forall|k: int|
            0 <= k < list.len() ==> in_reference(self.reference(), (#[trigger] list[k]).rot)
        &&& forall|i: int, j: int|
            0 <= i < j < list.len() ==> rank_of(self.reference(), #[trigger] list[i]) <= rank_of(
                self.reference(),
                #[trigger] list[j],
            )
    }
}

/// A product of generators that the table lacks shows that the table does
/// not hold all of them.
pub proof fn lemma_outside_breaks_reference(
    gens: Seq<IntMatrix>,
    table: Seq<Seq<char>>,
    r: IntMatrix,
)
    requires
        is_generated(gens, r),
        !in_reference(table, r),
    ensures
        !(forall|w: Seq<int>|
            is_word(gens, w) ==> in_reference(table, #[trigger] word_rotation(gens, w))),
{
    let w = choose|w: Seq<int>| #[trigger] crate::hall_symbols::closure::spells(gens, w, r);
    assert(is_word(gens, w) && word_rotation(gens, w) == r);
}

/// Why the general positions of a symbol could not be found.
#[derive(Debug, Clone, Copy)]
pub enum GenerationError {
    /// The symbol has no generator to select a reference order.
    NoGenerator,
    /// The generator with this index stands for no operation.
    InvalidGenerator(usize),
    /// The group holds this operation, whose linear part the reference
    /// order lacks.
    OutsideReferenceOrder(SeitzMatrix),
}

impl HallSymbolNotation {
    pub fn new(
        lattice_symbol: LatticeSymbol,
        matrix_symbols: Vec<MatrixSymbol>,
        origin_shift: OriginShift,
    ) -> (h: HallSymbolNotation)
        ensures
            h@ == (HallSymbolView {
                lattice_symbol,
                matrix_symbols: symbols_of(matrix_symbols@),
                origin_shift,
            }),
    {
        HallSymbolNotation { lattice_symbol, matrix_symbols, origin_shift }
    }

    pub fn to_string(&self) -> (s: String)
        ensures
            s@ == self@.text(),
    {
        let mut s = self.lattice_symbol.to_string();
        proof {
            reveal_strlit(" ");
        }
        let ghost head = s@;
        if self.matrix_symbols.len() == 0 {
            s.append(" ");
        }
        let mut i: usize = 0;
        assert(head + self@.generators_text(0) =~= head);
        while i < self.matrix_symbols.len()
            invariant
                0 <= i <= self.matrix_symbols.len(),
                self.matrix_symbols.len() > 0 ==> s@ == head + self@.generators_text(i as int),
                self.matrix_symbols.len() == 0 ==> s@ == head + seq![' '],
            decreases self.matrix_symbols.len() - i,
        {
            proof {
                reveal_strlit(" ");
            }
            s.append(" ");
            let symbol = &self.matrix_symbols[i];
            assert(self@.matrix_symbols[i as int] == symbol@);
            s.append(symbol.to_string().as_str());
            assert(s@ =~= head + self@.generators_text(i + 1));
            i = i + 1;
        }
        let ghost body = s@;
        if self.origin_shift != OriginShift::default() {
            s.append(" ");
            s.append(self.origin_shift.to_string().as_str());
            assert(s@ =~= body + (seq![' '] + self.origin_shift.text()));
        }
        assert(s@ =~= self@.text());
        s
    }

    /// The lattice symbol.
    pub fn lattice_symbol(&self) -> (l: LatticeSymbol)
        ensures
            l == self@.lattice_symbol,
    {
        self.lattice_symbol
    }

    /// The generators, in the order written.
    pub fn matrix_symbols(&self) -> (m: &Vec<MatrixSymbol>)
        ensures
            symbols_of(m@) == self@.matrix_symbols,
    {
        &self.matrix_symbols
    }

    /// The shift of origin.
    pub fn origin_shift(&self) -> (o: OriginShift)
        ensures
            o == self@.origin_shift,
    {
        self.origin_shift
    }

    /// How many generators the symbol has, the copies that its lattice
    /// symbol makes counted among them.
    pub fn num_generators(&self) -> (n: usize)
        requires
            self@.matrix_symbols.len() + 8 <= usize::MAX,
        ensures
            n == self@.lattice_symbol.copies() + self@.matrix_symbols.len(),
    {
        self.lattice_symbol.equiv_num() + self.matrix_symbols.len()
    }

    /// An upper bound of the number of operations of the group: the
    /// product of the orders of the generators and of the number of copies
    /// that the lattice symbol makes.  `None` where a generator stands for no point
    /// operation, or where the product does not fit.
    pub fn max_equiv_pos(&self) -> (r: Option<usize>)
        ensures
            match r {
                Some(n) => self@.all_compile() && n == equivalent_positions(
                    self@,
                    self@.matrix_symbols.len(),
                ),
                None => !self@.all_compile() || exists|k: int|
                    0 <= k < self@.matrix_symbols.len() && (
                    (#[trigger] self@.matrix_symbols[k]).compiled()->0.kind() is None
                        || equivalent_positions(self@, (k + 1) as nat) > usize::MAX),
            },
    {
        let mut product: usize = self.lattice_symbol.equiv_num();
        let mut k: usize = 0;
        while k < self.matrix_symbols.len()
            invariant
                0 <= k <= self.matrix_symbols.len(),
                product == equivalent_positions(self@, k as nat),
                forall|j: int| 0 <= j < k ==> (#[trigger] self@.matrix_symbols[j]).compiled() is Some,
            decreases self.matrix_symbols.len() - k,
        {
            let symbol = &self.matrix_symbols[k];
            assert(self@.matrix_symbols[k as int] == symbol@);
            let m = match symbol.seitz_matrix() {
                Ok(m) => m,
                Err(_) => {
                    return None;
                },
            };
            let order: usize = match m.rotation_type() {
                Ok(t) => {
                    assert(m@.kind() == Some(t));
                    m.equiv_num()
                },
                Err(_) => {
                    return None;
                },
            };
            assert(equivalent_positions(self@, (k + 1) as nat) == product * order);
            match product.checked_mul(order) {
                Some(p) => {
                    product = p;
                },
                None => {
                    return None;
                },
            }
            k = k + 1;
        }
        Some(product)
    }

    /// The general positions of the symbol, with the lattice translations
    /// of its centring.
    pub fn general_positions(&self) -> (r: Result<GeneralPositions, GenerationError>)
        ensures
            r is Ok <==> self@.matrix_symbols.len() > 0 && self@.all_compile()
                && self@.point_group_in_reference(),
            match r {
                Ok(g) => g@.lattice_translations == self@.lattice() && self@.is_positions(
                    g@.core_position_set,
                ),
                Err(GenerationError::NoGenerator) => self@.matrix_symbols.len() == 0,
                Err(GenerationError::InvalidGenerator(k)) => 0 <= k < self@.matrix_symbols.len()
                    && self@.matrix_symbols[k as int].compiled() is None && forall|j: int|
                    0 <= j < k ==> (#[trigger] self@.matrix_symbols[j]).compiled() is Some,
                Err(GenerationError::OutsideReferenceOrder(m)) => self@.matrix_symbols.len() > 0
                    && self@.all_compile() && is_generated(self@.rotations(), m@.rot)
                    && !in_reference(self@.reference(), m@.rot),
            },
    {
        match self.generate_positions() {
            Ok(list) => Ok(GeneralPositions::new(self.lattice_symbol.get_translations(), list)),
            Err(e) => Err(e),
        }
    }

    /// The reference order that the first generator selects.
    pub fn get_matrice_order(&self) -> (r: Vec<&'static str>)
        requires
            self@.matrix_symbols.len() > 0,
        ensures
            texts_of(r@) == self@.reference(),
    {
        let first = &self.matrix_symbols[0];
        assert(symbols_of(self.matrix_symbols@)[0] == first@);
        order_table(first.nfold_body(), first.nfold_diag())
    }

    /// Arranges the operations in the reference order of the symbol,
    /// keeping the order of those that share a place in it.  Gives back
    /// the first operation whose linear part the order lacks, should
    /// there be one.
    pub fn sort_general_positions(&self, positions: &Vec<SeitzMatrix>) -> (r: Result<
        Vec<SeitzMatrix>,
        SeitzMatrix,
    >)
        requires
            self@.matrix_symbols.len() > 0,
        ensures
            match r {
                Ok(out) => is_arranged(self@.reference(), ops_of(positions@), ops_of(out@)),
                Err(m) => exists|k: int|
                    0 <= k < positions@.len() && #[trigger] positions@[k] == m && rank_of(
                        self@.reference(),
                        m@,
                    ) == self@.reference().len() && forall|j: int|
                        0 <= j < k ==> rank_of(self@.reference(), #[trigger] ops_of(positions@)[j])
                            < self@.reference().len(),
            },
    {
        let table = self.get_matrice_order();
        match arrange_by_reference(positions, &table) {
            Ok((out, origin)) => {
                assert(is_arrangement(
                    self@.reference(),
                    ops_of(positions@),
                    ops_of(out@),
                    origin@,
                ));
                Ok(out)
            },
            Err(m) => Err(m),
        }
    }

    /// The general positions of the symbol: the lattice translations and
    /// the generators, and all their products, one from each coset of the
    /// lattice, in the reference order.  They exist where the symbol has a
    /// generator, every generator stands for an operation, and the
    /// reference order holds every product of their linear parts.
    #[verifier::rlimit(60)]
    pub fn generate_positions(&self) -> (r: Result<Vec<SeitzMatrix>, GenerationError>)
        ensures
            r is Ok <==> self@.matrix_symbols.len() > 0 && self@.all_compile()
                && self@.point_group_in_reference(),
            match r {
                Ok(list) => self@.is_positions(ops_of(list@)),
                Err(GenerationError::NoGenerator) => self@.matrix_symbols.len() == 0,
                Err(GenerationError::InvalidGenerator(k)) => 0 <= k < self@.matrix_symbols.len()
                    && self@.matrix_symbols[k as int].compiled() is None && forall|j: int|
                    0 <= j < k ==> (#[trigger] self@.matrix_symbols[j]).compiled() is Some,
                Err(GenerationError::OutsideReferenceOrder(m)) => self@.matrix_symbols.len() > 0
                    && self@.all_compile() && is_generated(self@.rotations(), m@.rot)
                    && !in_reference(self@.reference(), m@.rot),
            },
    {
        if self.matrix_symbols.len() == 0 {
            return Err(GenerationError::NoGenerator);
        }
        let lat = self.lattice_symbol.get_translations();
        let ghost vectors = self@.lattice();
        let ghost gens = self@.rotations();
        proof {
            lemma_lattice_is_group(self.lattice_symbol.char);
            lemma_generated_base(gens);
            lemma_minimal_zero(vectors);
        }
        let mut list: Vec<SeitzMatrix> = Vec::new();
        let seeds = self.lattice_symbol.seitz_matrices();
        let ghost seed_ops = self@.seeds();
        proof {
            assert(seed_ops[0] == AffineOp::identity());
            assert forall|i: int| 0 <= i < seed_ops.len() implies is_generated(
                gens,
                (#[trigger] seed_ops[i]).rot,
            ) && seed_ops[i].rot.is_unit_entries() by {
                if i == vectors.len() {
                    assert(gens[self@.matrix_symbols.len() as int] == IntMatrix::inversion());
                }
            }
        }
        let mut l: usize = 0;
        while l < seeds.len()
            invariant
                0 <= l <= seeds.len(),
                seeds@.len() == seed_ops.len(),
                seed_ops.len() > 0,
                seed_ops[0] == AffineOp::identity(),
                vectors == views_of(lat@),
                vectors == self@.lattice(),
                gens == self@.rotations(),
                is_translation_group(vectors),
                forall|i: int| 0 <= i < seeds@.len() ==> (#[trigger] seeds@[i])@ == seed_ops[i],
                forall|i: int|
                    0 <= i < seed_ops.len() ==> is_generated(gens, (#[trigger] seed_ops[i]).rot)
                        && seed_ops[i].rot.is_unit_entries(),
                is_coset_list(vectors, ops_of(list@)),
                all_generated(gens, ops_of(list@)),
                all_chosen(vectors, ops_of(list@)),
                minimal_translation(vectors, IntVector::zero()) == IntVector::zero(),
                l == 0 ==> list@.len() == 0,
                l > 0 ==> list@.len() > 0 && list@[0]@ == AffineOp::identity(),
                knows_all(vectors, ops_of(list@), seed_ops, l as int),
            decreases seeds.len() - l,
        {
            let seed = seeds[l];
            let ghost before = ops_of(list@);
            let added = add_to_list(&mut list, &lat, seed);
            proof {
                let after = ops_of(list@);
                if added {
                    lemma_stored_is_known(vectors, before, seed@);
                    assert forall|i: int| 0 <= i < l implies is_known(
                        vectors,
                        after,
                        #[trigger] seed_ops[i],
                    ) by {
                        lemma_push_keeps_known(
                            vectors,
                            before,
                            after[before.len() as int],
                            seed_ops[i],
                        );
                    }
                    assert(all_generated(gens, after)) by {
                        assert forall|k: int| 0 <= k < after.len() implies is_generated(
                            gens,
                            (#[trigger] after[k]).rot,
                        ) by {
                            if k < before.len() {
                                assert(after[k] == before[k]);
                            }
                        }
                    }
                    if l == 0 {
                        assert(before.len() == 0);
                        assert(after[0] == AffineOp::identity());
                        assert(after[0] == list@[0]@);
                    } else {
                        assert(after[0] == before[0]);
                        assert(after[0] == list@[0]@);
                    }
                } else {
                    assert(l > 0) by {
                        if l == 0 {
                            assert(before.len() == 0);
                            let k = choose|k: int| #[trigger] known_at(vectors, before, seed@, k);
                        }
                    }
                }
            }
            l = l + 1;
        }
        let mut k: usize = 0;
        while k < self.matrix_symbols.len()
            invariant
                0 <= k <= self.matrix_symbols.len(),
                vectors == views_of(lat@),
                vectors == self@.lattice(),
                gens == self@.rotations(),
                is_translation_group(vectors),
                is_coset_list(vectors, ops_of(list@)),
                all_generated(gens, ops_of(list@)),
                all_chosen(vectors, ops_of(list@)),
                forall|g: int| 0 <= g < gens.len() ==> is_generated(gens, #[trigger] gens[g]),
                list@.len() > 0,
                list@[0]@ == AffineOp::identity(),
                seed_ops == self@.seeds(),
                knows_all(vectors, ops_of(list@), seed_ops, seed_ops.len() as int),
                self@.knows_generators(ops_of(list@), k as int),
                forall|j: int| 0 <= j < k ==> (#[trigger] self@.matrix_symbols[j]).compiled() is Some,
            decreases self.matrix_symbols.len() - k,
        {
            let symbol = &self.matrix_symbols[k];
            assert(self@.matrix_symbols[k as int] == symbol@);
            let compiled = match symbol.seitz_matrix() {
                Ok(m) => m,
                Err(_) => {
                    return Err(GenerationError::InvalidGenerator(k));
                },
            };
            let shifted = self.origin_shift.shifted_matrix(compiled);
            let ghost before = ops_of(list@);
            proof {
                lemma_compiled_unit(symbol@);
                assert(gens[k as int] == shifted@.rot);
                assert(shifted@ == self@.generator(k as int));
            }
            let added = add_to_list(&mut list, &lat, shifted);
            proof {
                let after = ops_of(list@);
                if added {
                    lemma_stored_is_known(vectors, before, shifted@);
                    let last = after[before.len() as int];
                    assert forall|i: int| 0 <= i < seed_ops.len() implies is_known(
                        vectors,
                        after,
                        #[trigger] seed_ops[i],
                    ) by {
                        lemma_push_keeps_known(vectors, before, last, seed_ops[i]);
                    }
                    assert forall|j: int| 0 <= j < k implies is_known(
                        vectors,
                        after,
                        #[trigger] self@.generator(j),
                    ) by {
                        lemma_push_keeps_known(vectors, before, last, self@.generator(j));
                    }
                    assert(all_generated(gens, after)) by {
                        assert forall|i: int| 0 <= i < after.len() implies is_generated(
                            gens,
                            (#[trigger] after[i]).rot,
                        ) by {
                            if i < before.len() {
                                assert(after[i] == before[i]);
                            }
                        }
                    }
                    assert(after[0] == before[0]);
                    assert(after[0] == list@[0]@);
                }
            }
            k = k + 1;
        }
        assert(self@.all_compile());
        let ghost seeded = ops_of(list@);
        let closed = close_under_product(&mut list, &lat, Ghost(gens));
        proof {
            let after = ops_of(list@);
            assert forall|i: int| 0 <= i < seeded.len() implies after[i] == seeded[i] by {}
            assert forall|i: int| 0 <= i < seed_ops.len() implies is_known(
                vectors,
                after,
                #[trigger] seed_ops[i],
            ) by {
                lemma_extension_keeps_known(vectors, seeded, after, seed_ops[i]);
            }
            assert forall|j: int| 0 <= j < self@.matrix_symbols.len() implies is_known(
                vectors,
                after,
                #[trigger] self@.generator(j),
            ) by {
                lemma_extension_keeps_known(vectors, seeded, after, self@.generator(j));
            }
        }
        match closed {
            Ok(_) => {},
            Err(m) => {
                proof {
                    lemma_outside_breaks_reference(gens, self@.reference(), m@.rot);
                }
                return Err(GenerationError::OutsideReferenceOrder(m));
            },
        }
        let ghost full = ops_of(list@);
        let table = self.get_matrice_order();
        match arrange_by_reference(&list, &table) {
            Ok((out, ghost_origin)) => {
                proof {
                    let origin = ghost_origin@;
                    let table = self@.reference();
                    let result = ops_of(out@);
                    lemma_arrangement_keeps_cosets(table, vectors, full, result, origin);
                    lemma_identity_first(self@.matrix_symbols[0]);
                    assert(full[0] == AffineOp::identity());
                    assert forall|i: int| 0 <= i < full.len() implies 0 <= rank_of(
                        table,
                        #[trigger] full[i],
                    ) by {
                        lemma_rank_from(
                            table,
                            crate::hall_symbols::matrix_symbol::matrices::jones_faithful::rotation_text(
                                full[i].rot,
                            ),
                            0,
                        );
                    }
                    lemma_arrangement_keeps_first(table, full, result, origin);
                    assert forall|i: int| 0 <= i < seed_ops.len() implies is_known(
                        vectors,
                        result,
                        #[trigger] seed_ops[i],
                    ) by {
                        lemma_arrangement_keeps_known(
                            table,
                            vectors,
                            full,
                            result,
                            origin,
                            seed_ops[i],
                        );
                    }
                    assert forall|j: int| 0 <= j < self@.matrix_symbols.len() implies is_known(
                        vectors,
                        result,
                        #[trigger] self@.generator(j),
                    ) by {
                        lemma_arrangement_keeps_known(
                            table,
                            vectors,
                            full,
                            result,
                            origin,
                            self@.generator(j),
                        );
                    }
                    assert forall|i: int| 0 <= i < result.len() implies is_generated(
                        gens,
                        (#[trigger] result[i]).rot,
                    ) && in_reference(table, result[i].rot) && is_chosen(
                        vectors,
                        result[i].tr,
                    ) by {
                        assert(result[i] == full[origin[i]]);
                    }
                    assert(self@.is_positions(result));
                    assert forall|w: Seq<int>| is_word(gens, w) implies in_reference(
                        table,
                        #[trigger] word_rotation(gens, w),
                    ) by {
                        crate::hall_symbols::laws::law_point_group(self@, result, w);
                    }
                }
                Ok(out)
            },
            Err(m) => {
                proof {
                    let i = choose|i: int|
                        0 <= i < list@.len() && #[trigger] list@[i] == m && rank_of(
                            self@.reference(),
                            m@,
                        ) == self@.reference().len();
                    assert(full[i] == m@);
                    lemma_outside_breaks_reference(gens, self@.reference(), m@.rot);
                }
                Err(GenerationError::OutsideReferenceOrder(m))
            },
        }
    }

    /// The translation that stands for the coset of `new_translation`
    /// under the lattice translations of the centring.
    pub fn translation_minimal_repr(&self, new_translation: Vector3) -> (r: Vector3)
        ensures
            r@ == minimal_translation(self@.lattice(), new_translation@),
    {
        let lat = self.lattice_symbol.get_translations();
        minimal_among(&lat, new_translation)
    }
}

/// The squared length of a reduced vector.
fn norm_squared(v: &Vector3) -> (n: i32)
    requires
        v@.is_reduced(),
    ensures
        n == v@.norm_squared(),
{
    assert(0 <= v.x * v.x <= 121 && 0 <= v.y * v.y <= 121 && 0 <= v.z * v.z <= 121)
        by (nonlinear_arith)
        requires
            0 <= v.x < 12,
            0 <= v.y < 12,
            0 <= v.z < 12,
    ;
    v.x * v.x + v.y * v.y + v.z * v.z
}

/// How many components of a vector are zero or negative.
fn non_positive_count(v: &Vector3) -> (n: i32)
    ensures
        n == v@.non_positive_count(),
{
    let a: i32 = if v.x <= 0 {
        1
    } else {
        0
    };
    let b: i32 = if v.y <= 0 {
        1
    } else {
        0
    };
    let c: i32 = if v.z <= 0 {
        1
    } else {
        0
    };
    a + b + c
}

/// Whether `a` is to be preferred to `b`.
fn is_preferred(a: &Vector3, b: &Vector3) -> (r: bool)
    requires
        a@.is_reduced(),
        b@.is_reduced(),
    ensures
        r == preferred(a@, b@),
{
    let na = norm_squared(a);
    let nb = norm_squared(b);
    na < nb || (na == nb && non_positive_count(a) < non_positive_count(b))
}

/// The translation that stands for the coset of `t` under the lattice
/// translations `lat`.
pub fn minimal_among(lat: &Vec<Vector3>, t: Vector3) -> (r: Vector3)
    ensures
        r@ == minimal_translation(views_of(lat@), t@),
{
    let ghost vectors = views_of(lat@);
    let mut best = t.plus_reduced(&Vector3::zeros());
    let mut i: usize = 0;
    assert(best@ == candidate(vectors, t@, 0));
    while i < lat.len()
        invariant
            0 <= i <= lat.len(),
            vectors == views_of(lat@),
            best@ == candidate(vectors, t@, best_upto(vectors, t@, i as int)),
            best@.is_reduced(),
        decreases lat.len() - i,
    {
        let next = t.plus_reduced(&lat[i]);
        assert(next@ == candidate(vectors, t@, i + 1));
        if is_preferred(&next, &best) {
            best = next;
        }
        i = i + 1;
    }
    best
}

/// Whether some entry of the list lies in the coset of `m`.
#[verifier::rlimit(40)]
pub fn is_known_in(list: &Vec<SeitzMatrix>, lat: &Vec<Vector3>, m: &SeitzMatrix) -> (found: bool)
    ensures
        found == is_known(views_of(lat@), ops_of(list@), m@),
{
    let ghost vectors = views_of(lat@);
    let ghost ops = ops_of(list@);
    let rot = m.rotation_part();
    let tr = m.translation_part();
    let mut k: usize = 0;
    while k < list.len()
        invariant
            0 <= k <= list.len(),
            vectors == views_of(lat@),
            ops == ops_of(list@),
            rot@ == m@.rot,
            tr@ == m@.tr,
            forall|a: int| 0 <= a < k ==> !known_at(vectors, ops, m@, a),
        decreases list.len() - k,
    {
        let entry = &list[k];
        if entry.rotation_part() == rot {
            let target = entry.translation_part();
            let mut l: usize = 0;
            while l < lat.len()
                invariant
                    0 <= l <= lat.len(),
                    0 <= k < list.len(),
                    vectors == views_of(lat@),
                    ops == ops_of(list@),
                    tr@ == m@.tr,
                    target@ == ops[k as int].tr,
                    ops[k as int].rot == m@.rot,
                    forall|b: int| 0 <= b < l ==> !shifts_to(vectors, m@.tr, target@, b),
                decreases lat.len() - l,
            {
                let moved = tr.plus_reduced(&lat[l]);
                proof {
                    assert(vectors[l as int] == lat@[l as int]@);
                    lemma_congruent_reduced(target@, tr@.plus(vectors[l as int]));
                }
                if target.is_congruent(&moved) {
                    assert(shifts_to(vectors, m@.tr, target@, l as int));
                    assert(known_at(vectors, ops, m@, k as int));
                    return true;
                }
                l = l + 1;
            }
            assert(!lattice_related(vectors, m@.tr, target@));
        }
        assert(!known_at(vectors, ops, m@, k as int));
        k = k + 1;
    }
    false
}

/// Puts `new_matrix` at the end of the list, under the translation that
/// stands for its coset, unless an entry lies in that coset already.
/// Tells whether the list grew.
pub fn add_to_list(list: &mut Vec<SeitzMatrix>, lat: &Vec<Vector3>, new_matrix: SeitzMatrix) -> (added:
    bool)
    requires
        is_translation_group(views_of(lat@)),
        is_coset_list(views_of(lat@), ops_of(old(list)@)),
        new_matrix@.rot.is_unit_entries(),
    ensures
        added == !is_known(views_of(lat@), ops_of(old(list)@), new_matrix@),
        !added ==> final(list)@ == old(list)@,
        added ==> final(list)@.len() == old(list)@.len() + 1 && ops_of(final(list)@) == ops_of(
            old(list)@,
        ).push(
            AffineOp {
                rot: new_matrix@.rot,
                tr: minimal_translation(views_of(lat@), new_matrix@.tr),
            },
        ),
        is_coset_list(views_of(lat@), ops_of(final(list)@)),
        all_chosen(views_of(lat@), ops_of(old(list)@)) ==> all_chosen(
            views_of(lat@),
            ops_of(final(list)@),
        ),
{
    if is_known_in(list, lat, &new_matrix) {
        false
    } else {
        let tr = minimal_among(lat, new_matrix.translation_part());
        let stored = SeitzMatrix::from_parts(new_matrix.rotation_part(), tr);
        proof {
            lemma_minimal_translation(views_of(lat@), new_matrix@.tr);
            lemma_push_keeps_cosets(views_of(lat@), ops_of(list@), new_matrix@, stored@);
        }
        list.push(stored);
        assert(ops_of(list@) =~= ops_of(old(list)@).push(stored@));
        proof {
            let vectors = views_of(lat@);
            let before = ops_of(old(list)@);
            let after = ops_of(list@);
            if all_chosen(vectors, before) {
                assert forall|k: int| 0 <= k < after.len() implies is_chosen(
                    vectors,
                    (#[trigger] after[k]).tr,
                ) by {
                    if k < before.len() {
                        assert(after[k] == before[k]);
                    } else {
                        assert(stands_for(vectors, new_matrix@.tr, after[k].tr));
                    }
                }
            }
        }
        true
    }
}

/// Every entry of the list has a linear part that is a product of
/// generators.
pub open spec fn all_generated(gens: Seq<IntMatrix>, list: Seq<AffineOp>) -> bool {
    forall|k: int| 0 <= k < list.len() ==> is_generated(gens, (#[trigger] list[k]).rot)
}

/// The products of entry `i` with the entries from 1 up to `j` are known.
pub open spec fn row_known(lat: Seq<IntVector>, list: Seq<AffineOp>, i: int, j: int) -> bool {
    forall|b: int| 1 <= b < j ==> is_known(lat, list, #[trigger] list[i].compose(list[b]))
}

/// The products of the entries from 1 up to `i` with those from 1 up to
/// `n` are known.
pub open spec fn rows_known(lat: Seq<IntVector>, list: Seq<AffineOp>, i: int, n: int) -> bool {
    forall|a: int| 1 <= a < i ==> #[trigger] row_known(lat, list, a, n)
}

/// A list that begins with the identity and knows the products of all its
/// other entries is closed.
pub proof fn lemma_rows_known_closed(lat: Seq<IntVector>, list: Seq<AffineOp>)
    requires
        is_translation_group(lat),
        is_coset_list(lat, list),
        list.len() > 0,
        list[0] == AffineOp::identity(),
        rows_known(lat, list, list.len() as int, list.len() as int),
    ensures
        is_closed(lat, list),
{
    assert forall|i: int, j: int| 0 <= i < list.len() && 0 <= j < list.len() implies is_known(
        lat,
        list,
        #[trigger] list[i].compose(list[j]),
    ) by {
        if i == 0 {
            lemma_compose_identity(list[j]);
            assert(list[j].canonical() == list[j]);
            lemma_related_refl(lat, list[j].tr);
            assert(known_at(lat, list, list[i].compose(list[j]), j));
        } else if j == 0 {
            lemma_compose_identity(list[i]);
            assert(list[i].canonical() == list[i]);
            lemma_related_refl(lat, list[i].tr);
            assert(known_at(lat, list, list[i].compose(list[j]), i));
        } else {
            assert(row_known(lat, list, i, list.len() as int));
        }
    }
}

/// Adds to the list the products of its entries, and the products of
/// those, until the list is closed.  Gives back a product whose linear
/// part has an entry other than -1, 0 and 1, should one come up.
#[verifier::rlimit(60)]
pub(crate) fn close_under_product(
    list: &mut Vec<SeitzMatrix>,
    lat: &Vec<Vector3>,
    Ghost(gens): Ghost<Seq<IntMatrix>>,
) -> (r: Result<(), SeitzMatrix>)
    requires
        is_translation_group(views_of(lat@)),
        is_coset_list(views_of(lat@), ops_of(old(list)@)),
        all_generated(gens, ops_of(old(list)@)),
        all_chosen(views_of(lat@), ops_of(old(list)@)),
        old(list)@.len() > 0,
        old(list)@[0]@ == AffineOp::identity(),
    ensures
        final(list)@.len() >= old(list)@.len(),
        forall|k: int| 0 <= k < old(list)@.len() ==> final(list)@[k] == old(list)@[k],
        is_coset_list(views_of(lat@), ops_of(final(list)@)),
        all_generated(gens, ops_of(final(list)@)),
        all_chosen(views_of(lat@), ops_of(final(list)@)),
        match r {
            Ok(_) => is_closed(views_of(lat@), ops_of(final(list)@)),
            Err(m) => is_generated(gens, m@.rot) && !m@.rot.is_unit_entries(),
        },
{
    let ghost vectors = views_of(lat@);
    let mut grown = true;
    while grown
        invariant
            vectors == views_of(lat@),
            is_translation_group(vectors),
            is_coset_list(vectors, ops_of(list@)),
            all_generated(gens, ops_of(list@)),
            all_chosen(vectors, ops_of(list@)),
            list@.len() >= old(list)@.len(),
            old(list)@.len() > 0,
            old(list)@[0]@ == AffineOp::identity(),
            forall|k: int| 0 <= k < old(list)@.len() ==> list@[k] == old(list)@[k],
            !grown ==> is_closed(vectors, ops_of(list@)),
        decreases
                operation_count() - list@.len() + (if grown {
                    1int
                } else {
                    0int
                }),
    {
        proof {
            lemma_coset_list_bounded(vectors, ops_of(list@));
        }
        let n = list.len();
        let ghost start = list@;
        grown = false;
        let mut i: usize = 1;
        while i < n
            invariant
                1 <= i,
                n == start.len(),
                n > 0,
                vectors == views_of(lat@),
                is_translation_group(vectors),
                is_coset_list(vectors, ops_of(list@)),
                all_generated(gens, ops_of(list@)),
                all_chosen(vectors, ops_of(list@)),
                list@.len() >= n,
                n >= old(list)@.len(),
                forall|k: int| 0 <= k < old(list)@.len() ==> start[k] == old(list)@[k],
                forall|k: int| 0 <= k < n ==> list@[k] == start[k],
                !grown ==> list@ == start && rows_known(vectors, ops_of(start), i as int, n as int),
                grown ==> list@.len() > n,
            decreases n - i,
        {
            let mut j: usize = 1;
            let mut found = false;
            while j < n && !found
                invariant
                    1 <= j,
                    1 <= i < n,
                    n == start.len(),
                    vectors == views_of(lat@),
                    is_translation_group(vectors),
                    is_coset_list(vectors, ops_of(list@)),
                    all_generated(gens, ops_of(list@)),
                    all_chosen(vectors, ops_of(list@)),
                    list@.len() >= n,
                    n >= old(list)@.len(),
                    forall|k: int| 0 <= k < old(list)@.len() ==> start[k] == old(list)@[k],
                    forall|k: int| 0 <= k < n ==> list@[k] == start[k],
                    found ==> grown,
                    !grown ==> list@ == start && rows_known(
                        vectors,
                        ops_of(start),
                        i as int,
                        n as int,
                    ) && row_known(vectors, ops_of(start), i as int, j as int),
                    grown ==> list@.len() > n,
                decreases n - j + (if found {
                    0int
                } else {
                    1int
                }),
            {
                let a = list[i];
                let b = list[j];
                proof {
                    let ops = ops_of(list@);
                    assert(ops[i as int] == a@ && ops[j as int] == b@);
                    lemma_unit_product_small(a@.rot, b@.rot);
                    lemma_generated_times(gens, a@.rot, b@.rot);
                }
                let product = match a.checked_compose(&b) {
                    Some(p) => p,
                    None => a,
                };
                if !product.rotation_part().has_unit_entries() {
                    assert forall|k: int| 0 <= k < old(list)@.len() implies list@[k] == old(
                        list,
                    )@[k] by {
                        assert(list@[k] == start[k]);
                    }
                    return Err(product);
                }
                let ghost before = list@;
                if add_to_list(list, lat, product) {
                    proof {
                        let ops = ops_of(list@);
                        assert forall|k: int| 0 <= k < ops.len() implies is_generated(
                            gens,
                            (#[trigger] ops[k]).rot,
                        ) by {
                            if k < before.len() {
                                assert(ops[k] == ops_of(before)[k]);
                            }
                        }
                        assert forall|k: int| 0 <= k < n implies list@[k] == start[k] by {
                            assert(ops_of(list@)[k] == ops_of(before)[k]);
                            assert(ops_of(list@)[k] == list@[k]@);
                            assert(ops_of(before)[k] == before[k]@);
                            SeitzMatrix::lemma_view_injective(list@[k], before[k]);
                        }
                    }
                    grown = true;
                    found = true;
                } else {
                    proof {
                        if !grown {
                            assert(ops_of(start)[i as int].compose(ops_of(start)[j as int])
                                == product@);
                        }
                    }
                    j = j + 1;
                }
            }
            proof {
                if !grown {
                    assert(row_known(vectors, ops_of(start), i as int, n as int));
                }
            }
            i = i + 1;
        }
        proof {
            lemma_coset_list_bounded(vectors, ops_of(list@));
            if !grown {
                assert(ops_of(list@)[0] == list@[0]@);
                lemma_rows_known_closed(vectors, ops_of(list@));
            }
        }
    }
    Ok(())
}

} // verus!
