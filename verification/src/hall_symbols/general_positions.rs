use vstd::prelude::*;
use vstd::string::*;
use crate::hall_symbols::lattice_symbol::views_of;
use crate::hall_symbols::matrix_symbol::matrices::jones_faithful::{
    fraction_string, fraction_text, operation_text,
};
use crate::hall_symbols::matrix_symbol::matrices::{AffineOp, SeitzMatrix};
use crate::utils::{decimal_string, decimal_text};
use crate::hall_symbols::translation_symbol::{IntVector, Vector3};

verus! {

/// The mathematical content of a list of operations.
pub open spec fn ops_of(list: Seq<SeitzMatrix>) -> Seq<AffineOp> {
    Seq::new(list.len(), |i: int| list[i]@)
}

/// The general positions of a space group: the lattice translations of its
/// centring, and one operation for each coset of the lattice.
#[derive(Debug, Clone, PartialEq, Eq)]
pub struct GeneralPositions {
    lattice_translations: Vec<Vector3>,
    core_position_set: Vec<SeitzMatrix>,
}

/// The content of a [`GeneralPositions`].
pub struct GeneralPositionsView {
    pub lattice_translations: Seq<IntVector>,
    pub core_position_set: Seq<AffineOp>,
}

impl View for GeneralPositions {
    type V = GeneralPositionsView;

    closed spec fn view(&self) -> GeneralPositionsView {
        GeneralPositionsView {
            lattice_translations: views_of(self.lattice_translations@),
            core_position_set: ops_of(self.core_position_set@),
        }
    }
}

impl GeneralPositionsView {
    /// Entry `j` of the set that lattice translation `i` makes of the core
    /// set.
    pub open spec fn full_entry(self, i: int, j: int) -> AffineOp {
        self.core_position_set[j].shifted_by(self.lattice_translations[i])
    }

    /// One component of a lattice translation as a fraction of a cell
    /// edge.
    pub open spec fn component_text(v: int) -> Seq<char> {
        if v >= 0 {
            fraction_text(v, 12)
        } else {
            seq!['-'] + fraction_text(-v, 12)
        }
    }

    /// The heading of the set that lattice translation `i` makes.
    pub open spec fn heading(self, i: int) -> Seq<char> {
        let t = self.lattice_translations[i];
        seq!['['] + Self::component_text(t.x) + seq![',', ' '] + Self::component_text(t.y)
            + seq![',', ' '] + Self::component_text(t.z) + "] + set"@
    }

    /// The heading of set `i` and the first `n` of its lines: each line
    /// the number of an operation, counted from one, and the operation in
    /// Jones-faithful notation.
    pub open spec fn block_text(self, i: int, n: int) -> Seq<char>
        decreases n,
    {
        if n <= 0 {
            self.heading(i)
        } else {
            self.block_text(i, n - 1) + seq!['\n'] + decimal_text(n) + seq![',', ' ']
                + operation_text(self.full_entry(i, n - 1))
        }
    }

    /// The first `count` sets as text, one below the other.
    pub open spec fn sets_text(self, count: int) -> Seq<char>
        decreases count,
    {
        if count <= 0 {
            Seq::empty()
        } else if count == 1 {
            self.block_text(0, self.core_position_set.len() as int)
        } else {
            self.sets_text(count - 1) + seq!['\n'] + self.block_text(
                count - 1,
                self.core_position_set.len() as int,
            )
        }
    }

    /// The number of operations over all lattice translations.
    pub open spec fn multiplicity(self) -> nat {
        self.lattice_translations.len() * self.core_position_set.len()
    }
}

impl GeneralPositions {
    pub fn new(lattice_translations: Vec<Vector3>, core_position_set: Vec<SeitzMatrix>) -> (g:
        GeneralPositions)
        ensures
            g@.lattice_translations == views_of(lattice_translations@),
            g@.core_position_set == ops_of(core_position_set@),
    {
        GeneralPositions { lattice_translations, core_position_set }
    }

    /// For each lattice translation, the core set moved by it.
    pub fn derive_full_sets(&self) -> (sets: Vec<Vec<SeitzMatrix>>)
        ensures
            sets@.len() == self@.lattice_translations.len(),
            forall|i: int|
                0 <= i < sets@.len() ==> (#[trigger] sets@[i])@.len()
                    == self@.core_position_set.len(),
            forall|i: int, j: int|
                0 <= i < sets@.len() && 0 <= j < self@.core_position_set.len() ==> (
                #[trigger] sets@[i]@[j])@ == self@.full_entry(i, j),
    {
        let mut sets: Vec<Vec<SeitzMatrix>> = Vec::new();
        let mut i: usize = 0;
        while i < self.lattice_translations.len()
            invariant
                0 <= i <= self.lattice_translations.len(),
                sets@.len() == i,
                forall|a: int|
                    0 <= a < i ==> (#[trigger] sets@[a])@.len() == self@.core_position_set.len(),
                forall|a: int, j: int|
                    0 <= a < i && 0 <= j < self@.core_position_set.len() ==> (
                    #[trigger] sets@[a]@[j])@ == self@.full_entry(a, j),
            decreases self.lattice_translations.len() - i,
        {
            let v = self.lattice_translations[i];
            let mut set: Vec<SeitzMatrix> = Vec::new();
            let mut j: usize = 0;
            while j < self.core_position_set.len()
                invariant
                    0 <= j <= self.core_position_set.len(),
                    0 <= i < self.lattice_translations.len(),
                    v == self.lattice_translations@[i as int],
                    set@.len() == j,
                    forall|b: int| 0 <= b < j ==> (#[trigger] set@[b])@ == self@.full_entry(i as int, b),
                decreases self.core_position_set.len() - j,
            {
                let m = self.core_position_set[j];
                let moved = SeitzMatrix::from_parts(
                    m.rotation_part(),
                    m.translation_part().plus_reduced(&v),
                );
                set.push(moved);
                j = j + 1;
            }
            sets.push(set);
            i = i + 1;
        }
        sets
    }

    pub fn core_position_set(&self) -> (r: &[SeitzMatrix])
        ensures
            ops_of(r@) == self@.core_position_set,
    {
        self.core_position_set.as_slice()
    }

    /// The number of operations in the core set.
    pub fn num_of_general_pos(&self) -> (n: usize)
        ensures
            n == self@.core_position_set.len(),
    {
        self.core_position_set.len()
    }

    /// The general positions as text: for each lattice translation a
    /// heading and the operations of its set, numbered from one.
    pub fn text_format(&self) -> (s: String)
        ensures
            s@ == self@.sets_text(self@.lattice_translations.len() as int),
    {
        let mut s = String::new();
        let mut i: usize = 0;
        proof {
            reveal_strlit("[");
            reveal_strlit(", ");
            reveal_strlit("-");
            reveal_strlit("\n");
        }
        while i < self.lattice_translations.len()
            invariant
                0 <= i <= self.lattice_translations.len(),
                s@ == self@.sets_text(i as int),
            decreases self.lattice_translations.len() - i,
        {
            proof {
                reveal_strlit("[");
                reveal_strlit(", ");
                reveal_strlit("\n");
            }
            let ghost before = s@;
            if i > 0 {
                s.append("\n");
            }
            let ghost start = s@;
            let v = self.lattice_translations[i];
            s.append("[");
            push_component(&mut s, v.x);
            s.append(", ");
            push_component(&mut s, v.y);
            s.append(", ");
            push_component(&mut s, v.z);
            s.append("] + set");
            assert(s@ =~= start + self@.heading(i as int));
            let mut j: usize = 0;
            while j < self.core_position_set.len()
                invariant
                    0 <= j <= self.core_position_set.len(),
                    0 <= i < self.lattice_translations.len(),
                    v == self.lattice_translations@[i as int],
                    s@ == start + self@.block_text(i as int, j as int),
                decreases self.core_position_set.len() - j,
            {
                let m = self.core_position_set[j];
                let moved = SeitzMatrix::from_parts(
                    m.rotation_part(),
                    m.translation_part().plus_reduced(&v),
                );
                assert(moved@ == self@.full_entry(i as int, j as int));
                let ghost row_start = s@;
                proof {
                    reveal_strlit(", ");
                    reveal_strlit("\n");
                }
                s.append("\n");
                let number = decimal_string((j as i128) + 1);
                s.append(number.as_str());
                s.append(", ");
                let text = moved.jones_faithful_repr();
                s.append(text.as_str());
                assert(s@ =~= start + self@.block_text(i as int, j + 1)) by {
                    assert(s@ =~= row_start + seq!['\n'] + decimal_text(j + 1) + seq![',', ' ']
                        + operation_text(self@.full_entry(i as int, j as int)));
                }
                j = j + 1;
            }
            assert(s@ =~= self@.sets_text(i + 1)) by {
                if i == 0 {
                    assert(before =~= Seq::<char>::empty());
                    assert(start =~= Seq::<char>::empty());
                } else {
                    assert(start =~= before + seq!['\n']);
                }
            }
            i = i + 1;
        }
        s
    }

    pub fn lattice_translations(&self) -> (r: &[Vector3])
        ensures
            views_of(r@) == self@.lattice_translations,
    {
        self.lattice_translations.as_slice()
    }
}

/// Appends one component of a lattice translation as a fraction.
fn push_component(s: &mut String, v: i32)
    ensures
        final(s)@ == old(s)@ + GeneralPositionsView::component_text(v as int),
{
    proof {
        reveal_strlit("-");
    }
    if v >= 0 {
        let f = fraction_string(v as i64, 12);
        s.append(f.as_str());
    } else {
        s.append("-");
        let f = fraction_string(-(v as i64), 12);
        s.append(f.as_str());
        assert(s@ =~= old(s)@ + GeneralPositionsView::component_text(v as int));
    }
}

} // verus!
