use vstd::prelude::*;
use vstd::string::*;
use core::marker::PhantomData;
use crate::crystal_systems::{Basis, CrystalSystem};
use crate::hall_symbols::general_positions::ops_of;
use crate::hall_symbols::matrix_symbol::matrices::{AffineOp, SeitzMatrix};
use crate::point_groups::basic_cyclic_groups::{
    all_products, powers_exist, products_exist, products_of, repeated_op, CyclicGroup,
    CyclicGroupView,
};
use crate::point_groups::PointGroupSymbol;

verus! {

/// The code of a mirror plane.
pub const M: i8 = -2;

/// The code of a glide plane along `c`.
pub const MC: i8 = -23;

/// The code of a two-fold axis with a mirror plane normal to it.
pub const S2M: i8 = 20;

/// The code of a four-fold axis with a mirror plane normal to it.
pub const S4M: i8 = 40;

/// The code of a six-fold axis with a mirror plane normal to it.
pub const S6M: i8 = 60;

/// The sign that a code stands for in the Hermann-Mauguin symbol of a
/// point group; nothing for a code that stands for none.
pub open spec fn sign_of_code(value: int) -> Seq<char> {
    if value == 1 {
        "1"@
    } else if value == 2 {
        "2"@
    } else if value == 3 {
        "3"@
    } else if value == 4 {
        "4"@
    } else if value == 6 {
        "6"@
    } else if value == -1 {
        "-1"@
    } else if value == -2 {
        "m"@
    } else if value == -23 {
        "c"@
    } else if value == -3 {
        "-3"@
    } else if value == -4 {
        "-4"@
    } else if value == -6 {
        "-6"@
    } else if value == 20 {
        "2/m"@
    } else if value == 40 {
        "4/m"@
    } else if value == 60 {
        "6/m"@
    } else {
        ""@
    }
}

pub fn match_lookup(value: i8) -> (s: String)
    ensures
        s@ == sign_of_code(value as int),
{
    if value == 1 {
        String::from_str("1")
    } else if value == 2 {
        String::from_str("2")
    } else if value == 3 {
        String::from_str("3")
    } else if value == 4 {
        String::from_str("4")
    } else if value == 6 {
        String::from_str("6")
    } else if value == -1 {
        String::from_str("-1")
    } else if value == M {
        String::from_str("m")
    } else if value == MC {
        String::from_str("c")
    } else if value == -3 {
        String::from_str("-3")
    } else if value == -4 {
        String::from_str("-4")
    } else if value == -6 {
        String::from_str("-6")
    } else if value == S2M {
        String::from_str("2/m")
    } else if value == S4M {
        String::from_str("4/m")
    } else if value == S6M {
        String::from_str("6/m")
    } else {
        String::from_str("")
    }
}

/// The sign of the point group with the given codes along its three
/// symmetry directions.
pub fn point_group_symbol(a: i8, b: i8, c: i8) -> (s: String)
    ensures
        s@ == sign_of_code(a as int) + sign_of_code(b as int) + sign_of_code(c as int),
{
    let mut s = match_lookup(a);
    s.append(match_lookup(b).as_str());
    s.append(match_lookup(c).as_str());
    s
}

/// Makes the point groups of the crystal system `T` in the coordinate
/// system `U`.
pub struct PointGroupBuilder<T: CrystalSystem, U: Basis>(PhantomData<T>, PhantomData<U>);

impl<T: CrystalSystem, U: Basis> PointGroupBuilder<T, U> {
    pub fn new() -> PointGroupBuilder<T, U> {
        PointGroupBuilder(PhantomData, PhantomData)
    }
}

/// The powers of the operation of a cyclic group.
pub open spec fn powers_of(g: CyclicGroupView) -> Seq<AffineOp> {
    Seq::new(g.order, |k: int| repeated_op(g.matrix, k as nat))
}

/// The products of the operations of the first `n` cyclic groups, one
/// from each: those of the first group, then the products of every
/// operation of the next group with each of them, and so on.  `None`
/// where one of them has a linear part that no machine integers hold, or
/// where they are too many for a list.
pub open spec fn combined(groups: Seq<CyclicGroupView>, n: nat) -> Option<Seq<AffineOp>>
    decreases n,
{
    if n == 0 {
        None
    } else if !powers_exist(groups[n - 1].matrix, groups[n - 1].order) {
        None
    } else if n == 1 {
        Some(powers_of(groups[0]))
    } else {
        match combined(groups, (n - 1) as nat) {
            None => None,
            Some(before) => if products_exist(before, powers_of(groups[n - 1])) && groups[n
                - 1].order * before.len() <= usize::MAX {
                Some(products_of(before, powers_of(groups[n - 1])))
            } else {
                None
            },
        }
    }
}

/// The content of a list of cyclic groups.
pub open spec fn groups_of<U: Basis>(list: Seq<CyclicGroup<U>>) -> Seq<CyclicGroupView> {
    Seq::new(list.len(), |i: int| list[i]@)
}

/// A crystallographic point group: the cyclic groups that it is the
/// product of, and the codes of its Hermann-Mauguin symbol along the
/// three symmetry directions.
#[derive(Debug)]
pub struct PointGroup<T: CrystalSystem, U: Basis> {
    generators: Vec<CyclicGroup<U>>,
    codes: [i8; 3],
    system: PhantomData<T>,
}

impl<T: CrystalSystem, U: Basis> PointGroup<T, U> {
    /// The cyclic groups of the point group.
    pub closed spec fn groups(&self) -> Seq<CyclicGroupView> {
        groups_of(self.generators@)
    }

    /// The codes of the symbol.
    pub closed spec fn codes(&self) -> Seq<i8> {
        self.codes@
    }

    /// The sign of the point group.
    pub open spec fn symbol_text(&self) -> Seq<char> {
        sign_of_code(self.codes()[0] as int) + sign_of_code(self.codes()[1] as int) + sign_of_code(
            self.codes()[2] as int,
        )
    }

    pub fn new(generators: Vec<CyclicGroup<U>>, a: i8, b: i8, c: i8) -> (g: PointGroup<T, U>)
        ensures
            g.groups() == groups_of(generators@),
            g.codes() == seq![a, b, c],
    {
        let codes = [a, b, c];
        assert(codes@ =~= seq![a, b, c]);
        PointGroup { generators, codes, system: PhantomData }
    }

    pub fn get_symbol(&self) -> (s: String)
        ensures
            s@ == self.symbol_text(),
    {
        point_group_symbol(self.codes[0], self.codes[1], self.codes[2])
    }

    pub fn generators(&self) -> (r: &[CyclicGroup<U>])
        ensures
            groups_of(r@) == self.groups(),
    {
        self.generators.as_slice()
    }

    /// The operations of the point group: the products of the operations
    /// of its cyclic groups, one from each.
    pub fn generator_combo_matrices(&self) -> (r: Option<Vec<SeitzMatrix>>)
        ensures
            match r {
                Some(v) => Some(ops_of(v@)) == combined(self.groups(), self.groups().len()),
                None => combined(self.groups(), self.groups().len()) is None,
            },
    {
        if self.generators.len() == 0 {
            return None;
        }
        let ghost groups = self.groups();
        let mut all = match self.generators[0].iter() {
            Some(v) => v,
            None => {
                proof {
                    assert(groups[0] == self.generators@[0]@);
                    assert(combined(groups, 1) is None);
                    lemma_combined_stays_none(groups, 1, groups.len());
                }
                return None;
            },
        };
        assert(ops_of(all@) =~= powers_of(groups[0]));
        let mut n: usize = 1;
        while n < self.generators.len()
            invariant
                1 <= n <= self.generators.len(),
                groups == self.groups(),
                groups == groups_of(self.generators@),
                combined(groups, n as nat) == Some(ops_of(all@)),
            decreases self.generators.len() - n,
        {
            let next = match self.generators[n].iter() {
                Some(v) => v,
                None => {
                    proof {
                        lemma_combined_stays_none(groups, (n + 1) as nat, groups.len());
                    }
                    return None;
                },
            };
            assert(ops_of(next@) =~= powers_of(groups[n as int]));
            match all_products(&all, &next) {
                Some(v) => {
                    all = v;
                },
                None => {
                    proof {
                        lemma_combined_stays_none(groups, (n + 1) as nat, groups.len());
                    }
                    return None;
                },
            }
            n = n + 1;
        }
        Some(all)
    }
}

/// Once the products of some of the cyclic groups fail, those of more of
/// them fail as well.
pub proof fn lemma_combined_stays_none(groups: Seq<CyclicGroupView>, n: nat, m: nat)
    requires
        1 <= n <= m,
        combined(groups, n) is None,
    ensures
        combined(groups, m) is None,
    decreases m,
{
    if n < m {
        lemma_combined_stays_none(groups, n, (m - 1) as nat);
    }
}

impl<T: CrystalSystem, U: Basis> PointGroupSymbol<T> for PointGroup<T, U> {
    open spec fn text(&self) -> Seq<char> {
        self.symbol_text()
    }

    fn symbol(&self) -> (s: String) {
        self.get_symbol()
    }
}

} // verus!
