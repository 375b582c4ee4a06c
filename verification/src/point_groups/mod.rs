use vstd::prelude::*;
use vstd::string::*;
use crate::crystal_systems::CrystalSystem;

pub mod basic_cyclic_groups;
pub mod point_group_symbols;

pub use basic_cyclic_groups::{CyclicGroup, Generators, GroupBuilder, SymmetryGroup};
pub use point_group_symbols::{
    match_lookup, PointGroup, PointGroupBuilder, M, MC, S2M, S4M, S6M,
};

verus! {

/// Something that has the Hermann-Mauguin sign of a point group of the
/// crystal system `T`.
pub trait PointGroupSymbol<T: CrystalSystem> {
    /// The sign of the point group.
    spec fn text(&self) -> Seq<char>;

    fn symbol(&self) -> (s: String)
        ensures
            s@ == self.text(),
    ;
}

} // verus!
