use vstd::prelude::*;
use vstd::string::*;
use core::marker::PhantomData;
use crate::crystal_symmetry_directions::DirectionOrder;
use crate::crystal_systems::CrystalSystem;
use crate::point_groups::PointGroupSymbol;
use crate::space_groups::bravais_lattices::BravaisLattice;

pub mod bravais_lattices;

pub use bravais_lattices::SpaceGroupProperties;

verus! {

/// A crystal system, a lattice or a direction that is left open.
#[derive(Debug, Clone, Copy)]
pub struct Undefined;

/// The point group of a builder that has none yet.
#[derive(Debug, Clone, Copy)]
pub struct Empty;

impl CrystalSystem for Undefined {

}

impl BravaisLattice for Undefined {

}

impl DirectionOrder for Undefined {

}

impl<T: CrystalSystem> PointGroupSymbol<T> for Empty {
    open spec fn text(&self) -> Seq<char> {
        ""@
    }

    fn symbol(&self) -> (s: String) {
        String::from_str("")
    }
}

/// Collects the crystal system, the centring and the point group of a
/// space group.
#[derive(Debug)]
pub struct SpaceGroupBuilder<S: CrystalSystem, B: BravaisLattice, P: PointGroupSymbol<S>> {
    point_group: P,
    system: PhantomData<S>,
    bravais: PhantomData<B>,
}

impl<S: CrystalSystem, B: BravaisLattice, P: PointGroupSymbol<S>> SpaceGroupBuilder<S, B, P> {
    /// The sign of the point group that the builder holds.
    pub closed spec fn point_group_text(&self) -> Seq<char> {
        self.point_group.text()
    }

    /// The sign of the point group that the builder holds.
    pub fn point_group_symbol(&self) -> (s: String)
        ensures
            s@ == self.point_group_text(),
    {
        self.point_group.symbol()
    }
}

impl<S: CrystalSystem, B: BravaisLattice> SpaceGroupBuilder<S, B, Empty> {
    /// A builder with no point group yet.
    pub fn new() -> (b: SpaceGroupBuilder<S, B, Empty>)
        ensures
            b.point_group_text() == ""@,
    {
        SpaceGroupBuilder { point_group: Empty, system: PhantomData, bravais: PhantomData }
    }

    /// The builder with the given point group.
    pub fn with_point_group<P: PointGroupSymbol<S>>(self, point_group: P) -> (b: SpaceGroupBuilder<
        S,
        B,
        P,
    >)
        ensures
            b.point_group_text() == point_group.text(),
    {
        SpaceGroupBuilder { point_group, system: PhantomData, bravais: PhantomData }
    }
}

} // verus!
