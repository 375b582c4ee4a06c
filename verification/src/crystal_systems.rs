use vstd::prelude::*;

verus! {

/// Marks a type that stands for one of the seven crystal systems.
pub trait CrystalSystem: Clone {

}

/// Marks a type that stands for a choice of coordinate axes.
pub trait Basis: Clone {

}

/// Axes along the cell edges of a cell with right or free angles.
#[derive(Debug, Clone, Copy)]
pub struct Standard;

impl Basis for Standard {

}

/// Hexagonal axes: `a` and `b` at 120 degrees, `c` normal to both.
#[derive(Debug, Clone, Copy)]
pub struct HexBasis;

impl Basis for HexBasis {

}

#[derive(Debug, Clone, Copy)]
pub struct Triclinic;

#[derive(Debug, Clone, Copy)]
pub struct Monoclinic;

#[derive(Debug, Clone, Copy)]
pub struct Orthorhombic;

#[derive(Debug, Clone, Copy)]
pub struct Tetragonal;

#[derive(Debug, Clone, Copy)]
pub struct Hexagonal;

#[derive(Debug, Clone, Copy)]
pub struct Trigonal;

#[derive(Debug, Clone, Copy)]
pub struct Cubic;

impl CrystalSystem for Triclinic {

}

impl CrystalSystem for Monoclinic {

}

impl CrystalSystem for Orthorhombic {

}

impl CrystalSystem for Tetragonal {

}

impl CrystalSystem for Hexagonal {

}

impl CrystalSystem for Trigonal {

}

impl CrystalSystem for Cubic {

}

} // verus!
