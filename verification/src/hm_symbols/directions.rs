use vstd::prelude::*;
use crate::database::crystal_system::CrystalSystem;

verus! {

/// Marks a type that stands for a symmetry direction.
pub trait Direction {

}

/// Marks a first symmetry direction.
pub trait Primary: Direction {

}

/// Marks a second symmetry direction.
pub trait Secondary: Direction {

}

/// Marks a third symmetry direction.
pub trait Tertiary: Direction {

}

/// The lattice direction `[hkl]`.
#[derive(Debug, Clone, Copy, PartialEq, Eq, Structural, Hash)]
pub struct D {
    pub h: i8,
    pub k: i8,
    pub l: i8,
}

impl Direction for D {

}

/// The direction `[100]`, along the first cell edge.
#[derive(Debug, Clone, Copy)]
pub struct X;

/// The direction `[010]`, along the second cell edge.
#[derive(Debug, Clone, Copy)]
pub struct Y;

/// The direction `[001]`, along the third cell edge.
#[derive(Debug, Clone, Copy)]
pub struct Z;

/// No direction at all, as in the triclinic system.
#[derive(Debug, Clone, Copy)]
pub struct NoDirection;

impl Direction for X {

}

impl Direction for Y {

}

impl Direction for Z {

}

impl Direction for NoDirection {

}

impl Primary for X {

}

impl Primary for Y {

}

impl Primary for Z {

}

impl Primary for NoDirection {

}

impl Secondary for X {

}

impl Secondary for Y {

}

impl Secondary for NoDirection {

}

impl Tertiary for Z {

}

impl Tertiary for NoDirection {

}

impl D {
    /// Whether the direction is one of the symmetry directions that are
    /// tabulated for the crystal system.
    pub open spec fn belongs_to(self, system: CrystalSystem) -> bool {
        let d = (self.h as int, self.k as int, self.l as int);
        if d == (0int, 0int, 0int) {
            system == CrystalSystem::Triclinic
        } else if d == (0int, 1int, 0int) {
            system != CrystalSystem::Triclinic
        } else if d == (0int, 0int, 1int) || d == (1int, 0int, 0int) {
            system != CrystalSystem::Triclinic && system != CrystalSystem::Monoclinic
        } else if d == (1int, 1int, 0int) {
            system == CrystalSystem::Tetragonal || system == CrystalSystem::Cubic
        } else if d == (1int, -1int, 0int) || d == (1int, 2int, 0int) {
            system == CrystalSystem::Hexagonal || system == CrystalSystem::Trigonal
        } else {
            false
        }
    }

    /// Whether the direction can come first in a symbol.
    pub open spec fn can_be_primary(self) -> bool {
        self.h as int + self.k as int + self.l as int <= 1 && self.h >= 0 && self.k >= 0 && self.l
            >= 0
    }

    /// Whether the direction can come second in a symbol.
    pub open spec fn can_be_secondary(self) -> bool {
        (self.h == 0 && self.k == 1 && self.l == 0) || (self.h == 1 && self.k == 0 && self.l == 0)
    }

    /// Whether the direction can come third in a symbol.
    pub open spec fn can_be_tertiary(self) -> bool {
        self.l == 1 && self.h == 0 && self.k == 0 || (self.l == 0 && self.h == 1 && (self.k == 1
            || self.k == -1 || self.k == 2))
    }

    pub fn new(h: i8, k: i8, l: i8) -> (d: D)
        ensures
            d == (D { h, k, l }),
    {
        D { h, k, l }
    }

    /// Whether the direction is one of the symmetry directions that are
    /// tabulated for the crystal system.
    pub fn is_valid_direction(&self, system: CrystalSystem) -> (b: bool)
        ensures
            b == self.belongs_to(system),
    {
        let lower = system != CrystalSystem::Triclinic && system != CrystalSystem::Monoclinic;
        if self.h == 0 && self.k == 0 && self.l == 0 {
            system == CrystalSystem::Triclinic
        } else if self.h == 0 && self.k == 1 && self.l == 0 {
            system != CrystalSystem::Triclinic
        } else if (self.h == 0 && self.k == 0 && self.l == 1) || (self.h == 1 && self.k == 0
            && self.l == 0) {
            lower
        } else if self.h == 1 && self.k == 1 && self.l == 0 {
            system == CrystalSystem::Tetragonal || system == CrystalSystem::Cubic
        } else if self.h == 1 && (self.k == -1 || self.k == 2) && self.l == 0 {
            system == CrystalSystem::Hexagonal || system == CrystalSystem::Trigonal
        } else {
            false
        }
    }

    pub fn is_primary(&self) -> (b: bool)
        ensures
            b == self.can_be_primary(),
    {
        self.h >= 0 && self.k >= 0 && self.l >= 0 && (self.h as i32) + (self.k as i32) + (
        self.l as i32) <= 1
    }

    pub fn is_secondary(&self) -> (b: bool)
        ensures
            b == self.can_be_secondary(),
    {
        (self.h == 0 && self.k == 1 && self.l == 0) || (self.h == 1 && self.k == 0 && self.l == 0)
    }

    pub fn is_tertiary(&self) -> (b: bool)
        ensures
            b == self.can_be_tertiary(),
    {
        (self.l == 1 && self.h == 0 && self.k == 0) || (self.l == 0 && self.h == 1 && (self.k == 1
            || self.k == -1 || self.k == 2))
    }
}

} // verus!
