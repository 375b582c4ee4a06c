use vstd::prelude::*;
use core::cmp::Ordering;
use crate::hall_symbols::matrix_symbol::notations::RotationType;

verus! {

impl RotationType {
    /// The place of a kind of point operation among the ten: the identity
    /// first, then by falling fold, a rotation before the rotoinversion of
    /// its fold, the inversion last.
    pub open spec fn place(self) -> int {
        match self {
            RotationType::E => 0,
            RotationType::N6 => 1,
            RotationType::M6 => 2,
            RotationType::N4 => 3,
            RotationType::M4 => 4,
            RotationType::N3 => 5,
            RotationType::M3 => 6,
            RotationType::N2 => 7,
            RotationType::M => 8,
            RotationType::I => 9,
        }
    }

    /// The place of a kind of point operation among the ten.
    pub fn rank(&self) -> (r: u8)
        ensures
            r == self.place(),
    {
        match self {
            RotationType::E => 0,
            RotationType::N6 => 1,
            RotationType::M6 => 2,
            RotationType::N4 => 3,
            RotationType::M4 => 4,
            RotationType::N3 => 5,
            RotationType::M3 => 6,
            RotationType::N2 => 7,
            RotationType::M => 8,
            RotationType::I => 9,
        }
    }
}

impl PartialOrd for RotationType {
    /// Compares two kinds by their places.  The six-fold rotoinversion is
    /// the one exception: set against the six-fold rotation it counts as
    /// the lesser, as the six-fold rotation does set against it.
    fn partial_cmp(&self, other: &RotationType) -> (r: Option<Ordering>) {
        let a = self.rank();
        let b = other.rank();
        if a == 2 && b == 1 {
            Some(Ordering::Less)
        } else if a < b {
            Some(Ordering::Less)
        } else if a > b {
            Some(Ordering::Greater)
        } else {
            Some(Ordering::Equal)
        }
    }
}

impl vstd::std_specs::cmp::PartialOrdSpecImpl for RotationType {
    open spec fn obeys_partial_cmp_spec() -> bool {
        true
    }

    open spec fn partial_cmp_spec(&self, other: &RotationType) -> Option<Ordering> {
        if *self == RotationType::M6 && *other == RotationType::N6 {
            Some(Ordering::Less)
        } else if self.place() < other.place() {
            Some(Ordering::Less)
        } else if self.place() > other.place() {
            Some(Ordering::Greater)
        } else {
            Some(Ordering::Equal)
        }
    }
}

} // verus!
