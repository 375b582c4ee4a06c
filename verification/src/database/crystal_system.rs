use vstd::prelude::*;
use vstd::string::*;

verus! {

/// The seven crystal systems.
#[derive(Debug, Clone, Copy, PartialEq, Eq, Structural, PartialOrd, Ord, Hash)]
pub enum CrystalSystem {
    Triclinic,
    Monoclinic,
    Orthorhombic,
    Tetragonal,
    Trigonal,
    Hexagonal,
    Cubic,
}

impl Default for CrystalSystem {
    fn default() -> (r: CrystalSystem)
        ensures
            r == CrystalSystem::Triclinic,
    {
        CrystalSystem::Triclinic
    }
}

impl CrystalSystem {
    /// The name of the system, in lower case.
    pub open spec fn text(self) -> Seq<char> {
        match self {
            CrystalSystem::Triclinic => "triclinic"@,
            CrystalSystem::Monoclinic => "monoclinic"@,
            CrystalSystem::Orthorhombic => "orthorhombic"@,
            CrystalSystem::Tetragonal => "tetragonal"@,
            CrystalSystem::Trigonal => "trigonal"@,
            CrystalSystem::Hexagonal => "hexagonal"@,
            CrystalSystem::Cubic => "cubic"@,
        }
    }

    pub fn to_string(&self) -> (s: String)
        ensures
            s@ == self.text(),
    {
        match self {
            CrystalSystem::Triclinic => String::from_str("triclinic"),
            CrystalSystem::Monoclinic => String::from_str("monoclinic"),
            CrystalSystem::Orthorhombic => String::from_str("orthorhombic"),
            CrystalSystem::Tetragonal => String::from_str("tetragonal"),
            CrystalSystem::Trigonal => String::from_str("trigonal"),
            CrystalSystem::Hexagonal => String::from_str("hexagonal"),
            CrystalSystem::Cubic => String::from_str("cubic"),
        }
    }
}

} // verus!
