use vstd::prelude::*;

verus! {

/// Reference order of the point operations of the cubic, tetragonal,
/// orthorhombic, monoclinic and triclinic systems.
pub const ORDER_48: [&'static str; 48] = [
    "x,y,z", "-x,-y,z", "z,x,y", "z,-x,-y", "-z,-x,y", "-z,x,-y", "y,z,x", "-y,z,-x", "y,-z,-x",
    "-y,-z,x", "-y,x,z", "y,-x,z", "x,z,-y", "-x,z,y", "y,-x,-z", "-y,x,-z", "-x,y,-z", "x,-y,-z",
    "x,-y,z", "-x,y,z", "y,x,-z", "-y,-x,-z", "-x,-z,-y", "x,-z,y", "z,y,-x", "z,-y,x", "-z,y,x",
    "-z,-y,-x", "-x,-y,-z", "x,y,-z", "-z,-x,-y", "-z,x,y", "z,x,-y", "z,-x,y", "-y,-z,-x",
    "y,-z,x", "-y,z,x", "y,z,-x", "-y,-x,z", "y,x,z", "-x,-z,y", "x,-z,-y", "x,z,y", "-x,z,-y",
    "-z,-y,x", "-z,y,-x", "z,-y,-x", "z,y,x",
];

/// Reference order of the point operations of the hexagonal and trigonal
/// systems, in hexagonal axes.
pub const ORDER_24: [&'static str; 24] = [
    "x,y,z",
    "-y,x-y,z",
    "-x+y,-x,z",
    "-x,-y,z",
    "y,-x+y,z",
    "x-y,x,z",
    "y,x,-z",
    "x-y,-y,-z",
    "-x,-x+y,-z",
    "-y,-x,-z",
    "-x+y,y,-z",
    "x,x-y,-z",
    "-x,-y,-z",
    "y,-x+y,-z",
    "x-y,x,-z",
    "x,y,-z",
    "-y,x-y,-z",
    "-x+y,-x,-z",
    "-y,-x,z",
    "-x+y,y,z",
    "x,x-y,z",
    "y,x,z",
    "x-y,-y,z",
    "-x,-x+y,z",
];

/// Reference order of the point operations of the trigonal system in
/// rhombohedral axes.
pub const ORDER_12: [&'static str; 12] = [
    "x,y,z", "z,x,y", "y,z,x", "-z,-y,-x", "-y,-x,-z", "-x,-z,-y", "-x,-y,-z", "-z,-x,-y",
    "-y,-z,-x", "z,y,x", "y,x,z", "x,z,y",
];

/// The texts of a reference order.
pub open spec fn texts_of(table: Seq<&'static str>) -> Seq<Seq<char>> {
    Seq::new(table.len(), |i: int| table[i]@)
}

} // verus!
