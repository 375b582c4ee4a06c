use vstd::prelude::*;
use vstd::string::*;
use crate::hall_symbols::lattice_symbol::{vec3, views_of};
use crate::hall_symbols::translation_symbol::{IntVector, Vector3};

verus! {

/// Marks a centring type.
pub trait BravaisLattice {

}

/// Marks a centring type that the monoclinic system has.
pub trait MonoclinicLattice: BravaisLattice {

}

/// Marks a centring type that the orthorhombic system has.
pub trait OrthorhombicLattice: BravaisLattice {

}

/// Marks a centring type that the tetragonal system has.
pub trait TetragonalLattice: BravaisLattice {

}

/// Marks a centring type that the trigonal system has.
pub trait TrigonalLattice: BravaisLattice {

}

/// Marks a centring type that the hexagonal system has.
pub trait HexagonalLattice: BravaisLattice {

}

/// Marks a centring type that the cubic system has.
pub trait CubicLattice: BravaisLattice {

}

/// What a centring type says of its cell.
pub trait SpaceGroupProperties {
    type Item;

    /// The letter of the centring.
    spec fn letter() -> Seq<char>;

    /// The lattice points of one cell, in twelfths of its edges.
    spec fn points() -> Seq<IntVector>;

    fn new() -> Self::Item;

    /// How many lattice points one cell holds.
    fn points_per_lattice(&self) -> (n: u32)
        ensures
            n == Self::points().len(),
    ;

    /// The lattice points of one cell, in twelfths of its edges.
    fn lattice_coordinates(&self) -> (v: Vec<Vector3>)
        ensures
            views_of(v@) == Self::points(),
    ;

    /// The letter of the centring.
    fn symbol(&self) -> (s: String)
        ensures
            s@ == Self::letter(),
    ;
}

/// Primitive.
pub struct P;

/// Centred on the faces normal to `a`.
pub struct A;

/// Centred on the faces normal to `b`.
pub struct B;

/// Centred on the faces normal to `c`.
pub struct C;

/// Body-centred.
pub struct I;

/// Centred on all faces.
pub struct F;

/// Rhombohedral, in hexagonal axes.
pub struct R;

/// Hexagonal, centred at one and two thirds of the long diagonal.
pub struct H;

impl BravaisLattice for P {

}

impl BravaisLattice for A {

}

impl BravaisLattice for B {

}

impl BravaisLattice for C {

}

impl BravaisLattice for I {

}

impl BravaisLattice for F {

}

impl BravaisLattice for R {

}

impl BravaisLattice for H {

}

impl MonoclinicLattice for P {

}

impl OrthorhombicLattice for P {

}

impl TetragonalLattice for P {

}

impl TrigonalLattice for P {

}

impl HexagonalLattice for P {

}

impl CubicLattice for P {

}

impl OrthorhombicLattice for A {

}

impl MonoclinicLattice for C {

}

impl OrthorhombicLattice for C {

}

impl OrthorhombicLattice for I {

}

impl TetragonalLattice for I {

}

impl CubicLattice for I {

}

impl OrthorhombicLattice for F {

}

impl CubicLattice for F {

}

impl TrigonalLattice for R {

}

impl SpaceGroupProperties for P {
    type Item = P;

    open spec fn letter() -> Seq<char> {
        "P"@
    }

    open spec fn points() -> Seq<IntVector> {
        seq![vec3(0, 0, 0)]
    }

    fn new() -> P {
        P
    }

    fn points_per_lattice(&self) -> (n: u32) {
        1
    }

    fn lattice_coordinates(&self) -> (v: Vec<Vector3>) {
        let mut v: Vec<Vector3> = Vec::new();
        v.push(Vector3::new(0, 0, 0));
        assert(views_of(v@) =~= Self::points());
        v
    }

    fn symbol(&self) -> (s: String) {
        String::from_str("P")
    }
}

impl SpaceGroupProperties for A {
    type Item = A;

    open spec fn letter() -> Seq<char> {
        "A"@
    }

    open spec fn points() -> Seq<IntVector> {
        seq![vec3(0, 0, 0), vec3(0, 6, 6)]
    }

    fn new() -> A {
        A
    }

    fn points_per_lattice(&self) -> (n: u32) {
        2
    }

    fn lattice_coordinates(&self) -> (v: Vec<Vector3>) {
        let mut v: Vec<Vector3> = Vec::new();
        v.push(Vector3::new(0, 0, 0));
        v.push(Vector3::new(0, 6, 6));
        assert(views_of(v@) =~= Self::points());
        v
    }

    fn symbol(&self) -> (s: String) {
        String::from_str("A")
    }
}

impl SpaceGroupProperties for B {
    type Item = B;

    open spec fn letter() -> Seq<char> {
        "B"@
    }

    open spec fn points() -> Seq<IntVector> {
        seq![vec3(0, 0, 0), vec3(6, 0, 6)]
    }

    fn new() -> B {
        B
    }

    fn points_per_lattice(&self) -> (n: u32) {
        2
    }

    fn lattice_coordinates(&self) -> (v: Vec<Vector3>) {
        let mut v: Vec<Vector3> = Vec::new();
        v.push(Vector3::new(0, 0, 0));
        v.push(Vector3::new(6, 0, 6));
        assert(views_of(v@) =~= Self::points());
        v
    }

    fn symbol(&self) -> (s: String) {
        String::from_str("B")
    }
}

impl SpaceGroupProperties for C {
    type Item = C;

    open spec fn letter() -> Seq<char> {
        "C"@
    }

    open spec fn points() -> Seq<IntVector> {
        seq![vec3(0, 0, 0), vec3(6, 6, 0)]
    }

    fn new() -> C {
        C
    }

    fn points_per_lattice(&self) -> (n: u32) {
        2
    }

    fn lattice_coordinates(&self) -> (v: Vec<Vector3>) {
        let mut v: Vec<Vector3> = Vec::new();
        v.push(Vector3::new(0, 0, 0));
        v.push(Vector3::new(6, 6, 0));
        assert(views_of(v@) =~= Self::points());
        v
    }

    fn symbol(&self) -> (s: String) {
        String::from_str("C")
    }
}

impl SpaceGroupProperties for I {
    type Item = I;

    open spec fn letter() -> Seq<char> {
        "I"@
    }

    open spec fn points() -> Seq<IntVector> {
        seq![vec3(0, 0, 0), vec3(6, 6, 6)]
    }

    fn new() -> I {
        I
    }

    fn points_per_lattice(&self) -> (n: u32) {
        2
    }

    fn lattice_coordinates(&self) -> (v: Vec<Vector3>) {
        let mut v: Vec<Vector3> = Vec::new();
        v.push(Vector3::new(0, 0, 0));
        v.push(Vector3::new(6, 6, 6));
        assert(views_of(v@) =~= Self::points());
        v
    }

    fn symbol(&self) -> (s: String) {
        String::from_str("I")
    }
}

impl SpaceGroupProperties for F {
    type Item = F;

    open spec fn letter() -> Seq<char> {
        "F"@
    }

    open spec fn points() -> Seq<IntVector> {
        seq![vec3(0, 0, 0), vec3(6, 6, 0), vec3(6, 0, 6), vec3(0, 6, 6)]
    }

    fn new() -> F {
        F
    }

    fn points_per_lattice(&self) -> (n: u32) {
        4
    }

    fn lattice_coordinates(&self) -> (v: Vec<Vector3>) {
        let mut v: Vec<Vector3> = Vec::new();
        v.push(Vector3::new(0, 0, 0));
        v.push(Vector3::new(6, 6, 0));
        v.push(Vector3::new(6, 0, 6));
        v.push(Vector3::new(0, 6, 6));
        assert(views_of(v@) =~= Self::points());
        v
    }

    fn symbol(&self) -> (s: String) {
        String::from_str("F")
    }
}

impl SpaceGroupProperties for R {
    type Item = R;

    open spec fn letter() -> Seq<char> {
        "R"@
    }

    open spec fn points() -> Seq<IntVector> {
        seq![vec3(0, 0, 0), vec3(8, 4, 4), vec3(4, 8, 8)]
    }

    fn new() -> R {
        R
    }

    fn points_per_lattice(&self) -> (n: u32) {
        3
    }

    fn lattice_coordinates(&self) -> (v: Vec<Vector3>) {
        let mut v: Vec<Vector3> = Vec::new();
        v.push(Vector3::new(0, 0, 0));
        v.push(Vector3::new(8, 4, 4));
        v.push(Vector3::new(4, 8, 8));
        assert(views_of(v@) =~= Self::points());
        v
    }

    fn symbol(&self) -> (s: String) {
        String::from_str("R")
    }
}

impl SpaceGroupProperties for H {
    type Item = H;

    open spec fn letter() -> Seq<char> {
        "H"@
    }

    open spec fn points() -> Seq<IntVector> {
        seq![vec3(0, 0, 0), vec3(8, 4, 0), vec3(4, 8, 0)]
    }

    fn new() -> H {
        H
    }

    fn points_per_lattice(&self) -> (n: u32) {
        3
    }

    fn lattice_coordinates(&self) -> (v: Vec<Vector3>) {
        let mut v: Vec<Vector3> = Vec::new();
        v.push(Vector3::new(0, 0, 0));
        v.push(Vector3::new(8, 4, 0));
        v.push(Vector3::new(4, 8, 0));
        assert(views_of(v@) =~= Self::points());
        v
    }

    fn symbol(&self) -> (s: String) {
        String::from_str("H")
    }
}

} // verus!
