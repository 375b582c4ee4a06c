use vstd::prelude::*;
use core::marker::PhantomData;
use crate::crystal_systems::{Basis, Standard};

verus! {

/// Marks a kind of axis.
pub trait Axis {

}

/// Marks a kind of axis other than the null direction `[000]`.
pub trait RealAxis: Axis + Copy {

}

/// Marks a place among the symmetry directions of a crystal system.
pub trait DirectionOrder {

}

pub trait Primary: DirectionOrder {

}

pub trait Secondary: DirectionOrder {

}

pub trait Tertiary: DirectionOrder {

}

/// The null direction, of the identity and the inversion.
#[derive(Debug, Clone, Copy)]
pub struct Universal;

impl Axis for Universal {

}

/// A direction along a cell edge.
#[derive(Debug, Clone, Copy)]
pub struct Principal;

impl Axis for Principal {

}

impl RealAxis for Principal {

}

/// A diagonal of a cell face, such as `[110]`.
#[derive(Debug, Clone, Copy)]
pub struct FaceDiagonal;

impl Axis for FaceDiagonal {

}

impl RealAxis for FaceDiagonal {

}

/// The body diagonal `[111]`.
#[derive(Debug, Clone, Copy)]
pub struct BodyDiagonal;

impl Axis for BodyDiagonal {

}

impl RealAxis for BodyDiagonal {

}

/// A direction `[hkl]` in a coordinate system `T`, of the kind `U`.
#[derive(Debug)]
pub struct D<T: Basis, U: Axis> {
    hkl: [i8; 3],
    basis: PhantomData<T>,
    axis_type: PhantomData<U>,
}

impl<T: Basis, U: Axis> Clone for D<T, U> {
    fn clone(&self) -> (d: D<T, U>)
        ensures
            d.indices() == self.indices(),
    {
        D { hkl: self.hkl, basis: PhantomData, axis_type: PhantomData }
    }
}

impl<T: Basis, U: Axis> D<T, U> {
    /// The indices of the direction.
    pub closed spec fn indices(&self) -> Seq<i8> {
        self.hkl@
    }

    /// The direction with the given indices.
    pub fn new(h: i8, k: i8, l: i8) -> (d: D<T, U>)
        ensures
            d.indices() == seq![h, k, l],
    {
        let hkl = [h, k, l];
        assert(hkl@ =~= seq![h, k, l]);
        D { hkl, basis: PhantomData, axis_type: PhantomData }
    }

    /// The indices `[h, k, l]` of the direction.
    pub fn hkl(&self) -> (r: [i8; 3])
        ensures
            r@ == self.indices(),
    {
        self.hkl
    }
}

/// Makes the directions that crystallographic groups use, and no others.
pub struct DirectionBuilder<U: Basis>(PhantomData<U>);

impl<U: Basis> DirectionBuilder<U> {
    pub fn new() -> DirectionBuilder<U> {
        DirectionBuilder(PhantomData)
    }

    /// The null direction `[000]`.
    pub fn zero(&self) -> (d: D<U, Universal>)
        ensures
            d.indices() == seq![0i8, 0i8, 0i8],
    {
        D::new(0, 0, 0)
    }

    /// `[100]`
    pub fn a(&self) -> (d: D<U, Principal>)
        ensures
            d.indices() == seq![1i8, 0i8, 0i8],
    {
        D::new(1, 0, 0)
    }

    /// `[010]`
    pub fn b(&self) -> (d: D<U, Principal>)
        ensures
            d.indices() == seq![0i8, 1i8, 0i8],
    {
        D::new(0, 1, 0)
    }

    /// `[001]`
    pub fn c(&self) -> (d: D<U, Principal>)
        ensures
            d.indices() == seq![0i8, 0i8, 1i8],
    {
        D::new(0, 0, 1)
    }

    /// `[110]`
    pub fn ab(&self) -> (d: D<U, FaceDiagonal>)
        ensures
            d.indices() == seq![1i8, 1i8, 0i8],
    {
        D::new(1, 1, 0)
    }

    /// `[1-10]`
    pub fn a_b(&self) -> (d: D<U, FaceDiagonal>)
        ensures
            d.indices() == seq![1i8, -1i8, 0i8],
    {
        D::new(1, -1, 0)
    }
}

impl DirectionBuilder<Standard> {
    /// `[111]`, a direction of axes with right angles only.
    pub fn abc(&self) -> (d: D<Standard, BodyDiagonal>)
        ensures
            d.indices() == seq![1i8, 1i8, 1i8],
    {
        D::new(1, 1, 1)
    }
}

} // verus!
