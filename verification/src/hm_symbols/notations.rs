use vstd::prelude::*;
use vstd::string::*;
use core::marker::PhantomData;
use crate::hm_symbols::directions::{Direction, Primary, Secondary, Tertiary};

verus! {

/// The sign of a symmetry element in a Hermann-Mauguin symbol.
pub trait Notation: Default {
    /// The sign as it is written.
    spec fn text() -> Seq<char>;

    fn symbol() -> (s: String)
        ensures
            s@ == Self::text(),
    ;
}

/// No element along a direction.
#[derive(Debug)]
pub struct Nil;

/// A mirror plane.
#[derive(Debug)]
pub struct M;

/// A rotation axis of order `N`.
#[derive(Debug)]
pub struct R<const N: usize>;

/// A rotoinversion axis of order `N`.
#[derive(Debug)]
pub struct RI<const N: usize>;

/// A rotation axis of order `N` with a mirror plane normal to it.
#[derive(Debug)]
pub struct RM<const N: usize>;

/// A glide plane: `a`, `b`, `c`, `n` and `d` for 0 to 4.
#[derive(Debug)]
pub struct Glide<const N: usize>;

pub type GlideA = Glide<0>;

pub type GlideB = Glide<1>;

pub type GlideC = Glide<2>;

pub type GlideN = Glide<3>;

pub type GlideD = Glide<4>;

/// A screw axis of order `N` with the subscript `T`.
#[derive(Debug)]
pub struct Screw<const N: usize, const T: usize>;

impl Default for Nil {
    fn default() -> Nil {
        Nil
    }
}

impl Default for M {
    fn default() -> M {
        M
    }
}

impl<const N: usize> Default for R<N> {
    fn default() -> R<N> {
        R
    }
}

impl<const N: usize> Default for RI<N> {
    fn default() -> RI<N> {
        RI
    }
}

impl<const N: usize> Default for RM<N> {
    fn default() -> RM<N> {
        RM
    }
}

impl<const N: usize> Default for Glide<N> {
    fn default() -> Glide<N> {
        Glide
    }
}

impl<const N: usize, const T: usize> Default for Screw<N, T> {
    fn default() -> Screw<N, T> {
        Screw
    }
}

impl Notation for Nil {
    open spec fn text() -> Seq<char> {
        ""@
    }

    fn symbol() -> (s: String) {
        String::from_str("")
    }
}

impl Nil {
    pub fn new() -> Nil {
        Nil
    }
}

impl Notation for M {
    open spec fn text() -> Seq<char> {
        "m"@
    }

    fn symbol() -> (s: String) {
        String::from_str("m")
    }
}

impl M {
    pub fn new() -> M {
        M
    }
}

impl Notation for R<1> {
    open spec fn text() -> Seq<char> {
        "1"@
    }

    fn symbol() -> (s: String) {
        String::from_str("1")
    }
}

impl R<1> {
    pub fn new() -> R<1> {
        R
    }
}

impl Notation for R<2> {
    open spec fn text() -> Seq<char> {
        "2"@
    }

    fn symbol() -> (s: String) {
        String::from_str("2")
    }
}

impl R<2> {
    pub fn new() -> R<2> {
        R
    }
}

impl Notation for R<3> {
    open spec fn text() -> Seq<char> {
        "3"@
    }

    fn symbol() -> (s: String) {
        String::from_str("3")
    }
}

impl R<3> {
    pub fn new() -> R<3> {
        R
    }
}

impl Notation for R<4> {
    open spec fn text() -> Seq<char> {
        "4"@
    }

    fn symbol() -> (s: String) {
        String::from_str("4")
    }
}

impl R<4> {
    pub fn new() -> R<4> {
        R
    }
}

impl Notation for R<6> {
    open spec fn text() -> Seq<char> {
        "6"@
    }

    fn symbol() -> (s: String) {
        String::from_str("6")
    }
}

impl R<6> {
    pub fn new() -> R<6> {
        R
    }
}

impl Notation for RI<1> {
    open spec fn text() -> Seq<char> {
        "-1"@
    }

    fn symbol() -> (s: String) {
        String::from_str("-1")
    }
}

impl RI<1> {
    pub fn new() -> RI<1> {
        RI
    }
}

impl Notation for RI<3> {
    open spec fn text() -> Seq<char> {
        "-3"@
    }

    fn symbol() -> (s: String) {
        String::from_str("-3")
    }
}

impl RI<3> {
    pub fn new() -> RI<3> {
        RI
    }
}

impl Notation for RI<4> {
    open spec fn text() -> Seq<char> {
        "-4"@
    }

    fn symbol() -> (s: String) {
        String::from_str("-4")
    }
}

impl RI<4> {
    pub fn new() -> RI<4> {
        RI
    }
}

impl Notation for RI<6> {
    open spec fn text() -> Seq<char> {
        "-6"@
    }

    fn symbol() -> (s: String) {
        String::from_str("-6")
    }
}

impl RI<6> {
    pub fn new() -> RI<6> {
        RI
    }
}

impl Notation for RM<2> {
    open spec fn text() -> Seq<char> {
        "2/m"@
    }

    fn symbol() -> (s: String) {
        String::from_str("2/m")
    }
}

impl RM<2> {
    pub fn new() -> RM<2> {
        RM
    }
}

impl Notation for RM<3> {
    open spec fn text() -> Seq<char> {
        "3/m"@
    }

    fn symbol() -> (s: String) {
        String::from_str("3/m")
    }
}

impl RM<3> {
    pub fn new() -> RM<3> {
        RM
    }
}

impl Notation for RM<4> {
    open spec fn text() -> Seq<char> {
        "4/m"@
    }

    fn symbol() -> (s: String) {
        String::from_str("4/m")
    }
}

impl RM<4> {
    pub fn new() -> RM<4> {
        RM
    }
}

impl Notation for RM<6> {
    open spec fn text() -> Seq<char> {
        "6/m"@
    }

    fn symbol() -> (s: String) {
        String::from_str("6/m")
    }
}

impl RM<6> {
    pub fn new() -> RM<6> {
        RM
    }
}

impl Notation for Glide<0> {
    open spec fn text() -> Seq<char> {
        "a"@
    }

    fn symbol() -> (s: String) {
        String::from_str("a")
    }
}

impl Glide<0> {
    pub fn new() -> Glide<0> {
        Glide
    }
}

impl Notation for Glide<1> {
    open spec fn text() -> Seq<char> {
        "b"@
    }

    fn symbol() -> (s: String) {
        String::from_str("b")
    }
}

impl Glide<1> {
    pub fn new() -> Glide<1> {
        Glide
    }
}

impl Notation for Glide<2> {
    open spec fn text() -> Seq<char> {
        "c"@
    }

    fn symbol() -> (s: String) {
        String::from_str("c")
    }
}

impl Glide<2> {
    pub fn new() -> Glide<2> {
        Glide
    }
}

impl Notation for Glide<3> {
    open spec fn text() -> Seq<char> {
        "n"@
    }

    fn symbol() -> (s: String) {
        String::from_str("n")
    }
}

impl Glide<3> {
    pub fn new() -> Glide<3> {
        Glide
    }
}

impl Notation for Glide<4> {
    open spec fn text() -> Seq<char> {
        "d"@
    }

    fn symbol() -> (s: String) {
        String::from_str("d")
    }
}

impl Glide<4> {
    pub fn new() -> Glide<4> {
        Glide
    }
}

impl Notation for Screw<2, 1> {
    open spec fn text() -> Seq<char> {
        "2_1"@
    }

    fn symbol() -> (s: String) {
        String::from_str("2_1")
    }
}

impl Screw<2, 1> {
    pub fn new() -> Screw<2, 1> {
        Screw
    }
}

impl Notation for Screw<3, 1> {
    open spec fn text() -> Seq<char> {
        "3_1"@
    }

    fn symbol() -> (s: String) {
        String::from_str("3_1")
    }
}

impl Screw<3, 1> {
    pub fn new() -> Screw<3, 1> {
        Screw
    }
}

impl Notation for Screw<3, 2> {
    open spec fn text() -> Seq<char> {
        "3_2"@
    }

    fn symbol() -> (s: String) {
        String::from_str("3_2")
    }
}

impl Screw<3, 2> {
    pub fn new() -> Screw<3, 2> {
        Screw
    }
}

impl Notation for Screw<4, 1> {
    open spec fn text() -> Seq<char> {
        "4_1"@
    }

    fn symbol() -> (s: String) {
        String::from_str("4_1")
    }
}

impl Screw<4, 1> {
    pub fn new() -> Screw<4, 1> {
        Screw
    }
}

impl Notation for Screw<4, 2> {
    open spec fn text() -> Seq<char> {
        "4_2"@
    }

    fn symbol() -> (s: String) {
        String::from_str("4_2")
    }
}

impl Screw<4, 2> {
    pub fn new() -> Screw<4, 2> {
        Screw
    }
}

impl Notation for Screw<4, 3> {
    open spec fn text() -> Seq<char> {
        "4_3"@
    }

    fn symbol() -> (s: String) {
        String::from_str("4_3")
    }
}

impl Screw<4, 3> {
    pub fn new() -> Screw<4, 3> {
        Screw
    }
}

impl Notation for Screw<6, 1> {
    open spec fn text() -> Seq<char> {
        "6_1"@
    }

    fn symbol() -> (s: String) {
        String::from_str("6_1")
    }
}

impl Screw<6, 1> {
    pub fn new() -> Screw<6, 1> {
        Screw
    }
}

impl Notation for Screw<6, 2> {
    open spec fn text() -> Seq<char> {
        "6_2"@
    }

    fn symbol() -> (s: String) {
        String::from_str("6_2")
    }
}

impl Screw<6, 2> {
    pub fn new() -> Screw<6, 2> {
        Screw
    }
}

impl Notation for Screw<6, 3> {
    open spec fn text() -> Seq<char> {
        "6_3"@
    }

    fn symbol() -> (s: String) {
        String::from_str("6_3")
    }
}

impl Screw<6, 3> {
    pub fn new() -> Screw<6, 3> {
        Screw
    }
}

impl Notation for Screw<6, 4> {
    open spec fn text() -> Seq<char> {
        "6_4"@
    }

    fn symbol() -> (s: String) {
        String::from_str("6_4")
    }
}

impl Screw<6, 4> {
    pub fn new() -> Screw<6, 4> {
        Screw
    }
}

impl Notation for Screw<6, 5> {
    open spec fn text() -> Seq<char> {
        "6_5"@
    }

    fn symbol() -> (s: String) {
        String::from_str("6_5")
    }
}

impl Screw<6, 5> {
    pub fn new() -> Screw<6, 5> {
        Screw
    }
}

/// A symmetry element along a direction.
#[derive(Debug)]
pub struct HMElement<T: Notation, D: Direction>(T, PhantomData<D>);

impl<T: Notation, D: Direction> Default for HMElement<T, D> {
    fn default() -> HMElement<T, D> {
        HMElement(T::default(), PhantomData)
    }
}

impl<T: Notation, D: Direction> Notation for HMElement<T, D> {
    open spec fn text() -> Seq<char> {
        T::text()
    }

    fn symbol() -> (s: String) {
        T::symbol()
    }
}

impl<T: Notation, D: Direction> HMElement<T, D> {
    pub fn new() -> (e: HMElement<T, D>)
        ensures
            call_ensures(T::default, (), e.sign()),
    {
        HMElement(T::default(), PhantomData)
    }

    /// The sign of the element.
    pub fn to_string(&self) -> (s: String)
        ensures
            s@ == T::text(),
    {
        T::symbol()
    }

    /// The sign that the element holds: the default sign of its kind for
    /// an element that `new` made.
    pub closed spec fn sign(&self) -> T {
        self.0
    }
}

/// A Hermann-Mauguin symbol: the elements along the first, the second
/// and the third symmetry direction.
pub struct HMSymbol<T, U, V, D1, D2, D3>(
    HMElement<T, D1>,
    HMElement<U, D2>,
    HMElement<V, D3>,
) where T: Notation, U: Notation, V: Notation, D1: Primary, D2: Secondary, D3: Tertiary;

impl<T, U, V, D1, D2, D3> HMSymbol<T, U, V, D1, D2, D3> where
    T: Notation,
    U: Notation,
    V: Notation,
    D1: Primary,
    D2: Secondary,
    D3: Tertiary,
 {
    pub fn new() -> (s: HMSymbol<T, U, V, D1, D2, D3>)
        ensures
            call_ensures(T::default, (), s.primary().sign()),
            call_ensures(U::default, (), s.secondary().sign()),
            call_ensures(V::default, (), s.tertiary().sign()),
    {
        HMSymbol(HMElement::<T, D1>::new(), HMElement::<U, D2>::new(), HMElement::<V, D3>::new())
    }

    /// The three signs one after the other.
    pub fn to_string(&self) -> (s: String)
        ensures
            s@ == T::text() + U::text() + V::text(),
    {
        let mut s = T::symbol();
        s.append(U::symbol().as_str());
        s.append(V::symbol().as_str());
        s
    }

    /// The element along the first symmetry direction.
    pub closed spec fn primary(&self) -> HMElement<T, D1> {
        self.0
    }

    /// The element along the second symmetry direction.
    pub closed spec fn secondary(&self) -> HMElement<U, D2> {
        self.1
    }

    /// The element along the third symmetry direction.
    pub closed spec fn tertiary(&self) -> HMElement<V, D3> {
        self.2
    }
}

} // verus!
