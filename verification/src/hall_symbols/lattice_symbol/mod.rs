use vstd::prelude::*;
use vstd::string::*;
use crate::hall_symbols::matrix_symbol::matrices::{AffineOp, Matrix3, SeitzMatrix};
use crate::hall_symbols::translation_symbol::{IntVector, Vector3};

pub mod parser;

verus! {

/// A centring type that knows its lattice translations at compile time.
pub trait LatticeSymbolChar {
    type Output;

    fn translations() -> Self::Output;
}

/// The lattice part of a Hall symbol: the centring letter, and the minus
/// sign that says the group is centrosymmetric.
#[derive(Debug, Clone, Copy, PartialEq, Eq, Structural, PartialOrd, Ord, Hash)]
pub struct LatticeSymbol {
    pub minus_sign: bool,
    pub char: Lattices,
}

/// The seven centring types.
#[derive(Debug, Clone, Copy, PartialEq, Eq, Structural, PartialOrd, Ord, Hash)]
pub enum Lattices {
    P,
    A,
    B,
    C,
    I,
    R,
    F,
}

/// The vector with the given components.
pub open spec fn vec3(x: int, y: int, z: int) -> IntVector {
    IntVector { x, y, z }
}

impl Lattices {
    /// The lattice translations of the centring, in twelfths of a cell
    /// edge; the first one is always zero.
    pub open spec fn vectors(self) -> Seq<IntVector> {
        match self {
            Lattices::P => seq![vec3(0, 0, 0)],
            Lattices::A => seq![vec3(0, 0, 0), vec3(0, 6, 6)],
            Lattices::B => seq![vec3(0, 0, 0), vec3(6, 0, 6)],
            Lattices::C => seq![vec3(0, 0, 0), vec3(6, 6, 0)],
            Lattices::I => seq![vec3(0, 0, 0), vec3(6, 6, 6)],
            Lattices::R => seq![vec3(0, 0, 0), vec3(8, 4, 4), vec3(4, 8, 8)],
            Lattices::F => seq![vec3(0, 0, 0), vec3(0, 6, 6), vec3(6, 0, 6), vec3(6, 6, 0)],
        }
    }

    /// The letter of the centring.
    pub open spec fn letter(self) -> char {
        match self {
            Lattices::P => 'P',
            Lattices::A => 'A',
            Lattices::B => 'B',
            Lattices::C => 'C',
            Lattices::I => 'I',
            Lattices::R => 'R',
            Lattices::F => 'F',
        }
    }

    /// The centring that a letter names.
    pub open spec fn of_letter(c: char) -> Option<Lattices> {
        if c == 'P' {
            Some(Lattices::P)
        } else if c == 'A' {
            Some(Lattices::A)
        } else if c == 'B' {
            Some(Lattices::B)
        } else if c == 'C' {
            Some(Lattices::C)
        } else if c == 'I' {
            Some(Lattices::I)
        } else if c == 'R' {
            Some(Lattices::R)
        } else if c == 'F' {
            Some(Lattices::F)
        } else {
            None
        }
    }

    pub fn get_translations(&self) -> (v: Vec<Vector3>)
        ensures
            views_of(v@) == self.vectors(),
    {
        let mut v: Vec<Vector3> = Vec::new();
        match self {
            Lattices::P => {
                let a = P::translations();
                v.push(a[0]);
            },
            Lattices::A => {
                let a = A::translations();
                v.push(a[0]);
                v.push(a[1]);
            },
            Lattices::B => {
                let a = B::translations();
                v.push(a[0]);
                v.push(a[1]);
            },
            Lattices::C => {
                let a = C::translations();
                v.push(a[0]);
                v.push(a[1]);
            },
            Lattices::I => {
                let a = I::translations();
                v.push(a[0]);
                v.push(a[1]);
            },
            Lattices::R => {
                let a = R::translations();
                v.push(a[0]);
                v.push(a[1]);
                v.push(a[2]);
            },
            Lattices::F => {
                let a = F::translations();
                v.push(a[0]);
                v.push(a[1]);
                v.push(a[2]);
                v.push(a[3]);
            },
        }
        assert(views_of(v@) =~= self.vectors());
        v
    }
}

/// The mathematical content of a list of vectors.
pub open spec fn views_of(v: Seq<Vector3>) -> Seq<IntVector> {
    Seq::new(v.len(), |i: int| v[i]@)
}

/// Primitive lattice.
#[derive(Debug, Clone, Copy)]
pub struct P;

/// Centred on the faces normal to `a`.
#[derive(Debug, Clone, Copy)]
pub struct A;

/// Centred on the faces normal to `b`.
#[derive(Debug, Clone, Copy)]
pub struct B;

/// Centred on the faces normal to `c`.
#[derive(Debug, Clone, Copy)]
pub struct C;

/// Body-centred lattice.
#[derive(Debug, Clone, Copy)]
pub struct I;

/// Rhombohedrally centred lattice, in hexagonal axes.
#[derive(Debug, Clone, Copy)]
pub struct R;

/// Centred on all faces.
#[derive(Debug, Clone, Copy)]
pub struct F;

impl LatticeSymbolChar for P {
    type Output = [Vector3; 1];

    fn translations() -> (r: [Vector3; 1])
        ensures
            views_of(r@) == Lattices::P.vectors(),
    {
        let r = [Vector3::new(0, 0, 0)];
        assert(views_of(r@) =~= Lattices::P.vectors());
        r
    }
}

impl LatticeSymbolChar for A {
    type Output = [Vector3; 2];

    fn translations() -> (r: [Vector3; 2])
        ensures
            views_of(r@) == Lattices::A.vectors(),
    {
        let r = [Vector3::new(0, 0, 0), Vector3::new(0, 6, 6)];
        assert(views_of(r@) =~= Lattices::A.vectors());
        r
    }
}

impl LatticeSymbolChar for B {
    type Output = [Vector3; 2];

    fn translations() -> (r: [Vector3; 2])
        ensures
            views_of(r@) == Lattices::B.vectors(),
    {
        let r = [Vector3::new(0, 0, 0), Vector3::new(6, 0, 6)];
        assert(views_of(r@) =~= Lattices::B.vectors());
        r
    }
}

impl LatticeSymbolChar for C {
    type Output = [Vector3; 2];

    fn translations() -> (r: [Vector3; 2])
        ensures
            views_of(r@) == Lattices::C.vectors(),
    {
        let r = [Vector3::new(0, 0, 0), Vector3::new(6, 6, 0)];
        assert(views_of(r@) =~= Lattices::C.vectors());
        r
    }
}

impl LatticeSymbolChar for I {
    type Output = [Vector3; 2];

    fn translations() -> (r: [Vector3; 2])
        ensures
            views_of(r@) == Lattices::I.vectors(),
    {
        let r = [Vector3::new(0, 0, 0), Vector3::new(6, 6, 6)];
        assert(views_of(r@) =~= Lattices::I.vectors());
        r
    }
}

impl LatticeSymbolChar for R {
    type Output = [Vector3; 3];

    fn translations() -> (r: [Vector3; 3])
        ensures
            views_of(r@) == Lattices::R.vectors(),
    {
        let r = [Vector3::new(0, 0, 0), Vector3::new(8, 4, 4), Vector3::new(4, 8, 8)];
        assert(views_of(r@) =~= Lattices::R.vectors());
        r
    }
}

impl LatticeSymbolChar for F {
    type Output = [Vector3; 4];

    fn translations() -> (r: [Vector3; 4])
        ensures
            views_of(r@) == Lattices::F.vectors(),
    {
        let r = [
            Vector3::new(0, 0, 0),
            Vector3::new(0, 6, 6),
            Vector3::new(6, 0, 6),
            Vector3::new(6, 6, 0),
        ];
        assert(views_of(r@) =~= Lattices::F.vectors());
        r
    }
}

impl LatticeSymbol {
    /// The operations that the lattice symbol brings into the group: the
    /// pure translations by the lattice vectors of the centring, and after
    /// them the inversion through the origin where the symbol bears a
    /// minus sign.
    pub open spec fn operations(self) -> Seq<AffineOp> {
        let translations = Seq::new(
            self.char.vectors().len(),
            |i: int| AffineOp::translation(self.char.vectors()[i]),
        );
        if self.minus_sign {
            translations.push(AffineOp::inversion())
        } else {
            translations
        }
    }

    /// The text of the lattice symbol: the sign, if any, and the letter.
    pub open spec fn text(self) -> Seq<char> {
        if self.minus_sign {
            seq!['-', self.char.letter()]
        } else {
            seq![self.char.letter()]
        }
    }

    pub fn new(minus_sign: bool, char: Lattices) -> (s: LatticeSymbol)
        ensures
            s == (LatticeSymbol { minus_sign, char }),
    {
        LatticeSymbol { minus_sign, char }
    }

    pub fn get_translations(&self) -> (v: Vec<Vector3>)
        ensures
            views_of(v@) == self.char.vectors(),
    {
        self.char.get_translations()
    }

    pub fn num_of_translations(&self) -> (n: usize)
        ensures
            n == self.char.vectors().len(),
    {
        match self.char {
            Lattices::P => 1,
            Lattices::A => 2,
            Lattices::B => 2,
            Lattices::C => 2,
            Lattices::I => 2,
            Lattices::R => 3,
            Lattices::F => 4,
        }
    }

    /// The operations that the lattice symbol brings into the group.
    pub fn seitz_matrices(&self) -> (v: Vec<SeitzMatrix>)
        ensures
            v@.len() == self.operations().len(),
            forall|i: int| 0 <= i < v@.len() ==> (#[trigger] v@[i])@ == self.operations()[i],
    {
        let translations = self.get_translations();
        let mut v: Vec<SeitzMatrix> = Vec::new();
        let mut i: usize = 0;
        while i < translations.len()
            invariant
                0 <= i <= translations.len(),
                views_of(translations@) == self.char.vectors(),
                v@.len() == i,
                forall|k: int|
                    0 <= k < i ==> (#[trigger] v@[k])@ == AffineOp::translation(
                        self.char.vectors()[k],
                    ),
            decreases translations.len() - i,
        {
            assert(views_of(translations@)[i as int] == translations@[i as int]@);
            v.push(SeitzMatrix::from_parts(Matrix3::identity(), translations[i]));
            i = i + 1;
        }
        assert(views_of(translations@).len() == translations@.len());
        if self.minus_sign {
            v.push(SeitzMatrix::inversion());
        }
        v
    }

    pub fn to_string(&self) -> (s: String)
        ensures
            s@ == self.text(),
    {
        let mut s = String::new();
        if self.minus_sign {
            s.append("-");
        }
        match self.char {
            Lattices::P => s.append("P"),
            Lattices::A => s.append("A"),
            Lattices::B => s.append("B"),
            Lattices::C => s.append("C"),
            Lattices::I => s.append("I"),
            Lattices::R => s.append("R"),
            Lattices::F => s.append("F"),
        }
        proof {
            reveal_strlit("-");
            reveal_strlit("P");
            reveal_strlit("A");
            reveal_strlit("B");
            reveal_strlit("C");
            reveal_strlit("I");
            reveal_strlit("R");
            reveal_strlit("F");
            assert(s@ =~= self.text());
        }
        s
    }
}

} // verus!
