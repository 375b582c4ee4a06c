use vstd::prelude::*;
use vstd::string::*;

verus! {

/// A column of three integer components, as used for translations (in
/// twelfths of a cell edge) and for axis directions.
#[derive(Debug, Clone, Copy, PartialEq, Eq, Structural, PartialOrd, Ord, Hash)]
pub struct Vector3 {
    pub x: i32,
    pub y: i32,
    pub z: i32,
}

/// The mathematical content of a [`Vector3`].
pub struct IntVector {
    pub x: int,
    pub y: int,
    pub z: int,
}

impl View for Vector3 {
    type V = IntVector;

    open spec fn view(&self) -> IntVector {
        IntVector { x: self.x as int, y: self.y as int, z: self.z as int }
    }
}

impl IntVector {
    pub open spec fn zero() -> IntVector {
        IntVector { x: 0, y: 0, z: 0 }
    }

    /// Component-wise sum.
    pub open spec fn plus(self, other: IntVector) -> IntVector {
        IntVector { x: self.x + other.x, y: self.y + other.y, z: self.z + other.z }
    }

    /// Component-wise difference.
    pub open spec fn minus(self, other: IntVector) -> IntVector {
        IntVector { x: self.x - other.x, y: self.y - other.y, z: self.z - other.z }
    }

    /// The opposite vector.
    pub open spec fn negated(self) -> IntVector {
        IntVector { x: -self.x, y: -self.y, z: -self.z }
    }

    /// Each component reduced into `[0, 12)`.
    pub open spec fn reduced(self) -> IntVector {
        IntVector { x: self.x % 12, y: self.y % 12, z: self.z % 12 }
    }

    /// Every component already lies in `[0, 12)`.
    pub open spec fn is_reduced(self) -> bool {
        0 <= self.x < 12 && 0 <= self.y < 12 && 0 <= self.z < 12
    }

    /// Every component fits a machine `i32`.
    pub open spec fn fits(self) -> bool {
        i32::MIN <= self.x <= i32::MAX && i32::MIN <= self.y <= i32::MAX && i32::MIN <= self.z
            <= i32::MAX
    }

    /// Squared Euclidean length.
    pub open spec fn norm_squared(self) -> int {
        self.x * self.x + self.y * self.y + self.z * self.z
    }

    /// How many of the three components are zero or negative.
    pub open spec fn non_positive_count(self) -> int {
        (if self.x <= 0 { 1int } else { 0 }) + (if self.y <= 0 { 1int } else { 0 }) + (if self.z <= 0 {
            1int
        } else {
            0
        })
    }

    /// The two vectors agree in every component up to whole cells.
    pub open spec fn congruent(self, other: IntVector) -> bool {
        (self.x - other.x) % 12 == 0 && (self.y - other.y) % 12 == 0 && (self.z - other.z) % 12 == 0
    }
}

impl Vector3 {
    pub fn new(x: i32, y: i32, z: i32) -> (v: Vector3)
        ensures
            v == (Vector3 { x, y, z }),
    {
        Vector3 { x, y, z }
    }

    pub fn zeros() -> (v: Vector3)
        ensures
            v@ == IntVector::zero(),
    {
        Vector3 { x: 0, y: 0, z: 0 }
    }
}

/// A glide or screw letter of a Hall symbol.
#[derive(Debug, Clone, Copy, PartialEq, Eq, Structural, PartialOrd, Ord, Hash)]
pub enum TranslationSymbol {
    Invalid,
    A,
    B,
    C,
    N,
    U,
    V,
    W,
    D,
}

impl TranslationSymbol {
    /// The shift, in twelfths, that the letter stands for.
    pub open spec fn shift(self) -> IntVector {
        match self {
            TranslationSymbol::A => IntVector { x: 6, y: 0, z: 0 },
            TranslationSymbol::B => IntVector { x: 0, y: 6, z: 0 },
            TranslationSymbol::C => IntVector { x: 0, y: 0, z: 6 },
            TranslationSymbol::N => IntVector { x: 6, y: 6, z: 6 },
            TranslationSymbol::U => IntVector { x: 3, y: 0, z: 0 },
            TranslationSymbol::V => IntVector { x: 0, y: 3, z: 0 },
            TranslationSymbol::W => IntVector { x: 0, y: 0, z: 3 },
            TranslationSymbol::D => IntVector { x: 3, y: 3, z: 3 },
            TranslationSymbol::Invalid => IntVector::zero(),
        }
    }

    /// The letter that a character denotes; `Invalid` for any other character.
    pub open spec fn of_char(c: char) -> TranslationSymbol {
        if c == 'a' {
            TranslationSymbol::A
        } else if c == 'b' {
            TranslationSymbol::B
        } else if c == 'c' {
            TranslationSymbol::C
        } else if c == 'n' {
            TranslationSymbol::N
        } else if c == 'u' {
            TranslationSymbol::U
        } else if c == 'v' {
            TranslationSymbol::V
        } else if c == 'w' {
            TranslationSymbol::W
        } else if c == 'd' {
            TranslationSymbol::D
        } else {
            TranslationSymbol::Invalid
        }
    }

    /// The text of the letter in a Hall symbol.
    pub open spec fn text(self) -> Seq<char> {
        match self {
            TranslationSymbol::Invalid => "Invalid"@,
            TranslationSymbol::A => "a"@,
            TranslationSymbol::B => "b"@,
            TranslationSymbol::C => "c"@,
            TranslationSymbol::N => "n"@,
            TranslationSymbol::U => "u"@,
            TranslationSymbol::V => "v"@,
            TranslationSymbol::W => "w"@,
            TranslationSymbol::D => "d"@,
        }
    }

    pub fn translation_vector(&self) -> (v: Vector3)
        ensures
            v@ == self.shift(),
    {
        match self {
            TranslationSymbol::A => Vector3::new(6, 0, 0),
            TranslationSymbol::B => Vector3::new(0, 6, 0),
            TranslationSymbol::C => Vector3::new(0, 0, 6),
            TranslationSymbol::N => Vector3::new(6, 6, 6),
            TranslationSymbol::U => Vector3::new(3, 0, 0),
            TranslationSymbol::V => Vector3::new(0, 3, 0),
            TranslationSymbol::W => Vector3::new(0, 0, 3),
            TranslationSymbol::D => Vector3::new(3, 3, 3),
            TranslationSymbol::Invalid => Vector3::zeros(),
        }
    }

    pub fn from_char(value: char) -> (s: TranslationSymbol)
        ensures
            s == TranslationSymbol::of_char(value),
    {
        match value {
            'a' => TranslationSymbol::A,
            'b' => TranslationSymbol::B,
            'c' => TranslationSymbol::C,
            'n' => TranslationSymbol::N,
            'u' => TranslationSymbol::U,
            'v' => TranslationSymbol::V,
            'w' => TranslationSymbol::W,
            'd' => TranslationSymbol::D,
            _ => TranslationSymbol::Invalid,
        }
    }

    pub fn to_string(&self) -> (s: String)
        ensures
            s@ == self.text(),
    {
        match self {
            TranslationSymbol::Invalid => String::from_str("Invalid"),
            TranslationSymbol::A => String::from_str("a"),
            TranslationSymbol::B => String::from_str("b"),
            TranslationSymbol::C => String::from_str("c"),
            TranslationSymbol::N => String::from_str("n"),
            TranslationSymbol::U => String::from_str("u"),
            TranslationSymbol::V => String::from_str("v"),
            TranslationSymbol::W => String::from_str("w"),
            TranslationSymbol::D => String::from_str("d"),
        }
    }
}

impl From<&char> for TranslationSymbol {
    fn from(value: &char) -> (s: TranslationSymbol) {
        TranslationSymbol::from_char(*value)
    }
}

impl vstd::std_specs::convert::FromSpecImpl<&char> for TranslationSymbol {
    open spec fn obeys_from_spec() -> bool {
        true
    }

    open spec fn from_spec(value: &char) -> TranslationSymbol {
        TranslationSymbol::of_char(*value)
    }
}

} // verus!
