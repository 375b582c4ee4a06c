use vstd::prelude::*;
use vstd::string::*;

verus! {

/// The order of the principal rotation of a generator.
#[derive(Debug, Clone, Copy, PartialEq, Eq, Structural, PartialOrd, Ord, Hash)]
pub enum NFold {
    Invalid,
    N1,
    N2,
    N3,
    N4,
    N6,
}

impl Default for NFold {
    fn default() -> (r: NFold)
        ensures
            r == NFold::N1,
    {
        NFold::N1
    }
}

impl NFold {
    /// The text of the fold in a Hall symbol.
    pub open spec fn text(self) -> Seq<char> {
        match self {
            NFold::Invalid => "Invalid"@,
            NFold::N1 => "1"@,
            NFold::N2 => "2"@,
            NFold::N3 => "3"@,
            NFold::N4 => "4"@,
            NFold::N6 => "6"@,
        }
    }

    pub fn to_string(&self) -> (s: String)
        ensures
            s@ == self.text(),
    {
        match self {
            NFold::Invalid => String::from_str("Invalid"),
            NFold::N1 => String::from_str("1"),
            NFold::N2 => String::from_str("2"),
            NFold::N3 => String::from_str("3"),
            NFold::N4 => String::from_str("4"),
            NFold::N6 => String::from_str("6"),
        }
    }
}

/// The subscript of a screw axis: `1` in `6_1`.
#[derive(Debug, Clone, Copy, PartialEq, Eq, Structural, PartialOrd, Ord, Hash)]
pub enum NFoldSub {
    Absent,
    N1,
    N2,
    N3,
    N4,
    N5,
}

impl Default for NFoldSub {
    fn default() -> (r: NFoldSub)
        ensures
            r == NFoldSub::Absent,
    {
        NFoldSub::Absent
    }
}

impl NFoldSub {
    /// The subscript that a character denotes; `Absent` for any character
    /// other than the digits one to five.
    pub open spec fn of_char(c: char) -> NFoldSub {
        if c == '1' {
            NFoldSub::N1
        } else if c == '2' {
            NFoldSub::N2
        } else if c == '3' {
            NFoldSub::N3
        } else if c == '4' {
            NFoldSub::N4
        } else if c == '5' {
            NFoldSub::N5
        } else {
            NFoldSub::Absent
        }
    }

    /// The text of the subscript in a Hall symbol.
    pub open spec fn text(self) -> Seq<char> {
        match self {
            NFoldSub::Absent => ""@,
            NFoldSub::N1 => "1"@,
            NFoldSub::N2 => "2"@,
            NFoldSub::N3 => "3"@,
            NFoldSub::N4 => "4"@,
            NFoldSub::N5 => "5"@,
        }
    }

    pub fn from_char(value: char) -> (s: NFoldSub)
        ensures
            s == NFoldSub::of_char(value),
    {
        match value {
            '1' => NFoldSub::N1,
            '2' => NFoldSub::N2,
            '3' => NFoldSub::N3,
            '4' => NFoldSub::N4,
            '5' => NFoldSub::N5,
            _ => NFoldSub::Absent,
        }
    }

    pub fn to_string(&self) -> (s: String)
        ensures
            s@ == self.text(),
    {
        match self {
            NFoldSub::Absent => String::from_str(""),
            NFoldSub::N1 => String::from_str("1"),
            NFoldSub::N2 => String::from_str("2"),
            NFoldSub::N3 => String::from_str("3"),
            NFoldSub::N4 => String::from_str("4"),
            NFoldSub::N5 => String::from_str("5"),
        }
    }
}

impl From<&char> for NFoldSub {
    fn from(value: &char) -> (s: NFoldSub) {
        NFoldSub::from_char(*value)
    }
}

impl vstd::std_specs::convert::FromSpecImpl<&char> for NFoldSub {
    open spec fn obeys_from_spec() -> bool {
        true
    }

    open spec fn from_spec(value: &char) -> NFoldSub {
        NFoldSub::of_char(*value)
    }
}

/// The mark that tells apart the diagonal directions of one fold.
#[derive(Debug, Clone, Copy, PartialEq, Eq, Structural, PartialOrd, Ord, Hash)]
pub enum NFoldDiag {
    Absent,
    SingleQuote,
    DoubleQuote,
    Asterisk,
}

impl Default for NFoldDiag {
    fn default() -> (r: NFoldDiag)
        ensures
            r == NFoldDiag::Absent,
    {
        NFoldDiag::Absent
    }
}

impl NFoldDiag {
    /// The text of the mark in a Hall symbol.
    pub open spec fn text(self) -> Seq<char> {
        match self {
            NFoldDiag::Absent => ""@,
            NFoldDiag::SingleQuote => "'"@,
            NFoldDiag::DoubleQuote => "\""@,
            NFoldDiag::Asterisk => "*"@,
        }
    }

    pub fn to_string(&self) -> (s: String)
        ensures
            s@ == self.text(),
    {
        match self {
            NFoldDiag::Absent => String::from_str(""),
            NFoldDiag::SingleQuote => String::from_str("'"),
            NFoldDiag::DoubleQuote => String::from_str("\""),
            NFoldDiag::Asterisk => String::from_str("*"),
        }
    }
}

/// The axis that a generator turns about.
#[derive(Debug, Clone, Copy, PartialEq, Eq, Structural, PartialOrd, Ord, Hash)]
pub enum RotationAxis {
    Omitted,
    X,
    Y,
    Z,
}

impl Default for RotationAxis {
    fn default() -> (r: RotationAxis)
        ensures
            r == RotationAxis::Z,
    {
        RotationAxis::Z
    }
}

impl RotationAxis {
    /// The text of the axis in a Hall symbol; the `z` axis is left implicit.
    pub open spec fn text(self) -> Seq<char> {
        match self {
            RotationAxis::Omitted => ""@,
            RotationAxis::X => "x"@,
            RotationAxis::Y => "y"@,
            RotationAxis::Z => ""@,
        }
    }

    pub fn to_string(&self) -> (s: String)
        ensures
            s@ == self.text(),
    {
        match self {
            RotationAxis::Omitted => String::from_str(""),
            RotationAxis::X => String::from_str("x"),
            RotationAxis::Y => String::from_str("y"),
            RotationAxis::Z => String::from_str(""),
        }
    }
}

/// The ten kinds of crystallographic point operation: a proper rotation of
/// order 1, 2, 3, 4 or 6, or one of these followed by the inversion.
#[derive(Debug, Clone, Copy, PartialEq, Eq, Structural, Hash)]
pub enum RotationType {
    E,
    N2,
    N3,
    N4,
    N6,
    I,
    M,
    M3,
    M4,
    M6,
}

impl Default for RotationType {
    fn default() -> (r: RotationType)
        ensures
            r == RotationType::E,
    {
        RotationType::E
    }
}

impl RotationType {
    /// The order of the rotation behind the operation.
    pub open spec fn fold(self) -> nat {
        match self {
            RotationType::E | RotationType::I => 1,
            RotationType::N2 | RotationType::M => 2,
            RotationType::N3 | RotationType::M3 => 3,
            RotationType::N4 | RotationType::M4 => 4,
            RotationType::N6 | RotationType::M6 => 6,
        }
    }

    /// The text of the kind: the fold, and a combining overline after it for
    /// an improper operation.
    pub open spec fn text(self) -> Seq<char> {
        match self {
            RotationType::E => "1"@,
            RotationType::N2 => "2"@,
            RotationType::N3 => "3"@,
            RotationType::N4 => "4"@,
            RotationType::N6 => "6"@,
            RotationType::I => "1\u{0305}"@,
            RotationType::M => "2\u{0305}"@,
            RotationType::M3 => "3\u{0305}"@,
            RotationType::M4 => "4\u{0305}"@,
            RotationType::M6 => "6\u{0305}"@,
        }
    }

    pub fn to_string(&self) -> (s: String)
        ensures
            s@ == self.text(),
    {
        match self {
            RotationType::E => String::from_str("1"),
            RotationType::N2 => String::from_str("2"),
            RotationType::N3 => String::from_str("3"),
            RotationType::N4 => String::from_str("4"),
            RotationType::N6 => String::from_str("6"),
            RotationType::I => String::from_str("1\u{0305}"),
            RotationType::M => String::from_str("2\u{0305}"),
            RotationType::M3 => String::from_str("3\u{0305}"),
            RotationType::M4 => String::from_str("4\u{0305}"),
            RotationType::M6 => String::from_str("6\u{0305}"),
        }
    }
}

} // verus!
