use vstd::prelude::*;
use crate::hall_symbols::lattice_symbol::{LatticeSymbol, Lattices};
use crate::hall_symbols::scan::{advance, chars_of, ParseError, ParseErrorKind};

verus! {

/// The lattice symbol that starts at `pos`, and where it ends: a minus sign
/// or none, then a centring letter.  `None` where there is no such text.
pub open spec fn lattice_at(s: Seq<char>, pos: int) -> Option<(LatticeSymbol, int)> {
    let minus = 0 <= pos < s.len() && s[pos] == '-';
    let at = if minus {
        pos + 1
    } else {
        pos
    };
    if 0 <= at < s.len() && Lattices::of_letter(s[at]) is Some {
        Some((LatticeSymbol { minus_sign: minus, char: Lattices::of_letter(s[at])->0 }, at + 1))
    } else {
        None
    }
}

/// The centring that a letter names.
pub fn lattice_of_letter(c: char) -> (r: Option<Lattices>)
    ensures
        r == Lattices::of_letter(c),
{
    match c {
        'P' => Some(Lattices::P),
        'A' => Some(Lattices::A),
        'B' => Some(Lattices::B),
        'C' => Some(Lattices::C),
        'I' => Some(Lattices::I),
        'R' => Some(Lattices::R),
        'F' => Some(Lattices::F),
        _ => None,
    }
}

/// Reads the lattice symbol that starts at `pos`.  The error names the
/// place where a centring letter was expected.
pub fn parse_lattice_at(s: &Vec<char>, pos: usize) -> (r: Result<(LatticeSymbol, usize), ParseError>)
    requires
        pos <= s@.len(),
    ensures
        match r {
            Ok((l, end)) => lattice_at(s@, pos as int) == Some((l, end as int)) && pos < end
                <= s@.len(),
            Err(e) => lattice_at(s@, pos as int) is None && e.kind == ParseErrorKind::Lattice
                && pos <= e.offset <= pos + 1,
        },
{
    let minus = pos < s.len() && s[pos] == '-';
    let at: usize = if minus {
        pos + 1
    } else {
        pos
    };
    if at < s.len() {
        match lattice_of_letter(s[at]) {
            Some(l) => Ok((LatticeSymbol::new(minus, l), at + 1)),
            None => Err(ParseError { kind: ParseErrorKind::Lattice, offset: at }),
        }
    } else {
        Err(ParseError { kind: ParseErrorKind::Lattice, offset: at })
    }
}

/// Reads a lattice symbol off the front of `input` and moves `input` past
/// it; leaves `input` alone where it starts with none.
pub fn parse_lattice_symbol(input: &mut &str) -> (r: Result<LatticeSymbol, ParseError>)
    ensures
        match lattice_at(old(input)@, 0) {
            Some((l, end)) => r == Ok::<LatticeSymbol, ParseError>(l) && final(input)@ == old(
                input,
            )@.subrange(end, old(input)@.len() as int),
            None => r is Err && r->Err_0.kind == ParseErrorKind::Lattice && final(input)@ == old(
                input,
            )@,
        },
{
    let s = chars_of(*input);
    match parse_lattice_at(&s, 0) {
        Ok((l, end)) => {
            advance(input, end);
            Ok(l)
        },
        Err(e) => Err(e),
    }
}

impl LatticeSymbol {
    /// Reads a lattice symbol off the front of `input`.
    pub fn try_from_str(input: &mut &str) -> (r: Result<LatticeSymbol, ParseError>)
        ensures
            match lattice_at(old(input)@, 0) {
                Some((l, end)) => r == Ok::<LatticeSymbol, ParseError>(l) && final(input)@ == old(
                    input,
                )@.subrange(end, old(input)@.len() as int),
                None => r is Err && r->Err_0.kind == ParseErrorKind::Lattice && final(input)@
                    == old(input)@,
            },
    {
        parse_lattice_symbol(input)
    }
}

} // verus!
