use vstd::prelude::*;
use crate::hall_symbols::lattice_symbol::parser::{lattice_at, parse_lattice_at};
use crate::hall_symbols::matrix_symbol::notations::{NFold, NFoldDiag, RotationAxis};
use crate::hall_symbols::matrix_symbol::parser::{parse_matrix_symbol_at, symbol_at};
use crate::hall_symbols::matrix_symbol::{MatrixSymbol, MatrixSymbolView};
use crate::hall_symbols::origin_shift::parser::{
    origin_clause_at, origin_shift_of, parse_origin_shift_at,
};
use crate::hall_symbols::scan::{advance, chars_of, ParseError, ParseErrorKind};
use crate::hall_symbols::{symbols_of, HallSymbolNotation, HallSymbolView};

verus! {

/// The generators that follow one another from `pos` on, and the place
/// where the last of them ends.
pub open spec fn generators_from(s: Seq<char>, pos: int) -> (Seq<MatrixSymbolView>, int)
    decreases s.len() - pos,
{
    match symbol_at(s, pos) {
        Some((m, end)) => if pos < end <= s.len() {
            let rest = generators_from(s, end);
            (seq![m] + rest.0, rest.1)
        } else {
            (Seq::empty(), pos)
        },
        None => (Seq::empty(), pos),
    }
}

/// Generator `i` of a symbol with what the notation leaves unsaid filled
/// in.  The first generator turns about `z` where it names no axis.  A
/// two-fold second generator turns about `x` after a two- or four-fold
/// one, and about `z` with a single quote after a three- or six-fold one,
/// where it names no axis and bears no mark of its own.  A three-fold
/// third generator lies along the body diagonal.
pub open spec fn restored_at(symbols: Seq<MatrixSymbolView>, i: int) -> MatrixSymbolView {
    let m = symbols[i];
    if i == 0 {
        if m.rotation_axis == RotationAxis::Omitted {
            MatrixSymbolView { rotation_axis: RotationAxis::Z, ..m }
        } else {
            m
        }
    } else if i == 1 && m.nfold_body == NFold::N2 {
        let before = symbols[0].nfold_body;
        if before == NFold::N2 || before == NFold::N4 {
            if m.rotation_axis == RotationAxis::Omitted {
                MatrixSymbolView { rotation_axis: RotationAxis::X, ..m }
            } else {
                m
            }
        } else if before == NFold::N3 || before == NFold::N6 {
            MatrixSymbolView {
                rotation_axis: if m.rotation_axis == RotationAxis::Omitted {
                    RotationAxis::Z
                } else {
                    m.rotation_axis
                },
                nfold_diag: if m.nfold_diag == NFoldDiag::Absent {
                    NFoldDiag::SingleQuote
                } else {
                    m.nfold_diag
                },
                ..m
            }
        } else {
            m
        }
    } else if i == 2 && m.nfold_body == NFold::N3 {
        MatrixSymbolView { nfold_diag: NFoldDiag::Asterisk, ..m }
    } else {
        m
    }
}

/// The generators of a symbol with what the notation leaves unsaid filled
/// in.
pub open spec fn restored(symbols: Seq<MatrixSymbolView>) -> Seq<MatrixSymbolView> {
    Seq::new(symbols.len(), |i: int| restored_at(symbols, i))
}

/// What a Hall symbol says: a lattice symbol at the very start, the
/// generators that follow it, and an origin shift after them or none.
/// `None` where the text starts with no lattice symbol, or where its
/// origin shift has fewer than three numbers.
pub open spec fn hall_symbol_of(s: Seq<char>) -> Option<HallSymbolView> {
    match lattice_at(s, 0) {
        None => None,
        Some((lattice, start)) => {
            let generators = generators_from(s, start);
            match origin_shift_of(origin_clause_at(s, generators.1)) {
                None => None,
                Some(shift) => Some(
                    HallSymbolView {
                        lattice_symbol: lattice,
                        matrix_symbols: restored(generators.0),
                        origin_shift: shift,
                    },
                ),
            }
        },
    }
}

/// Fills in what the notation leaves unsaid.
pub fn restore_information_in_matrix_symbols(symbols_vec: &mut Vec<MatrixSymbol>)
    ensures
        symbols_of(final(symbols_vec)@) == restored(symbols_of(old(symbols_vec)@)),
{
    let n = symbols_vec.len();
    let ghost before = symbols_of(symbols_vec@);
    if n == 0 {
        assert(symbols_of(symbols_vec@) =~= restored(before));
        return ;
    }
    let first_fold = symbols_vec[0].nfold_body();
    let mut i: usize = 0;
    while i < n && i < 3
        invariant
            0 <= i <= n,
            n == symbols_vec@.len(),
            n == before.len(),
            n > 0,
            first_fold == before[0].nfold_body,
            forall|k: int| 0 <= k < i ==> (#[trigger] symbols_vec@[k])@ == restored_at(before, k),
            forall|k: int| i <= k < n ==> (#[trigger] symbols_vec@[k])@ == before[k],
        decreases n - i,
    {
        let mut symbol = symbols_vec[i].clone_symbol();
        if i == 0 {
            if symbol.rotation_axis() == RotationAxis::Omitted {
                symbol.set_rotation_axis(RotationAxis::Z);
            }
        } else if i == 1 && symbol.nfold_body() == NFold::N2 {
            if first_fold == NFold::N2 || first_fold == NFold::N4 {
                if symbol.rotation_axis() == RotationAxis::Omitted {
                    symbol.set_rotation_axis(RotationAxis::X);
                }
            } else if first_fold == NFold::N3 || first_fold == NFold::N6 {
                if symbol.nfold_diag() == NFoldDiag::Absent {
                    symbol.set_nfold_diag(NFoldDiag::SingleQuote);
                }
                if symbol.rotation_axis() == RotationAxis::Omitted {
                    symbol.set_rotation_axis(RotationAxis::Z);
                }
            }
        } else if i == 2 && symbol.nfold_body() == NFold::N3 {
            symbol.set_nfold_diag(NFoldDiag::Asterisk);
        }
        assert(symbol@ == restored_at(before, i as int));
        symbols_vec.set(i, symbol);
        i = i + 1;
    }
    assert(symbols_of(symbols_vec@) =~= restored(before));
}

/// Reads a Hall symbol off the front of `input` and moves `input` past
/// what was read of it.
pub fn parse_hall_symbol(input: &mut &str) -> (r: Result<HallSymbolNotation, ParseError>)
    ensures
        match r {
            Ok(h) => hall_symbol_of(old(input)@) == Some(h@),
            Err(e) => hall_symbol_of(old(input)@) is None && (e.kind == ParseErrorKind::Lattice
                <==> lattice_at(old(input)@, 0) is None) && (e.kind == ParseErrorKind::OriginShift
                <==> lattice_at(old(input)@, 0) is Some),
        },
        r is Err ==> final(input)@ == old(input)@,
{
    let s = chars_of(*input);
    let (lattice, start) = match parse_lattice_at(&s, 0) {
        Ok(t) => t,
        Err(e) => {
            return Err(e);
        },
    };
    let mut symbols: Vec<MatrixSymbol> = Vec::new();
    let mut pos = start;
    let mut done = false;
    while !done
        invariant
            start <= pos <= s@.len(),
            done ==> symbol_at(s@, pos as int) is None,
            generators_from(s@, start as int).0 == symbols_of(symbols@) + generators_from(
                s@,
                pos as int,
            ).0,
            generators_from(s@, start as int).1 == generators_from(s@, pos as int).1,
        decreases s@.len() - pos + (if done {
            0int
        } else {
            1int
        }),
    {
        match parse_matrix_symbol_at(&s, pos) {
            Ok((m, end)) => {
                proof {
                    let rest = generators_from(s@, end as int);
                    assert(generators_from(s@, pos as int).0 == seq![m@] + rest.0);
                    assert(symbols_of(symbols@.push(m)) =~= symbols_of(symbols@) + seq![m@]);
                    assert(symbols_of(symbols@) + (seq![m@] + rest.0) =~= (symbols_of(symbols@)
                        + seq![m@]) + rest.0);
                }
                symbols.push(m);
                pos = end;
            },
            Err(_) => {
                done = true;
            },
        }
    }
    proof {
        assert(generators_from(s@, pos as int).0 =~= Seq::<MatrixSymbolView>::empty());
        assert(symbols_of(symbols@) + Seq::<MatrixSymbolView>::empty() =~= symbols_of(symbols@));
        assert(generators_from(s@, start as int).1 == pos);
    }
    let (shift, end) = match parse_origin_shift_at(&s, pos) {
        Ok(t) => t,
        Err(e) => {
            return Err(e);
        },
    };
    restore_information_in_matrix_symbols(&mut symbols);
    advance(input, end);
    Ok(HallSymbolNotation::new(lattice, symbols, shift))
}

impl HallSymbolNotation {
    /// Reads a Hall symbol, such as `P 61 2 (0 0 -1)`.
    pub fn try_from_str(input: &str) -> (r: Result<HallSymbolNotation, ParseError>)
        ensures
            match r {
                Ok(h) => hall_symbol_of(input@) == Some(h@),
                Err(e) => hall_symbol_of(input@) is None && (e.kind == ParseErrorKind::Lattice
                    <==> lattice_at(input@, 0) is None) && (e.kind == ParseErrorKind::OriginShift
                    <==> lattice_at(input@, 0) is Some),
            },
    {
        let mut rest = input;
        parse_hall_symbol(&mut rest)
    }
}

} // verus!
