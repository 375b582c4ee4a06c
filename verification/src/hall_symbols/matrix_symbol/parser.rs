use vstd::prelude::*;
use crate::hall_symbols::matrix_symbol::notations::{NFold, NFoldDiag, NFoldSub, RotationAxis};
use crate::hall_symbols::matrix_symbol::{MatrixSymbol, MatrixSymbolView};
use crate::hall_symbols::scan::{
    advance, chars_of, lemma_skip_spaces_bounds, skip_spaces, skip_spaces_at, ParseError,
    ParseErrorKind,
};
use crate::hall_symbols::translation_symbol::TranslationSymbol;

verus! {

/// The fold that a digit names.
pub open spec fn fold_of_char(c: char) -> Option<NFold> {
    if c == '1' {
        Some(NFold::N1)
    } else if c == '2' {
        Some(NFold::N2)
    } else if c == '3' {
        Some(NFold::N3)
    } else if c == '4' {
        Some(NFold::N4)
    } else if c == '6' {
        Some(NFold::N6)
    } else {
        None
    }
}

/// The axis or the diagonal mark that a character names.
pub open spec fn axis_of_char(c: char) -> Option<(RotationAxis, NFoldDiag)> {
    if c == 'x' {
        Some((RotationAxis::X, NFoldDiag::Absent))
    } else if c == 'y' {
        Some((RotationAxis::Y, NFoldDiag::Absent))
    } else if c == 'z' {
        Some((RotationAxis::Z, NFoldDiag::Absent))
    } else if c == '\'' {
        Some((RotationAxis::Omitted, NFoldDiag::SingleQuote))
    } else if c == '"' {
        Some((RotationAxis::Omitted, NFoldDiag::DoubleQuote))
    } else if c == '*' {
        Some((RotationAxis::Omitted, NFoldDiag::Asterisk))
    } else {
        None
    }
}

/// A digit that can be the subscript of a screw axis.
pub open spec fn is_sub_digit(c: char) -> bool {
    c == '1' || c == '2' || c == '3' || c == '4' || c == '5'
}

/// A glide letter.
pub open spec fn is_glide_letter(c: char) -> bool {
    c == 'a' || c == 'b' || c == 'c' || c == 'n' || c == 'u' || c == 'v' || c == 'w' || c == 'd'
}

/// The end of the run of glide letters that starts at `pos`.
pub open spec fn glide_run_end(s: Seq<char>, pos: int) -> int
    decreases s.len() - pos,
{
    if 0 <= pos < s.len() && is_glide_letter(s[pos]) {
        glide_run_end(s, pos + 1)
    } else {
        pos
    }
}

/// The glide letters written from `from` up to `to`.
pub open spec fn glide_letters(s: Seq<char>, from: int, to: int) -> Seq<TranslationSymbol> {
    Seq::new((to - from) as nat, |i: int| TranslationSymbol::of_char(s[from + i]))
}

/// The screw subscript and the glide letters that start at `pos`, and where
/// they end: one digit from 1 to 5, or else a run of glide letters.  `None`
/// where neither stands at `pos`.
pub open spec fn translations_at(s: Seq<char>, pos: int) -> Option<
    (NFoldSub, Option<Seq<TranslationSymbol>>, int),
> {
    if 0 <= pos < s.len() && is_sub_digit(s[pos]) {
        Some((NFoldSub::of_char(s[pos]), None, pos + 1))
    } else if 0 <= pos < s.len() && is_glide_letter(s[pos]) {
        Some(
            (
                NFoldSub::Absent,
                Some(glide_letters(s, pos, glide_run_end(s, pos))),
                glide_run_end(s, pos),
            ),
        )
    } else {
        None
    }
}

/// The generator that starts at `pos`, after any blanks, and where it ends:
/// a minus sign or none, a fold, an axis letter or a diagonal mark or
/// neither, then a screw subscript or glide letters or neither.  An axis
/// that is not written is `Omitted`.  `None` where no fold stands there.
pub open spec fn symbol_at(s: Seq<char>, pos: int) -> Option<(MatrixSymbolView, int)> {
    let start = skip_spaces(s, pos);
    let minus = 0 <= start < s.len() && s[start] == '-';
    let at = if minus {
        start + 1
    } else {
        start
    };
    if 0 <= at < s.len() && fold_of_char(s[at]) is Some {
        let fold = fold_of_char(s[at])->0;
        let marked = at + 1 < s.len() && axis_of_char(s[at + 1]) is Some;
        let (axis, diag) = if marked {
            axis_of_char(s[at + 1])->0
        } else {
            (RotationAxis::Omitted, NFoldDiag::Absent)
        };
        let after = if marked {
            at + 2
        } else {
            at + 1
        };
        match translations_at(s, after) {
            Some((sub, letters, end)) => Some(
                (
                    MatrixSymbolView {
                        minus_sign: minus,
                        nfold_body: fold,
                        nfold_sub: sub,
                        nfold_diag: diag,
                        rotation_axis: axis,
                        translation_symbols: letters,
                    },
                    end,
                ),
            ),
            None => Some(
                (
                    MatrixSymbolView {
                        minus_sign: minus,
                        nfold_body: fold,
                        nfold_sub: NFoldSub::Absent,
                        nfold_diag: diag,
                        rotation_axis: axis,
                        translation_symbols: None,
                    },
                    after,
                ),
            ),
        }
    } else {
        None
    }
}

/// The place where `symbol_at` looks for a fold.
pub open spec fn fold_position(s: Seq<char>, pos: int) -> int {
    let start = skip_spaces(s, pos);
    if 0 <= start < s.len() && s[start] == '-' {
        start + 1
    } else {
        start
    }
}

pub fn parse_sign_fold(s: &Vec<char>, pos: usize) -> (r: Result<(bool, NFold, usize), ParseError>)
    requires
        pos <= s@.len(),
    ensures
        match r {
            Ok((minus, fold, end)) => {
                let at = fold_position(s@, pos as int);
                &&& at < s@.len()
                &&& fold_of_char(s@[at]) == Some(fold)
                &&& end == at + 1
                &&& minus == (at != skip_spaces(s@, pos as int))
            },
            Err(e) => {
                let at = fold_position(s@, pos as int);
                &&& (at >= s@.len() || fold_of_char(s@[at]) is None)
                &&& e.kind == ParseErrorKind::SignFold
                &&& e.offset == skip_spaces(s@, pos as int)
            },
        },
{
    let start = skip_spaces_at(s, pos);
    let minus = start < s.len() && s[start] == '-';
    let at: usize = if minus {
        start + 1
    } else {
        start
    };
    if at < s.len() {
        let fold = match s[at] {
            '1' => Some(NFold::N1),
            '2' => Some(NFold::N2),
            '3' => Some(NFold::N3),
            '4' => Some(NFold::N4),
            '6' => Some(NFold::N6),
            _ => None,
        };
        match fold {
            Some(f) => Ok((minus, f, at + 1)),
            None => Err(ParseError { kind: ParseErrorKind::SignFold, offset: start }),
        }
    } else {
        Err(ParseError { kind: ParseErrorKind::SignFold, offset: start })
    }
}

pub fn parse_axis(s: &Vec<char>, pos: usize) -> (r: Result<
    (RotationAxis, NFoldDiag, usize),
    ParseError,
>)
    requires
        pos <= s@.len(),
    ensures
        match r {
            Ok((axis, diag, end)) => pos < s@.len() && axis_of_char(s@[pos as int]) == Some(
                (axis, diag),
            ) && end == pos + 1,
            Err(e) => (pos >= s@.len() || axis_of_char(s@[pos as int]) is None) && e.kind
                == ParseErrorKind::Axis && e.offset == pos,
        },
{
    if pos < s.len() {
        match s[pos] {
            'x' => Ok((RotationAxis::X, NFoldDiag::Absent, pos + 1)),
            'y' => Ok((RotationAxis::Y, NFoldDiag::Absent, pos + 1)),
            'z' => Ok((RotationAxis::Z, NFoldDiag::Absent, pos + 1)),
            '\'' => Ok((RotationAxis::Omitted, NFoldDiag::SingleQuote, pos + 1)),
            '"' => Ok((RotationAxis::Omitted, NFoldDiag::DoubleQuote, pos + 1)),
            '*' => Ok((RotationAxis::Omitted, NFoldDiag::Asterisk, pos + 1)),
            _ => Err(ParseError { kind: ParseErrorKind::Axis, offset: pos }),
        }
    } else {
        Err(ParseError { kind: ParseErrorKind::Axis, offset: pos })
    }
}

/// Whether a character is a glide letter.
pub fn glide_letter(c: char) -> (b: bool)
    ensures
        b == is_glide_letter(c),
{
    c == 'a' || c == 'b' || c == 'c' || c == 'n' || c == 'u' || c == 'v' || c == 'w' || c == 'd'
}

pub fn parse_translations(s: &Vec<char>, pos: usize) -> (r: Result<
    (NFoldSub, Option<Vec<TranslationSymbol>>, usize),
    ParseError,
>)
    requires
        pos <= s@.len(),
    ensures
        match r {
            Ok((sub, letters, end)) => translations_at(s@, pos as int) == Some(
                (
                    sub,
                    match letters {
                        Some(v) => Some(v@),
                        None => None,
                    },
                    end as int,
                ),
            ) && pos < end <= s@.len(),
            Err(e) => translations_at(s@, pos as int) is None && e.kind
                == ParseErrorKind::Translation && e.offset == pos,
        },
{
    if pos >= s.len() {
        return Err(ParseError { kind: ParseErrorKind::Translation, offset: pos });
    }
    let c = s[pos];
    if c == '1' || c == '2' || c == '3' || c == '4' || c == '5' {
        Ok((NFoldSub::from_char(c), None, pos + 1))
    } else if glide_letter(c) {
        let mut letters: Vec<TranslationSymbol> = Vec::new();
        let mut end = pos;
        while end < s.len() && glide_letter(s[end])
            invariant
                pos <= end <= s@.len(),
                glide_run_end(s@, end as int) == glide_run_end(s@, pos as int),
                letters@ == glide_letters(s@, pos as int, end as int),
            decreases s@.len() - end,
        {
            letters.push(TranslationSymbol::from_char(s[end]));
            assert(letters@ =~= glide_letters(s@, pos as int, end + 1));
            end = end + 1;
        }
        Ok((NFoldSub::Absent, Some(letters), end))
    } else {
        Err(ParseError { kind: ParseErrorKind::Translation, offset: pos })
    }
}

/// Reads the generator that starts at `pos`, after any blanks.  The error
/// names the place where a fold was expected.
pub fn parse_matrix_symbol_at(s: &Vec<char>, pos: usize) -> (r: Result<
    (MatrixSymbol, usize),
    ParseError,
>)
    requires
        pos <= s@.len(),
    ensures
        match r {
            Ok((m, end)) => symbol_at(s@, pos as int) == Some((m@, end as int)) && pos < end
                <= s@.len(),
            Err(e) => symbol_at(s@, pos as int) is None && e.kind == ParseErrorKind::SignFold
                && e.offset == skip_spaces(s@, pos as int),
        },
{
    let (minus, fold, after_fold) = match parse_sign_fold(s, pos) {
        Ok(t) => t,
        Err(e) => {
            return Err(e);
        },
    };
    proof {
        lemma_skip_spaces_bounds(s@, pos as int);
    }
    let (axis, diag, after) = match parse_axis(s, after_fold) {
        Ok(t) => t,
        Err(_) => (RotationAxis::Omitted, NFoldDiag::Absent, after_fold),
    };
    match parse_translations(s, after) {
        Ok((sub, letters, end)) => Ok(
            (MatrixSymbol::from_parts(minus, fold, sub, diag, axis, letters), end),
        ),
        Err(_) => Ok(
            (MatrixSymbol::from_parts(minus, fold, NFoldSub::Absent, diag, axis, None), after),
        ),
    }
}

/// Reads a generator off the front of `input` and moves `input` past it;
/// leaves `input` alone where it starts with none.
pub fn parse_hall_matrix_symbol(input: &mut &str) -> (r: Result<MatrixSymbol, ParseError>)
    ensures
        match symbol_at(old(input)@, 0) {
            Some((m, end)) => r is Ok && r->Ok_0@ == m && final(input)@ == old(input)@.subrange(
                end,
                old(input)@.len() as int,
            ),
            None => r is Err && r->Err_0.kind == ParseErrorKind::SignFold && final(input)@ == old(
                input,
            )@,
        },
{
    let s = chars_of(*input);
    match parse_matrix_symbol_at(&s, 0) {
        Ok((m, end)) => {
            advance(input, end);
            Ok(m)
        },
        Err(e) => Err(e),
    }
}

impl MatrixSymbol {
    /// Reads a generator off the front of `input`.
    pub fn try_from_str(input: &mut &str) -> (r: Result<MatrixSymbol, ParseError>)
        ensures
            match symbol_at(old(input)@, 0) {
                Some((m, end)) => r is Ok && r->Ok_0@ == m && final(input)@ == old(
                    input,
                )@.subrange(end, old(input)@.len() as int),
                None => r is Err && r->Err_0.kind == ParseErrorKind::SignFold && final(input)@
                    == old(input)@,
            },
    {
        parse_hall_matrix_symbol(input)
    }
}

} // verus!
