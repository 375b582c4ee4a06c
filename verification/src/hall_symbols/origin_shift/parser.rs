use vstd::prelude::*;
use crate::hall_symbols::origin_shift::OriginShift;
use crate::hall_symbols::scan::{
    advance, chars_of, skip_spaces, skip_spaces_at, ParseError, ParseErrorKind,
};

verus! {

/// The value of a decimal digit; `None` for any other character.
pub open spec fn digit_of_char(c: char) -> Option<int> {
    if c == '0' {
        Some(0)
    } else if c == '1' {
        Some(1)
    } else if c == '2' {
        Some(2)
    } else if c == '3' {
        Some(3)
    } else if c == '4' {
        Some(4)
    } else if c == '5' {
        Some(5)
    } else if c == '6' {
        Some(6)
    } else if c == '7' {
        Some(7)
    } else if c == '8' {
        Some(8)
    } else if c == '9' {
        Some(9)
    } else {
        None
    }
}

/// The end of the run of digits that starts at `pos`.
pub open spec fn digit_run_end(s: Seq<char>, pos: int) -> int
    decreases s.len() - pos,
{
    if 0 <= pos < s.len() && digit_of_char(s[pos]) is Some {
        digit_run_end(s, pos + 1)
    } else {
        pos
    }
}

/// The number that the digits from `from` up to `to` write in base ten.
pub open spec fn digits_value(s: Seq<char>, from: int, to: int) -> int
    decreases to - from,
{
    if to <= from {
        0
    } else {
        digits_value(s, from, to - 1) * 10 + digit_of_char(s[to - 1])->0
    }
}

/// The integer that starts at `pos`, and where it ends: a sign or none, a
/// digit other than zero and any digits after it; or else a single zero.
/// `None` where no integer stands there, or one too large for 32 bits.
pub open spec fn int_at(s: Seq<char>, pos: int) -> Option<(int, int)> {
    let signed = 0 <= pos < s.len() && (s[pos] == '+' || s[pos] == '-');
    let first = if signed {
        pos + 1
    } else {
        pos
    };
    if 0 <= first < s.len() && digit_of_char(s[first]) is Some && s[first] != '0' {
        let end = digit_run_end(s, first);
        let size = digits_value(s, first, end);
        let value = if s[pos] == '-' {
            -size
        } else {
            size
        };
        if i32::MIN <= value <= i32::MAX {
            Some((value, end))
        } else {
            None
        }
    } else if 0 <= pos < s.len() && s[pos] == '0' {
        Some((0, pos + 1))
    } else {
        None
    }
}

/// The integer that follows `pos` after at least one blank.
pub open spec fn int_after_gap(s: Seq<char>, pos: int) -> Option<(int, int)> {
    let next = skip_spaces(s, pos);
    if next > pos {
        int_at(s, next)
    } else {
        None
    }
}

/// What stands where an origin shift may stand.
pub enum OriginClause {
    /// No bracketed list of one to three integers.
    Missing,
    /// Such a list with fewer than three integers.
    Short,
    /// Three integers, and the place after the closing bracket.
    Full(int, int, int, int),
}

/// The clause whose integers have been read up to `end`, `count` of them.
pub open spec fn closed_clause(s: Seq<char>, end: int, count: int, a: int, b: int, c: int)
    -> OriginClause {
    if 0 <= end < s.len() && s[end] == ')' {
        if count == 3 {
            OriginClause::Full(a, b, c, end + 1)
        } else {
            OriginClause::Short
        }
    } else {
        OriginClause::Missing
    }
}

/// The origin-shift clause that starts at `pos`, after any blanks: an
/// opening bracket, one to three integers with blanks between them and
/// none around them, and a closing bracket.
pub open spec fn origin_clause_at(s: Seq<char>, pos: int) -> OriginClause {
    let open = skip_spaces(s, pos);
    if !(0 <= open < s.len() && s[open] == '(') {
        OriginClause::Missing
    } else {
        match int_at(s, open + 1) {
            None => OriginClause::Missing,
            Some((a, e1)) => match int_after_gap(s, e1) {
                None => closed_clause(s, e1, 1, a, 0, 0),
                Some((b, e2)) => match int_after_gap(s, e2) {
                    None => closed_clause(s, e2, 2, a, b, 0),
                    Some((c, e3)) => closed_clause(s, e3, 3, a, b, c),
                },
            },
        }
    }
}

/// The origin shift that a clause gives: none where the clause is
/// missing, and no answer where it is short.
pub open spec fn origin_shift_of(clause: OriginClause) -> Option<OriginShift> {
    match clause {
        OriginClause::Missing => Some(OriginShift { va: 0, vb: 0, vc: 0 }),
        OriginClause::Short => None,
        OriginClause::Full(a, b, c, _) => Some(
            OriginShift {
                va: OriginShift::stored(a) as i32,
                vb: OriginShift::stored(b) as i32,
                vc: OriginShift::stored(c) as i32,
            },
        ),
    }
}

/// A longer run of digits writes a number at least as large.
pub proof fn lemma_digits_value_grows(s: Seq<char>, from: int, mid: int, to: int)
    requires
        0 <= from <= mid <= to <= s.len(),
        forall|i: int| from <= i < to ==> digit_of_char(#[trigger] s[i]) is Some,
    ensures
        0 <= digits_value(s, from, mid) <= digits_value(s, from, to),
    decreases to - from,
{
    if mid < to {
        lemma_digits_value_grows(s, from, mid, to - 1);
    } else if from < mid {
        lemma_digits_value_grows(s, from, mid - 1, to - 1);
    }
}

/// A run of digits ends at or after its start, within the text, and holds
/// digits only.
pub proof fn lemma_digit_run(s: Seq<char>, pos: int)
    requires
        0 <= pos <= s.len(),
    ensures
        pos <= digit_run_end(s, pos) <= s.len(),
        forall|i: int| pos <= i < digit_run_end(s, pos) ==> digit_of_char(#[trigger] s[i]) is Some,
    decreases s.len() - pos,
{
    if pos < s.len() && digit_of_char(s[pos]) is Some {
        lemma_digit_run(s, pos + 1);
    }
}

/// The value of a decimal digit.
pub fn digit_value(c: char) -> (r: Option<i64>)
    ensures
        match r {
            Some(d) => digit_of_char(c) == Some(d as int),
            None => digit_of_char(c) is None,
        },
{
    match c {
        '0' => Some(0),
        '1' => Some(1),
        '2' => Some(2),
        '3' => Some(3),
        '4' => Some(4),
        '5' => Some(5),
        '6' => Some(6),
        '7' => Some(7),
        '8' => Some(8),
        '9' => Some(9),
        _ => None,
    }
}

/// Reads the integer that starts at `pos`.
pub fn parse_int_at(s: &Vec<char>, pos: usize) -> (r: Option<(i32, usize)>)
    requires
        pos <= s@.len(),
    ensures
        match r {
            Some((v, end)) => int_at(s@, pos as int) == Some((v as int, end as int)) && pos < end
                <= s@.len(),
            None => int_at(s@, pos as int) is None,
        },
{
    let signed = pos < s.len() && (s[pos] == '+' || s[pos] == '-');
    let first: usize = if signed {
        pos + 1
    } else {
        pos
    };
    let leading = if first < s.len() {
        digit_value(s[first])
    } else {
        None
    };
    match leading {
        Some(d) if d != 0 => {
            let mut end = first;
            let mut acc: i64 = 0;
            let mut big = false;
            proof {
                lemma_digit_run(s@, first as int);
            }
            while end < s.len() && digit_value(s[end]).is_some()
                invariant
                    first <= end <= s@.len(),
                    digit_run_end(s@, end as int) == digit_run_end(s@, first as int),
                    end <= digit_run_end(s@, first as int) <= s@.len(),
                    forall|i: int|
                        first <= i < digit_run_end(s@, first as int) ==> digit_of_char(
                            #[trigger] s@[i],
                        ) is Some,
                    !big ==> acc == digits_value(s@, first as int, end as int) && 0 <= acc
                        <= 0x8000_0000,
                    big ==> digits_value(s@, first as int, end as int) > 0x8000_0000,
                decreases s@.len() - end,
            {
                let d = digit_value(s[end]);
                proof {
                    lemma_digit_run(s@, end + 1);
                    lemma_digits_value_grows(s@, first as int, end as int, end + 1);
                }
                if !big {
                    match d {
                        Some(v) => {
                            acc = acc * 10 + v;
                        },
                        None => {},
                    }
                    if acc > 0x8000_0000 {
                        big = true;
                    }
                }
                end = end + 1;
            }
            if big {
                None
            } else {
                let minus = s[pos] == '-';
                if minus {
                    Some(((-acc) as i32, end))
                } else if acc <= 0x7fff_ffff {
                    Some((acc as i32, end))
                } else {
                    None
                }
            }
        },
        _ => {
            if pos < s.len() && s[pos] == '0' {
                Some((0, pos + 1))
            } else {
                None
            }
        },
    }
}

/// Reads the integer that follows `pos` after at least one blank.
pub fn parse_int_after_gap(s: &Vec<char>, pos: usize) -> (r: Option<(i32, usize)>)
    requires
        pos <= s@.len(),
    ensures
        match r {
            Some((v, end)) => int_after_gap(s@, pos as int) == Some((v as int, end as int))
                && pos < end <= s@.len(),
            None => int_after_gap(s@, pos as int) is None,
        },
{
    let next = skip_spaces_at(s, pos);
    if next > pos {
        parse_int_at(s, next)
    } else {
        None
    }
}

/// Whether a closing bracket stands at `end`.
pub fn closes_at(s: &Vec<char>, end: usize) -> (b: bool)
    requires
        end <= s@.len(),
    ensures
        b == (end < s@.len() && s@[end as int] == ')'),
{
    end < s.len() && s[end] == ')'
}

/// Reads the origin shift that starts at `pos`, after any blanks: the shift
/// and the place after it, or no shift and `pos` where none stands there.
/// A bracketed list of one or two integers is an error.
pub fn parse_origin_shift_at(s: &Vec<char>, pos: usize) -> (r: Result<
    (OriginShift, usize),
    ParseError,
>)
    requires
        pos <= s@.len(),
    ensures
        match r {
            Ok((shift, end)) => Some(shift) == origin_shift_of(origin_clause_at(s@, pos as int))
                && pos <= end <= s@.len() && end == (match origin_clause_at(s@, pos as int) {
                OriginClause::Full(_, _, _, e) => e,
                _ => pos as int,
            }),
            Err(e) => origin_clause_at(s@, pos as int) is Short && e.kind
                == ParseErrorKind::OriginShift && e.offset == skip_spaces(s@, pos as int),
        },
{
    let open = skip_spaces_at(s, pos);
    if !(open < s.len() && s[open] == '(') {
        return Ok((OriginShift::default(), pos));
    }
    let short = Err(ParseError { kind: ParseErrorKind::OriginShift, offset: open });
    let (a, e1) = match parse_int_at(s, open + 1) {
        Some(t) => t,
        None => {
            return Ok((OriginShift::default(), pos));
        },
    };
    let (b, e2) = match parse_int_after_gap(s, e1) {
        Some(t) => t,
        None => {
            if closes_at(s, e1) {
                return short;
            } else {
                return Ok((OriginShift::default(), pos));
            }
        },
    };
    let (c, e3) = match parse_int_after_gap(s, e2) {
        Some(t) => t,
        None => {
            if closes_at(s, e2) {
                return short;
            } else {
                return Ok((OriginShift::default(), pos));
            }
        },
    };
    if closes_at(s, e3) {
        Ok((OriginShift::new(a, b, c), e3 + 1))
    } else {
        Ok((OriginShift::default(), pos))
    }
}

/// Reads an origin shift off the front of `input` and moves `input` past
/// it; leaves `input` alone where it starts with none.
pub fn parse_origin_shift(input: &mut &str) -> (r: Result<OriginShift, ParseError>)
    ensures
        match origin_clause_at(old(input)@, 0) {
            OriginClause::Full(a, b, c, end) => r is Ok && Some(r->Ok_0) == origin_shift_of(
                OriginClause::Full(a, b, c, end),
            ) && final(input)@ == old(input)@.subrange(end, old(input)@.len() as int),
            OriginClause::Missing => r == Ok::<OriginShift, ParseError>(
                OriginShift { va: 0, vb: 0, vc: 0 },
            ) && final(input)@ == old(input)@,
            OriginClause::Short => r is Err && r->Err_0.kind == ParseErrorKind::OriginShift
                && final(input)@ == old(input)@,
        },
{
    let s = chars_of(*input);
    match parse_origin_shift_at(&s, 0) {
        Ok((shift, end)) => {
            if end > 0 {
                advance(input, end);
            }
            Ok(shift)
        },
        Err(e) => Err(e),
    }
}

impl OriginShift {
    /// Reads an origin shift off the front of `input`.
    pub fn try_from_str(input: &mut &str) -> (r: Result<OriginShift, ParseError>)
        ensures
            match origin_clause_at(old(input)@, 0) {
                OriginClause::Full(a, b, c, end) => r is Ok && Some(r->Ok_0) == origin_shift_of(
                    OriginClause::Full(a, b, c, end),
                ) && final(input)@ == old(input)@.subrange(end, old(input)@.len() as int),
                OriginClause::Missing => r == Ok::<OriginShift, ParseError>(
                    OriginShift { va: 0, vb: 0, vc: 0 },
                ) && final(input)@ == old(input)@,
                OriginClause::Short => r is Err && r->Err_0.kind == ParseErrorKind::OriginShift
                    && final(input)@ == old(input)@,
            },
    {
        parse_origin_shift(input)
    }
}

} // verus!
