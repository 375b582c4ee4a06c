use vstd::prelude::*;
use vstd::string::*;

verus! {

/// What a parser was looking for when it gave up.
#[derive(Debug, Clone, Copy, PartialEq, Eq, Structural, Hash)]
pub enum ParseErrorKind {
    /// A centring letter among `P A B C I R F`.
    Lattice,
    /// A fold among `1 2 3 4 6`, with or without a minus sign before it.
    SignFold,
    /// An axis letter or a diagonal mark.
    Axis,
    /// A screw subscript or glide letters.
    Translation,
    /// Three numbers between the brackets of an origin shift.
    OriginShift,
}

/// A parse failure: what was expected, and at which character of the input.
#[derive(Debug, Clone, Copy, PartialEq, Eq, Structural, Hash)]
pub struct ParseError {
    pub kind: ParseErrorKind,
    pub offset: usize,
}

/// Blank or tab.
pub open spec fn is_space(c: char) -> bool {
    c == ' ' || c == '\t'
}

/// The first position at or after `pos` that holds no blank or tab.
pub open spec fn skip_spaces(s: Seq<char>, pos: int) -> int
    decreases s.len() - pos,
{
    if 0 <= pos < s.len() && is_space(s[pos]) {
        skip_spaces(s, pos + 1)
    } else {
        pos
    }
}

/// `skip_spaces` moves forward only, and not past the end.
pub proof fn lemma_skip_spaces_bounds(s: Seq<char>, pos: int)
    requires
        0 <= pos <= s.len(),
    ensures
        pos <= skip_spaces(s, pos) <= s.len(),
    decreases s.len() - pos,
{
    if pos < s.len() && is_space(s[pos]) {
        lemma_skip_spaces_bounds(s, pos + 1);
    }
}

/// The characters of a string, one by one.
pub fn chars_of(input: &str) -> (v: Vec<char>)
    ensures
        v@ == input@,
{
    let n = input.unicode_len();
    let mut v: Vec<char> = Vec::new();
    let mut i: usize = 0;
    while i < n
        invariant
            0 <= i <= n,
            n == input@.len(),
            v@ == input@.subrange(0, i as int),
        decreases n - i,
    {
        v.push(input.get_char(i));
        assert(v@ == input@.subrange(0, i + 1));
        i = i + 1;
    }
    assert(input@.subrange(0, n as int) == input@);
    v
}

/// Skips blanks and tabs.
pub fn skip_spaces_at(s: &Vec<char>, pos: usize) -> (r: usize)
    requires
        pos <= s@.len(),
    ensures
        r == skip_spaces(s@, pos as int),
        pos <= r <= s@.len(),
{
    let mut r = pos;
    while r < s.len() && (s[r] == ' ' || s[r] == '\t')
        invariant
            pos <= r <= s@.len(),
            skip_spaces(s@, r as int) == skip_spaces(s@, pos as int),
        decreases s@.len() - r,
    {
        r = r + 1;
    }
    r
}

/// Moves a string slice forward by `n` characters.
pub fn advance<'a>(input: &mut &'a str, n: usize)
    requires
        n <= old(input)@.len(),
    ensures
        final(input)@ == old(input)@.subrange(n as int, old(input)@.len() as int),
{
    let whole: &'a str = *input;
    let len = whole.unicode_len();
    *input = whole.substring_char(n, len);
}

} // verus!
