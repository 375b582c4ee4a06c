use vstd::prelude::*;
use vstd::string::*;

verus! {

/// Denominator shared by every translation component: a stored value `t`
/// stands for the fraction `t / 12` of a cell edge.
pub const SEITZ_TRANSLATE_BASE_NUMBER: i32 = 12;

/// The representative of `v` modulo twelve that lies in `[0, 12)`.
pub open spec fn twelfths(v: int) -> int {
    v % 12
}

/// Reduces a translation component into `[0, 12)`.
pub fn positive_mod_stbn_i32(val: i32) -> (r: i32)
    ensures
        r == twelfths(val as int),
        0 <= r < 12,
{
    let rem: i32 = val % SEITZ_TRANSLATE_BASE_NUMBER;
    if rem < 0 {
        rem + SEITZ_TRANSLATE_BASE_NUMBER
    } else {
        rem
    }
}

/// Reduction into `[0, 12)` of a value too wide for a translation component.
pub fn positive_mod_stbn_i128(val: i128) -> (r: i32)
    ensures
        r == twelfths(val as int),
        0 <= r < 12,
{
    let rem: i128 = val % 12;
    if rem < 0 {
        (rem + 12) as i32
    } else {
        rem as i32
    }
}

/// Reduction may be applied to either summand before adding.
pub proof fn lemma_twelfths_add(a: int, b: int)
    ensures
        twelfths(twelfths(a) + b) == twelfths(a + b),
        twelfths(a + twelfths(b)) == twelfths(a + b),
        twelfths(twelfths(a) + twelfths(b)) == twelfths(a + b),
{
    assert((a % 12 + b) % 12 == (a + b) % 12) by (nonlinear_arith);
    assert((a + b % 12) % 12 == (a + b) % 12) by (nonlinear_arith);
    assert((a % 12 + b % 12) % 12 == (a + b) % 12) by (nonlinear_arith);
}

/// The text that the standard library displays for an integer.
pub uninterp spec fn decimal_text(v: int) -> Seq<char>;

/// `i128::to_string`: the integer in base ten, as the standard library
/// writes it.  Nothing is claimed of the text but that it is the
/// library's.
#[verifier::external_body]
pub(crate) fn decimal_string(v: i128) -> (r: String)
    ensures
        r@ == decimal_text(v as int),
{
    v.to_string()
}

} // verus!
