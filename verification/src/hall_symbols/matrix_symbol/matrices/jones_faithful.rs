use vstd::prelude::*;
use vstd::string::*;
use crate::hall_symbols::matrix_symbol::matrices::{AffineOp, IntMatrix, SeitzMatrix};
use crate::utils::{decimal_string, decimal_text};

verus! {

/// The text that the `fraction` crate displays for the fraction
/// `numer / denom` of two natural numbers.
pub uninterp spec fn fraction_text(numer: int, denom: int) -> Seq<char>;

/// `GenericFraction::<i64>::new` followed by the fraction's `Display`: the
/// text of a non-negative fraction, which the crate reduces before it
/// writes it.  Nothing is claimed of the text but that it is the crate's.
#[verifier::external_body]
pub(crate) fn fraction_string(numer: i64, denom: i64) -> (r: String)
    requires
        numer >= 0,
        denom > 0,
    ensures
        r@ == fraction_text(numer as int, denom as int),
{
    format!("{}", fraction::GenericFraction::<i64>::new(numer, denom))
}

/// The coefficient of a term: nothing for one, else its size in digits.
pub open spec fn coefficient_text(size: int) -> Seq<char> {
    if size == 1 {
        Seq::empty()
    } else {
        decimal_text(size)
    }
}

/// One term of a row of the linear part: the sign, the coefficient and
/// the letter, the plus sign left out where the term leads the row;
/// nothing for zero.
pub open spec fn term_text(v: int, letter: char, leading: bool) -> Seq<char> {
    if v > 0 {
        if leading {
            coefficient_text(v) + seq![letter]
        } else {
            seq!['+'] + coefficient_text(v) + seq![letter]
        }
    } else if v < 0 {
        seq!['-'] + coefficient_text(-v) + seq![letter]
    } else {
        Seq::empty()
    }
}

/// One row of the linear part as a signed sum of `x`, `y` and `z`.
pub open spec fn row_text(a: int, b: int, c: int) -> Seq<char> {
    term_text(a, 'x', true) + term_text(b, 'y', a == 0) + term_text(c, 'z', a == 0 && b == 0)
}

/// The linear part in Jones-faithful notation: its three rows with commas
/// between them.
pub open spec fn rotation_text(m: IntMatrix) -> Seq<char> {
    row_text(m.m11, m.m12, m.m13) + seq![','] + row_text(m.m21, m.m22, m.m23) + seq![',']
        + row_text(m.m31, m.m32, m.m33)
}

/// The remainder of `v` by twelve that keeps the sign of `v`.
pub open spec fn signed_twelfths(v: int) -> int {
    if v >= 0 {
        v % 12
    } else {
        -((-v) % 12)
    }
}

/// One translation component as a signed fraction of a cell edge: nothing
/// for whole cells, else the sign and the fraction that the remainder by
/// twelve makes.
pub open spec fn shift_text(v: int) -> Seq<char> {
    let r = signed_twelfths(v);
    if r > 0 {
        seq!['+'] + fraction_text(r, 12)
    } else if r < 0 {
        seq!['-'] + fraction_text(-r, 12)
    } else {
        Seq::empty()
    }
}

/// The operation in Jones-faithful notation: each row of the linear part
/// followed by its translation component, with commas between the three.
pub open spec fn operation_text(op: AffineOp) -> Seq<char> {
    row_text(op.rot.m11, op.rot.m12, op.rot.m13) + shift_text(op.tr.x) + seq![','] + row_text(
        op.rot.m21,
        op.rot.m22,
        op.rot.m23,
    ) + shift_text(op.tr.y) + seq![','] + row_text(op.rot.m31, op.rot.m32, op.rot.m33)
        + shift_text(op.tr.z)
}

/// Appends one term of a row.
fn push_term(s: &mut String, v: i32, letter: u8, leading: bool)
    requires
        letter < 3,
    ensures
        final(s)@ == old(s)@ + term_text(
            v as int,
            if letter == 0 {
                'x'
            } else if letter == 1 {
                'y'
            } else {
                'z'
            },
            leading,
        ),
{
    proof {
        reveal_strlit("x");
        reveal_strlit("y");
        reveal_strlit("z");
        reveal_strlit("+");
        reveal_strlit("-");
    }
    if v == 0 {
        assert(s@ =~= old(s)@ + Seq::<char>::empty());
        return ;
    }
    if v < 0 {
        s.append("-");
    } else if !leading {
        s.append("+");
    }
    let size: i128 = if v < 0 {
        -(v as i128)
    } else {
        v as i128
    };
    if size != 1 {
        let digits = decimal_string(size);
        s.append(digits.as_str());
    }
    let name: &str = if letter == 0 {
        "x"
    } else if letter == 1 {
        "y"
    } else {
        "z"
    };
    s.append(name);
    assert(s@ =~= old(s)@ + term_text(
        v as int,
        if letter == 0 {
            'x'
        } else if letter == 1 {
            'y'
        } else {
            'z'
        },
        leading,
    ));
}

/// Appends one row of a linear part.
pub(crate) fn push_row(s: &mut String, a: i32, b: i32, c: i32)
    ensures
        final(s)@ == old(s)@ + row_text(a as int, b as int, c as int),
{
    push_term(s, a, 0, true);
    push_term(s, b, 1, a == 0);
    push_term(s, c, 2, a == 0 && b == 0);
    assert(s@ =~= old(s)@ + row_text(a as int, b as int, c as int));
}

/// Appends one translation component.
pub(crate) fn push_shift(s: &mut String, v: i32)
    ensures
        final(s)@ == old(s)@ + shift_text(v as int),
{
    let r: i32 = v % 12;
    assert(r == signed_twelfths(v as int));
    proof {
        reveal_strlit("+");
        reveal_strlit("-");
    }
    if r > 0 {
        s.append("+");
        let f = fraction_string(r as i64, 12);
        s.append(f.as_str());
        assert(s@ =~= old(s)@ + shift_text(v as int));
    } else if r < 0 {
        s.append("-");
        let f = fraction_string(-(r as i64), 12);
        s.append(f.as_str());
        assert(s@ =~= old(s)@ + shift_text(v as int));
    } else {
        assert(s@ =~= old(s)@ + shift_text(v as int));
    }
}

impl SeitzMatrix {
    /// The three rows of the linear part in Jones-faithful notation.
    pub fn rotation_jf_repr(&self) -> (rows: Vec<String>)
        ensures
            rows@.len() == 3,
            rows@[0]@ == row_text(self@.rot.m11, self@.rot.m12, self@.rot.m13),
            rows@[1]@ == row_text(self@.rot.m21, self@.rot.m22, self@.rot.m23),
            rows@[2]@ == row_text(self@.rot.m31, self@.rot.m32, self@.rot.m33),
    {
        let m = self.rotation_part();
        let mut r1 = String::new();
        push_row(&mut r1, m.m11, m.m12, m.m13);
        let mut r2 = String::new();
        push_row(&mut r2, m.m21, m.m22, m.m23);
        let mut r3 = String::new();
        push_row(&mut r3, m.m31, m.m32, m.m33);
        assert(r1@ =~= row_text(self@.rot.m11, self@.rot.m12, self@.rot.m13));
        assert(r2@ =~= row_text(self@.rot.m21, self@.rot.m22, self@.rot.m23));
        assert(r3@ =~= row_text(self@.rot.m31, self@.rot.m32, self@.rot.m33));
        let mut rows: Vec<String> = Vec::new();
        rows.push(r1);
        rows.push(r2);
        rows.push(r3);
        rows
    }

    /// The linear part in Jones-faithful notation, such as `-y,x-y,z`.
    pub fn jones_faithful_repr_rot(&self) -> (s: String)
        ensures
            s@ == rotation_text(self@.rot),
    {
        let m = self.rotation_part();
        let mut s = String::new();
        proof {
            reveal_strlit(",");
        }
        push_row(&mut s, m.m11, m.m12, m.m13);
        s.append(",");
        push_row(&mut s, m.m21, m.m22, m.m23);
        s.append(",");
        push_row(&mut s, m.m31, m.m32, m.m33);
        assert(s@ =~= rotation_text(self@.rot));
        s
    }

    /// The operation in Jones-faithful notation, such as `-y,x-y,z+1/3`.
    pub fn jones_faithful_repr(&self) -> (s: String)
        ensures
            s@ == operation_text(self@),
    {
        let m = self.rotation_part();
        let t = self.translation_part();
        let mut s = String::new();
        proof {
            reveal_strlit(",");
        }
        push_row(&mut s, m.m11, m.m12, m.m13);
        push_shift(&mut s, t.x);
        s.append(",");
        push_row(&mut s, m.m21, m.m22, m.m23);
        push_shift(&mut s, t.y);
        s.append(",");
        push_row(&mut s, m.m31, m.m32, m.m33);
        push_shift(&mut s, t.z);
        assert(s@ =~= operation_text(self@));
        s
    }
}

} // verus!
