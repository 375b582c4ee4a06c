use vstd::prelude::*;
use vstd::string::*;
use crate::hall_symbols::matrix_symbol::matrices::seitz_mat_impl::wide_row_dot;
use crate::hall_symbols::matrix_symbol::matrices::{AffineOp, SeitzMatrix};
use crate::hall_symbols::translation_symbol::{IntVector, Vector3};
use crate::utils::{decimal_string, decimal_text, positive_mod_stbn_i128};

pub mod parser;

verus! {

/// Denominator of the entries of a change-of-basis matrix.
pub const CHANGE_OF_BASIS_BASE_NUMBER: i32 = 72;

/// The shift of origin at the end of a Hall symbol, in twelfths of a cell
/// edge.
#[derive(Debug, Clone, Copy, PartialEq, Eq, Structural, PartialOrd, Ord, Hash)]
pub struct OriginShift {
    pub va: i32,
    pub vb: i32,
    pub vc: i32,
}

impl OriginShift {
    /// A component as it is stored: unchanged strictly between -12 and 12;
    /// otherwise brought to the same residue modulo 12 in `[1, 24)`, the
    /// remainder keeping the sign of the component before 12 is added.
    pub open spec fn stored(v: int) -> int {
        if -12 < v < 12 {
            v
        } else if v >= 12 {
            v % 12 + 12
        } else {
            12 - ((-v) % 12)
        }
    }

    /// The shift as a vector.
    pub open spec fn vector(self) -> IntVector {
        IntVector { x: self.va as int, y: self.vb as int, z: self.vc as int }
    }

    /// The operation `m` seen from the shifted origin: the translation by
    /// the shift, after `m`, after the translation back, with the
    /// translation of the result reduced into `[0, 12)`.
    pub open spec fn conjugate(self, m: AffineOp) -> AffineOp {
        AffineOp::translation(self.vector()).raw_compose(m).raw_compose(
            AffineOp::translation(self.vector().negated()),
        ).canonical()
    }

    /// The shift as text: its three components between brackets.
    pub open spec fn text(self) -> Seq<char> {
        seq!['('] + decimal_text(self.va as int) + seq![' '] + decimal_text(self.vb as int)
            + seq![' '] + decimal_text(self.vc as int) + seq![')']
    }

    pub fn to_string(&self) -> (s: String)
        ensures
            s@ == self.text(),
    {
        let mut s = String::new();
        proof {
            reveal_strlit("(");
            reveal_strlit(" ");
            reveal_strlit(")");
        }
        s.append("(");
        s.append(decimal_string(self.va as i128).as_str());
        s.append(" ");
        s.append(decimal_string(self.vb as i128).as_str());
        s.append(" ");
        s.append(decimal_string(self.vc as i128).as_str());
        s.append(")");
        assert(s@ =~= self.text());
        s
    }

    fn store(v: i32) -> (r: i32)
        ensures
            r == OriginShift::stored(v as int),
    {
        if -12 < v && v < 12 {
            v
        } else {
            v % 12 + 12
        }
    }

    pub fn new(va: i32, vb: i32, vc: i32) -> (s: OriginShift)
        ensures
            s.va == OriginShift::stored(va as int),
            s.vb == OriginShift::stored(vb as int),
            s.vc == OriginShift::stored(vc as int),
    {
        OriginShift {
            va: OriginShift::store(va),
            vb: OriginShift::store(vb),
            vc: OriginShift::store(vc),
        }
    }

    /// The operation seen from the shifted origin.
    pub fn shifted_matrix(&self, seitz_matrix: SeitzMatrix) -> (r: SeitzMatrix)
        ensures
            r@ == self.conjugate(seitz_matrix@),
            r@.rot == seitz_matrix@.rot,
            r@.tr.is_reduced(),
    {
        let m = seitz_matrix.rotation_part();
        let t = seitz_matrix.translation_part();
        let x: i128 = (t.x as i128) + (self.va as i128) - wide_row_dot(
            m.m11,
            m.m12,
            m.m13,
            self.va,
            self.vb,
            self.vc,
        );
        let y: i128 = (t.y as i128) + (self.vb as i128) - wide_row_dot(
            m.m21,
            m.m22,
            m.m23,
            self.va,
            self.vb,
            self.vc,
        );
        let z: i128 = (t.z as i128) + (self.vc as i128) - wide_row_dot(
            m.m31,
            m.m32,
            m.m33,
            self.va,
            self.vb,
            self.vc,
        );
        proof {
            lemma_conjugate_formula(seitz_matrix@, self.vector());
        }
        SeitzMatrix::from_parts(
            m,
            Vector3 {
                x: positive_mod_stbn_i128(x),
                y: positive_mod_stbn_i128(y),
                z: positive_mod_stbn_i128(z),
            },
        )
    }
}

impl Default for OriginShift {
    fn default() -> (s: OriginShift)
        ensures
            s == (OriginShift { va: 0, vb: 0, vc: 0 }),
    {
        OriginShift::new(0, 0, 0)
    }
}

/// Conjugating by a translation keeps the linear part and moves the
/// translation by the shift less its image.
pub proof fn lemma_conjugate_formula(m: AffineOp, s: IntVector)
    ensures
        AffineOp::translation(s).raw_compose(m).raw_compose(AffineOp::translation(s.negated()))
            == (AffineOp { rot: m.rot, tr: m.tr.plus(s).minus(m.rot.apply(s)) }),
{
    let id = crate::hall_symbols::matrix_symbol::matrices::IntMatrix::identity();
    let first = AffineOp::translation(s).raw_compose(m);
    assert(id.times(m.rot) == m.rot);
    assert(id.apply(m.tr) == m.tr);
    assert(first == (AffineOp { rot: m.rot, tr: m.tr.plus(s) }));
    assert(m.rot.times(id) == m.rot);
    let n = s.negated();
    assert(m.rot.apply(n).x == -m.rot.apply(s).x) by (nonlinear_arith)
        requires
            m.rot.apply(n).x == m.rot.m11 * (-s.x) + m.rot.m12 * (-s.y) + m.rot.m13 * (-s.z),
            m.rot.apply(s).x == m.rot.m11 * s.x + m.rot.m12 * s.y + m.rot.m13 * s.z,
    ;
    assert(m.rot.apply(n).y == -m.rot.apply(s).y) by (nonlinear_arith)
        requires
            m.rot.apply(n).y == m.rot.m21 * (-s.x) + m.rot.m22 * (-s.y) + m.rot.m23 * (-s.z),
            m.rot.apply(s).y == m.rot.m21 * s.x + m.rot.m22 * s.y + m.rot.m23 * s.z,
    ;
    assert(m.rot.apply(n).z == -m.rot.apply(s).z) by (nonlinear_arith)
        requires
            m.rot.apply(n).z == m.rot.m31 * (-s.x) + m.rot.m32 * (-s.y) + m.rot.m33 * (-s.z),
            m.rot.apply(s).z == m.rot.m31 * s.x + m.rot.m32 * s.y + m.rot.m33 * s.z,
    ;
}

/// What is stored for a component of an origin shift differs from the
/// component by whole cells only, and not at all strictly between -12
/// and 12.
pub proof fn law_stored_component(v: int)
    ensures
        (OriginShift::stored(v) - v) % 12 == 0,
        -12 < v < 12 ==> OriginShift::stored(v) == v,
{
    if v >= 12 {
        assert((v % 12 + 12 - v) % 12 == 0) by (nonlinear_arith);
    } else if v <= -12 {
        assert((12 - ((-v) % 12) - v) % 12 == 0) by (nonlinear_arith);
    }
}

} // verus!
