use vstd::prelude::*;
use vstd::string::*;
use crate::hall_symbols::translation_symbol::TranslationSymbol;

pub mod builder;
pub mod matrices;
pub mod notations;
pub mod parser;
pub mod rotation_order;

pub use builder::{MatrixSymbolBuilder, MatrixSymbolBuilderView};
pub use matrices::{AffineOp, IntMatrix, Matrix3, SeitzMatrix, SeitzMatrixError};
pub use notations::{NFold, NFoldDiag, NFoldSub, RotationAxis, RotationType};

verus! {

/// One generator of a Hall symbol, such as `-2ac` or `4_1`.
#[derive(Debug, Clone, PartialEq, Eq, PartialOrd, Ord)]
pub struct MatrixSymbol {
    minus_sign: bool,
    nfold_body: NFold,
    nfold_sub: NFoldSub,
    nfold_diag: NFoldDiag,
    rotation_axis: RotationAxis,
    translation_symbols: Option<Vec<TranslationSymbol>>,
}

/// The content of a [`MatrixSymbol`].
pub struct MatrixSymbolView {
    /// Whether the rotation is followed by the inversion.
    pub minus_sign: bool,
    pub nfold_body: NFold,
    pub nfold_sub: NFoldSub,
    pub nfold_diag: NFoldDiag,
    pub rotation_axis: RotationAxis,
    /// The glide letters, in the order written; `None` where the symbol
    /// has none.
    pub translation_symbols: Option<Seq<TranslationSymbol>>,
}

impl View for MatrixSymbol {
    type V = MatrixSymbolView;

    closed spec fn view(&self) -> MatrixSymbolView {
        MatrixSymbolView {
            minus_sign: self.minus_sign,
            nfold_body: self.nfold_body,
            nfold_sub: self.nfold_sub,
            nfold_diag: self.nfold_diag,
            rotation_axis: self.rotation_axis,
            translation_symbols: match self.translation_symbols {
                Some(v) => Some(v@),
                None => None,
            },
        }
    }
}

/// The texts of a run of glide letters, one after the other.
pub open spec fn letters_text(letters: Seq<TranslationSymbol>) -> Seq<char>
    decreases letters.len(),
{
    if letters.len() == 0 {
        Seq::empty()
    } else {
        letters_text(letters.drop_last()) + letters.last().text()
    }
}

impl MatrixSymbolView {
    /// The symbol as text: the sign, the fold, the axis, the mark, the
    /// subscript and the glide letters.
    pub open spec fn text(self) -> Seq<char> {
        (if self.minus_sign {
            seq!['-']
        } else {
            Seq::empty()
        }) + self.nfold_body.text() + self.rotation_axis.text() + self.nfold_diag.text()
            + self.nfold_sub.text() + (match self.translation_symbols {
            Some(letters) => letters_text(letters),
            None => Seq::empty(),
        })
    }
}

impl MatrixSymbol {
    pub fn to_string(&self) -> (s: String)
        ensures
            s@ == self@.text(),
    {
        let mut s = String::new();
        proof {
            reveal_strlit("-");
        }
        if self.minus_sign {
            s.append("-");
        }
        s.append(self.nfold_body.to_string().as_str());
        s.append(self.rotation_axis.to_string().as_str());
        s.append(self.nfold_diag.to_string().as_str());
        s.append(self.nfold_sub.to_string().as_str());
        let ghost head = s@;
        match &self.translation_symbols {
            Some(letters) => {
                let mut i: usize = 0;
                assert(letters@.subrange(0, 0) =~= Seq::<TranslationSymbol>::empty());
                while i < letters.len()
                    invariant
                        0 <= i <= letters.len(),
                        s@ == head + letters_text(letters@.subrange(0, i as int)),
                    decreases letters.len() - i,
                {
                    s.append(letters[i].to_string().as_str());
                    proof {
                        let upto = letters@.subrange(0, i + 1);
                        assert(upto.drop_last() =~= letters@.subrange(0, i as int));
                        assert(upto.last() == letters@[i as int]);
                        assert(s@ =~= head + letters_text(upto));
                    }
                    i = i + 1;
                }
                assert(letters@.subrange(0, letters.len() as int) =~= letters@);
            },
            None => {},
        }
        assert(s@ =~= self@.text());
        s
    }

    /// The symbol with the given parts.
    pub fn from_parts(
        minus_sign: bool,
        nfold_body: NFold,
        nfold_sub: NFoldSub,
        nfold_diag: NFoldDiag,
        rotation_axis: RotationAxis,
        translation_symbols: Option<Vec<TranslationSymbol>>,
    ) -> (m: MatrixSymbol)
        ensures
            m@ == (MatrixSymbolView {
                minus_sign,
                nfold_body,
                nfold_sub,
                nfold_diag,
                rotation_axis,
                translation_symbols: match translation_symbols {
                    Some(v) => Some(v@),
                    None => None,
                },
            }),
    {
        MatrixSymbol {
            minus_sign,
            nfold_body,
            nfold_sub,
            nfold_diag,
            rotation_axis,
            translation_symbols,
        }
    }

    /// A copy of the symbol.
    pub fn clone_symbol(&self) -> (m: MatrixSymbol)
        ensures
            m@ == self@,
    {
        MatrixSymbol {
            minus_sign: self.minus_sign,
            nfold_body: self.nfold_body,
            nfold_sub: self.nfold_sub,
            nfold_diag: self.nfold_diag,
            rotation_axis: self.rotation_axis,
            translation_symbols: match &self.translation_symbols {
                Some(v) => Some(crate::hall_symbols::matrix_symbol::builder::copy_symbols(v)),
                None => None,
            },
        }
    }

    pub fn new_builder() -> (b: MatrixSymbolBuilder)
        ensures
            b@ == MatrixSymbolBuilderView::empty(),
    {
        MatrixSymbolBuilder::default()
    }

    pub fn minus_sign(&self) -> (r: bool)
        ensures
            r == self@.minus_sign,
    {
        self.minus_sign
    }

    pub fn nfold_body(&self) -> (r: NFold)
        ensures
            r == self@.nfold_body,
    {
        self.nfold_body
    }

    pub fn nfold_sub(&self) -> (r: NFoldSub)
        ensures
            r == self@.nfold_sub,
    {
        self.nfold_sub
    }

    pub fn nfold_diag(&self) -> (r: NFoldDiag)
        ensures
            r == self@.nfold_diag,
    {
        self.nfold_diag
    }

    pub fn rotation_axis(&self) -> (r: RotationAxis)
        ensures
            r == self@.rotation_axis,
    {
        self.rotation_axis
    }

    pub fn translation_symbols(&self) -> (r: Option<&Vec<TranslationSymbol>>)
        ensures
            match r {
                Some(v) => self@.translation_symbols == Some(v@),
                None => self@.translation_symbols is None,
            },
    {
        self.translation_symbols.as_ref()
    }

    pub fn set_minus_sign(&mut self, minus_sign: bool)
        ensures
            final(self)@ == (MatrixSymbolView { minus_sign, ..old(self)@ }),
    {
        self.minus_sign = minus_sign;
    }

    pub fn set_nfold_body(&mut self, nfold_body: NFold)
        ensures
            final(self)@ == (MatrixSymbolView { nfold_body, ..old(self)@ }),
    {
        self.nfold_body = nfold_body;
    }

    pub fn set_nfold_sub(&mut self, nfold_sub: NFoldSub)
        ensures
            final(self)@ == (MatrixSymbolView { nfold_sub, ..old(self)@ }),
    {
        self.nfold_sub = nfold_sub;
    }

    pub fn set_nfold_diag(&mut self, nfold_diag: NFoldDiag)
        ensures
            final(self)@ == (MatrixSymbolView { nfold_diag, ..old(self)@ }),
    {
        self.nfold_diag = nfold_diag;
    }

    pub fn set_rotation_axis(&mut self, rotation_axis: RotationAxis)
        ensures
            final(self)@ == (MatrixSymbolView { rotation_axis, ..old(self)@ }),
    {
        self.rotation_axis = rotation_axis;
    }
}

/// Why a symbol could not be built or turned into a matrix.
#[derive(Debug, Clone)]
pub enum MatrixSymbolError<'a> {
    /// The symbol names no operation.
    Invalid(&'a MatrixSymbol),
    /// The builder was not given a fold.
    IncompleteFields,
}

} // verus!
