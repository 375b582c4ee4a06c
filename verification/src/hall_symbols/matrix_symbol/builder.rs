use vstd::prelude::*;
use crate::hall_symbols::matrix_symbol::notations::{NFold, NFoldDiag, NFoldSub, RotationAxis};
use crate::hall_symbols::matrix_symbol::{MatrixSymbol, MatrixSymbolError, MatrixSymbolView};
use crate::hall_symbols::translation_symbol::TranslationSymbol;

verus! {

/// Collects the parts of a [`MatrixSymbol`] one by one.
#[derive(Debug, Clone)]
pub struct MatrixSymbolBuilder {
    minus_sign: Option<bool>,
    nfold_body: Option<NFold>,
    nfold_sub: Option<NFoldSub>,
    nfold_diag: Option<NFoldDiag>,
    rotation_axis: Option<RotationAxis>,
    translation_symbols: Option<Vec<TranslationSymbol>>,
}

/// What a [`MatrixSymbolBuilder`] has been given so far.
pub struct MatrixSymbolBuilderView {
    pub minus_sign: Option<bool>,
    pub nfold_body: Option<NFold>,
    pub nfold_sub: Option<NFoldSub>,
    pub nfold_diag: Option<NFoldDiag>,
    pub rotation_axis: Option<RotationAxis>,
    pub translation_symbols: Option<Seq<TranslationSymbol>>,
}

impl MatrixSymbolBuilderView {
    /// Nothing given yet.
    pub open spec fn empty() -> MatrixSymbolBuilderView {
        MatrixSymbolBuilderView {
            minus_sign: None,
            nfold_body: None,
            nfold_sub: None,
            nfold_diag: None,
            rotation_axis: None,
            translation_symbols: None,
        }
    }

    /// The symbol that the parts make once the fold is known: a part that
    /// was not given is no sign, no subscript, no mark and the `z` axis.
    pub open spec fn assembled(self) -> MatrixSymbolView {
        MatrixSymbolView {
            minus_sign: if self.minus_sign is Some {
                self.minus_sign->0
            } else {
                false
            },
            nfold_body: self.nfold_body->0,
            nfold_sub: if self.nfold_sub is Some {
                self.nfold_sub->0
            } else {
                NFoldSub::Absent
            },
            nfold_diag: if self.nfold_diag is Some {
                self.nfold_diag->0
            } else {
                NFoldDiag::Absent
            },
            rotation_axis: if self.rotation_axis is Some {
                self.rotation_axis->0
            } else {
                RotationAxis::Z
            },
            translation_symbols: self.translation_symbols,
        }
    }
}

impl View for MatrixSymbolBuilder {
    type V = MatrixSymbolBuilderView;

    closed spec fn view(&self) -> MatrixSymbolBuilderView {
        MatrixSymbolBuilderView {
            minus_sign: self.minus_sign,
            nfold_body: self.nfold_body,
            nfold_sub: self.nfold_sub,
            nfold_diag: self.nfold_diag,
            rotation_axis: self.rotation_axis,
            translation_symbols: match self.translation_symbols {
                Some(v) => Some(v@),
                None => None,
            },
        }
    }
}

impl Default for MatrixSymbolBuilder {
    fn default() -> (b: MatrixSymbolBuilder)
        ensures
            b@ == MatrixSymbolBuilderView::empty(),
    {
        MatrixSymbolBuilder {
            minus_sign: None,
            nfold_body: None,
            nfold_sub: None,
            nfold_diag: None,
            rotation_axis: None,
            translation_symbols: None,
        }
    }
}

impl MatrixSymbolBuilder {
    pub fn set_minus_sign(&mut self, minus_sign: bool) -> (ret: &mut Self)
        ensures
            ret@ == (MatrixSymbolBuilderView { minus_sign: Some(minus_sign), ..old(self)@ }),
            *final(self) == *final(ret),
    {
        self.minus_sign = Some(minus_sign);
        self
    }

    pub fn set_nfold_body(&mut self, nfold_body: NFold) -> (ret: &mut Self)
        ensures
            ret@ == (MatrixSymbolBuilderView { nfold_body: Some(nfold_body), ..old(self)@ }),
            *final(self) == *final(ret),
    {
        self.nfold_body = Some(nfold_body);
        self
    }

    pub fn set_nfold_sub(&mut self, nfold_sub: NFoldSub) -> (ret: &mut Self)
        ensures
            ret@ == (MatrixSymbolBuilderView { nfold_sub: Some(nfold_sub), ..old(self)@ }),
            *final(self) == *final(ret),
    {
        self.nfold_sub = Some(nfold_sub);
        self
    }

    pub fn set_nfold_diag(&mut self, nfold_diag: NFoldDiag) -> (ret: &mut Self)
        ensures
            ret@ == (MatrixSymbolBuilderView { nfold_diag: Some(nfold_diag), ..old(self)@ }),
            *final(self) == *final(ret),
    {
        self.nfold_diag = Some(nfold_diag);
        self
    }

    pub fn set_rotation_axis(&mut self, rotation_axis: RotationAxis) -> (ret: &mut Self)
        ensures
            ret@ == (MatrixSymbolBuilderView {
                rotation_axis: Some(rotation_axis),
                ..old(self)@
            }),
            *final(self) == *final(ret),
    {
        self.rotation_axis = Some(rotation_axis);
        self
    }

    /// Gives the glide letters, or takes them away again with `None`.
    pub fn set_translation_symbols(
        &mut self,
        translation_symbols: Option<Vec<TranslationSymbol>>,
    ) -> (ret: &mut Self)
        ensures
            ret@ == (MatrixSymbolBuilderView {
                translation_symbols: match translation_symbols {
                    Some(v) => Some(v@),
                    None => None,
                },
                ..old(self)@
            }),
            *final(self) == *final(ret),
    {
        self.translation_symbols = translation_symbols;
        self
    }

    /// The symbol made of the parts given so far; it needs a fold.
    pub fn build<'a>(&mut self) -> (r: Result<MatrixSymbol, MatrixSymbolError<'a>>)
        ensures
            final(self)@ == old(self)@,
            old(self)@.nfold_body is Some ==> r is Ok && r->Ok_0@ == old(self)@.assembled(),
            old(self)@.nfold_body is None ==> r is Err && r->Err_0 is IncompleteFields,
    {
        match self.nfold_body {
            Some(fold) => {
                let symbols = match &self.translation_symbols {
                    Some(v) => Some(copy_symbols(v)),
                    None => None,
                };
                Ok(
                    MatrixSymbol::from_parts(
                        match self.minus_sign {
                            Some(b) => b,
                            None => false,
                        },
                        fold,
                        match self.nfold_sub {
                            Some(s) => s,
                            None => NFoldSub::Absent,
                        },
                        match self.nfold_diag {
                            Some(d) => d,
                            None => NFoldDiag::Absent,
                        },
                        match self.rotation_axis {
                            Some(a) => a,
                            None => RotationAxis::Z,
                        },
                        symbols,
                    ),
                )
            },
            None => Err(MatrixSymbolError::IncompleteFields),
        }
    }
}

/// A copy of a list of glide letters.
pub fn copy_symbols(v: &Vec<TranslationSymbol>) -> (r: Vec<TranslationSymbol>)
    ensures
        r@ == v@,
{
    let mut r: Vec<TranslationSymbol> = Vec::new();
    let mut i: usize = 0;
    while i < v.len()
        invariant
            0 <= i <= v.len(),
            r@ == v@.subrange(0, i as int),
        decreases v.len() - i,
    {
        r.push(v[i]);
        assert(r@ == v@.subrange(0, i + 1));
        i = i + 1;
    }
    assert(v@.subrange(0, v.len() as int) == v@);
    r
}

} // verus!
