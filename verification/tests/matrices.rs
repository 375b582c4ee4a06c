use crystal_symmetry::hall_symbols::matrix_symbol::matrices::{Matrix3, SeitzMatrixError};
use crystal_symmetry::hall_symbols::matrix_symbol::{
    MatrixSymbol, MatrixSymbolError, NFold, NFoldDiag, NFoldSub, RotationAxis, RotationType,
};
use crystal_symmetry::hall_symbols::origin_shift::OriginShift;
use crystal_symmetry::hall_symbols::translation_symbol::{TranslationSymbol, Vector3};
use crystal_symmetry::hall_symbols::{SeitzMatrix, SymmetryElement};
use std::collections::HashSet;

fn symbol(text: &str) -> MatrixSymbol {
    let mut rest = text;
    let parsed = MatrixSymbol::try_from_str(&mut rest).unwrap();
    assert_eq!(rest, "");
    parsed
}

#[test]
fn test_sm_eq() {
    let m1 = SeitzMatrix::new([[0, -1, 0, 0], [1, -1, 0, 0], [0, 0, 1, 2], [0, 0, 0, 1]]);
    let m2 = SeitzMatrix::new([[0, -1, 0, 0], [1, -1, 0, 0], [0, 0, 1, -10], [0, 0, 0, 1]]);
    assert_eq!(m1.jones_faithful_repr(), "-y,x-y,z+1/6");
    assert_eq!(m1.powi(2).jones_faithful_repr(), "-x+y,-x,z+1/3");
    assert!(m1.powi(3) == m2.powi(3));
    assert_eq!(m1.powi(3).jones_faithful_repr(), "x,y,z+1/2");
    let m3 = SeitzMatrix::new([[-1, 0, 0, 0], [0, -1, 0, 0], [0, 0, 1, 6], [0, 0, 0, 1]]);
    assert_eq!(m3.jones_faithful_repr(), "-x,-y,z+1/2");
    let m4 = SeitzMatrix::new([[-1, 0, 0, 0], [0, -1, 0, 0], [0, 0, 1, -6], [0, 0, 0, 1]]);
    assert_eq!(m4.jones_faithful_repr(), "-x,-y,z-1/2");
    assert!(m4 == m3);
    let mut set = HashSet::new();
    set.insert(m3);
    assert_eq!(set.len(), 1);
    assert_eq!((11 - (-1)) % 12, 0);
    assert_eq!(m4.jones_faithful_repr_rot(), "-x,-y,z");
    assert_eq!(m4.rotation_jf_repr(), vec!["-x", "-y", "z"]);
}

#[test]
fn test_eigen() {
    let m = SeitzMatrix::new([[-1, 0, 0, 0], [0, 0, 1, 0], [0, 1, 0, 0], [0, 0, 0, 1]]);
    assert_eq!(m.eigenvector(), Some(Vector3::new(0, 1, 1)));
    // A mirror: the direction that is reversed.
    let mirror = SeitzMatrix::new([[1, 0, 0, 0], [0, 1, 0, 0], [0, 0, -1, 0], [0, 0, 0, 1]]);
    assert_eq!(mirror.eigenvector(), Some(Vector3::new(0, 0, 1)));
    // The identity fixes every direction; the first in order is taken.
    assert_eq!(SeitzMatrix::identity().eigenvector(), Some(Vector3::new(1, 1, 1)));
    assert_eq!(symbol("3*").seitz_matrix().unwrap().eigenvector(), Some(Vector3::new(1, 1, 1)));
    assert_eq!(symbol("4x").seitz_matrix().unwrap().eigenvector(), Some(Vector3::new(1, 0, 0)));
    // A matrix of determinant 2 that doubles no direction.
    let odd = SeitzMatrix::new([[0, 1, 0, 0], [0, 0, 1, 0], [2, 0, 0, 0], [0, 0, 0, 1]]);
    assert_eq!(odd.det(), 2);
    assert_eq!(odd.eigenvector(), None);
}

#[test]
fn matrix_symbol_build() {
    let m2z = MatrixSymbol::new_builder().set_nfold_body(NFold::N2).build().unwrap();
    let m2yd = MatrixSymbol::new_builder()
        .set_nfold_body(NFold::N2)
        .set_rotation_axis(RotationAxis::Y)
        .set_translation_symbols(Some(vec![TranslationSymbol::D]))
        .build()
        .unwrap();
    let m1 = m2z.seitz_matrix().unwrap() * m2yd.seitz_matrix().unwrap();
    assert_eq!(m1.jones_faithful_repr(), "x+3/4,-y+3/4,-z+1/4");
    let m2 = m2yd.seitz_matrix().unwrap() * m2z.seitz_matrix().unwrap();
    assert_eq!(m2.jones_faithful_repr(), "x+1/4,-y+1/4,-z+1/4");
    assert_eq!((m2yd.seitz_matrix().unwrap() * m1).jones_faithful_repr(), "-x+1/2,-y,z");
    assert!(matches!(
        MatrixSymbol::new_builder().set_minus_sign(true).build(),
        Err(MatrixSymbolError::IncompleteFields)
    ));
    let full = MatrixSymbol::new_builder()
        .set_minus_sign(true)
        .set_nfold_body(NFold::N6)
        .set_nfold_sub(NFoldSub::N5)
        .set_nfold_diag(NFoldDiag::Absent)
        .set_rotation_axis(RotationAxis::X)
        .build()
        .unwrap();
    assert!(full.minus_sign());
    assert_eq!(full.nfold_body(), NFold::N6);
    assert_eq!(full.nfold_sub(), NFoldSub::N5);
    assert_eq!(full.nfold_diag(), NFoldDiag::Absent);
    assert_eq!(full.rotation_axis(), RotationAxis::X);
    assert_eq!(full.translation_symbols(), None);
    assert_eq!(full.to_string(), "-6x5");
    let mut changed = full.clone();
    changed.set_minus_sign(false);
    changed.set_nfold_body(NFold::N3);
    changed.set_nfold_sub(NFoldSub::N1);
    changed.set_nfold_diag(NFoldDiag::Asterisk);
    changed.set_rotation_axis(RotationAxis::Omitted);
    assert_eq!(changed.to_string(), "3*1");
    assert_ne!(changed, full);
}

#[test]
fn body_diagonal_has_order_three() {
    let m = symbol("3*").seitz_matrix().unwrap();
    assert_eq!(m.matrix(), [[0, 0, 1, 0], [1, 0, 0, 0], [0, 1, 0, 0], [0, 0, 0, 1]]);
    let square = m * m;
    let cube = square * m;
    assert_eq!(cube.matrix(), SeitzMatrix::identity().matrix());
    assert_eq!(square.matrix(), m.try_inverse().unwrap().matrix());
    assert_eq!(square.matrix(), m.powi(-1).matrix());
    assert_eq!(m.powi(3).matrix(), SeitzMatrix::identity().matrix());
    assert_eq!(m.powi(0).matrix(), SeitzMatrix::identity().matrix());
}

#[test]
fn rotation_table_entries() {
    let row = |text: &str| symbol(text).seitz_matrix().unwrap().jones_faithful_repr();
    assert_eq!(row("1"), "x,y,z");
    assert_eq!(row("-1"), "-x,-y,-z");
    assert_eq!(row("2x"), "x,-y,-z");
    assert_eq!(row("2y"), "-x,y,-z");
    assert_eq!(row("2z"), "-x,-y,z");
    assert_eq!(row("3x"), "x,-z,y-z");
    assert_eq!(row("3y"), "-x+z,y,-x");
    assert_eq!(row("3z"), "-y,x-y,z");
    assert_eq!(row("4x"), "x,-z,y");
    assert_eq!(row("4y"), "z,y,-x");
    assert_eq!(row("4z"), "-y,x,z");
    assert_eq!(row("6x"), "x,y-z,y");
    assert_eq!(row("6y"), "z,y,-x+z");
    assert_eq!(row("6z"), "x-y,x,z");
    assert_eq!(row("3*"), "z,x,y");
    assert_eq!(row("-2z"), "x,y,-z");
    assert_eq!(row("-4z"), "y,-x,-z");
    let marked = |diag: NFoldDiag, axis: RotationAxis| {
        MatrixSymbol::new_builder()
            .set_nfold_body(NFold::N2)
            .set_nfold_diag(diag)
            .set_rotation_axis(axis)
            .build()
            .unwrap()
            .seitz_matrix()
            .unwrap()
            .jones_faithful_repr()
    };
    assert_eq!(marked(NFoldDiag::SingleQuote, RotationAxis::X), "-x,-z,-y");
    assert_eq!(marked(NFoldDiag::SingleQuote, RotationAxis::Y), "-z,-y,-x");
    assert_eq!(marked(NFoldDiag::SingleQuote, RotationAxis::Z), "-y,-x,-z");
    assert_eq!(marked(NFoldDiag::DoubleQuote, RotationAxis::X), "-x,z,y");
    assert_eq!(marked(NFoldDiag::DoubleQuote, RotationAxis::Y), "z,-y,x");
    assert_eq!(marked(NFoldDiag::DoubleQuote, RotationAxis::Z), "y,x,-z");
}

#[test]
fn screw_and_glide_translations() {
    let tr = |text: &str| symbol(text).seitz_matrix().unwrap().translation_part();
    assert_eq!(tr("3z1"), Vector3::new(0, 0, 4));
    assert_eq!(tr("3x2"), Vector3::new(8, 0, 0));
    assert_eq!(tr("4y1"), Vector3::new(0, 3, 0));
    assert_eq!(tr("4z3"), Vector3::new(0, 0, 9));
    assert_eq!(tr("6z1"), Vector3::new(0, 0, 2));
    assert_eq!(tr("6z2"), Vector3::new(0, 0, 4));
    assert_eq!(tr("6z4"), Vector3::new(0, 0, 8));
    assert_eq!(tr("6z5"), Vector3::new(0, 0, 10));
    assert_eq!(tr("2z1"), Vector3::new(0, 0, 0));
    assert_eq!(tr("2za"), Vector3::new(6, 0, 0));
    assert_eq!(tr("2zb"), Vector3::new(0, 6, 0));
    assert_eq!(tr("2zc"), Vector3::new(0, 0, 6));
    assert_eq!(tr("2zn"), Vector3::new(6, 6, 6));
    assert_eq!(tr("2zu"), Vector3::new(3, 0, 0));
    assert_eq!(tr("2zv"), Vector3::new(0, 3, 0));
    assert_eq!(tr("2zw"), Vector3::new(0, 0, 3));
    assert_eq!(tr("2zd"), Vector3::new(3, 3, 3));
    assert_eq!(tr("2zabn"), Vector3::new(0, 0, 6));
    assert_eq!(tr("-2xdddd"), Vector3::new(0, 0, 0));
    assert_eq!(TranslationSymbol::Invalid.translation_vector(), Vector3::zeros());
    for bad in ["6z3", "4z2", "3z3", "3z4", "4z5", "41", "6'", "3'", "2*", "4\"", "2'"] {
        let parsed = symbol(bad);
        assert!(
            matches!(parsed.seitz_matrix(), Err(MatrixSymbolError::Invalid(s)) if *s == parsed),
            "{}",
            bad
        );
    }
    let invalid = MatrixSymbol::new_builder().set_nfold_body(NFold::Invalid).build().unwrap();
    assert!(matches!(invalid.seitz_matrix(), Err(MatrixSymbolError::Invalid(_))));
}

#[test]
fn rotation_types() {
    let kind = |text: &str| symbol(text).seitz_matrix().unwrap().rotation_type().unwrap();
    assert_eq!(kind("1"), RotationType::E);
    assert_eq!(kind("2x"), RotationType::N2);
    assert_eq!(kind("3z"), RotationType::N3);
    assert_eq!(kind("4y"), RotationType::N4);
    assert_eq!(kind("6z"), RotationType::N6);
    assert_eq!(kind("-1"), RotationType::I);
    assert_eq!(kind("-2x"), RotationType::M);
    assert_eq!(kind("-3z"), RotationType::M3);
    assert_eq!(kind("-4y"), RotationType::M4);
    assert_eq!(kind("-6z"), RotationType::M6);
    let raw = [[1, 1, 0, 5], [0, 1, 0, 0], [0, 0, 2, 0], [0, 0, 0, 1]];
    assert_eq!(
        SeitzMatrix::new(raw).rotation_type(),
        Err(SeitzMatrixError::NotRotationMatrix(raw))
    );
    assert_eq!(symbol("6z").seitz_matrix().unwrap().equiv_num(), 6);
    assert_eq!(symbol("-3z").seitz_matrix().unwrap().equiv_num(), 3);
    assert_eq!(symbol("-1").seitz_matrix().unwrap().equiv_num(), 1);
    assert_eq!(symbol("4x").seitz_matrix().unwrap().det(), 1);
    assert_eq!(symbol("-4x").seitz_matrix().unwrap().det(), -1);
    assert_eq!(symbol("-4x").seitz_matrix().unwrap().trace(), -1);
    assert_eq!(
        symbol("-4x").seitz_matrix().unwrap().proper_rotation(),
        Some(symbol("4x").seitz_matrix().unwrap().rotation_part())
    );
    assert_eq!(SeitzMatrix::identity().proper_rotation(), None);
    assert_eq!(SeitzMatrix::inversion().proper_rotation(), None);
    assert_eq!(SeitzMatrix::inversion().jones_faithful_repr(), "-x,-y,-z");
    assert!(symbol("4x").seitz_matrix().unwrap().is_unique_rotation(&SeitzMatrix::identity()));
    assert!(!symbol("-1").seitz_matrix().unwrap().is_unique_rotation(&SeitzMatrix::identity()));
    assert!(!SeitzMatrix::identity().is_unique_rotation(&SeitzMatrix::identity()));
}

#[test]
fn rotation_type_order() {
    use_order(RotationType::E, RotationType::N6, true);
    use_order(RotationType::N6, RotationType::N4, true);
    use_order(RotationType::N4, RotationType::M4, true);
    use_order(RotationType::M4, RotationType::N3, true);
    use_order(RotationType::N3, RotationType::M3, true);
    use_order(RotationType::M3, RotationType::N2, true);
    use_order(RotationType::N2, RotationType::M, true);
    use_order(RotationType::M, RotationType::I, true);
    use_order(RotationType::I, RotationType::E, false);
    assert!(RotationType::N6 < RotationType::M6);
    assert!(RotationType::M6 < RotationType::N6);
    assert_eq!(
        RotationType::N3.partial_cmp(&RotationType::N3),
        Some(std::cmp::Ordering::Equal)
    );
    assert_eq!(RotationType::M3.to_string(), "3\u{0305}");
    assert_eq!(RotationType::default(), RotationType::E);
}

fn use_order(a: RotationType, b: RotationType, less: bool) {
    assert_eq!(a < b, less);
    assert_eq!(b > a, less);
}

#[test]
fn composition_and_translation() {
    let a = SeitzMatrix::new([[0, -1, 0, 7], [1, 0, 0, -5], [0, 0, 1, 30], [0, 0, 0, 1]]);
    let b = SeitzMatrix::new([[1, 0, 0, 3], [0, -1, 0, 4], [0, 0, -1, 5], [0, 0, 0, 1]]);
    // rot(a) * (3, 4, 5) + (7, -5, 30) = (-4 + 7, 3 - 5, 5 + 30) = (3, -2, 35)
    assert_eq!((a * b).matrix(), [[0, 1, 0, 3], [1, 0, 0, 10], [0, 0, -1, 11], [0, 0, 0, 1]]);
    assert_eq!((a + Vector3::new(-8, 5, 0)).matrix(), [[0, -1, 0, 11], [1, 0, 0, 0], [0, 0, 1, 6], [
        0,
        0,
        0,
        1
    ]]);
    assert_eq!(a.checked_compose(&b).unwrap().matrix(), (a * b).matrix());
    let huge = SeitzMatrix::new([[i32::MAX, 0, 0, 0], [0, 1, 0, 0], [0, 0, 1, 0], [0, 0, 0, 1]]);
    assert_eq!(huge.checked_compose(&huge), None);
    let inverse = a.try_inverse().unwrap();
    assert_eq!(inverse.matrix(), [[0, 1, 0, 5], [-1, 0, 0, 7], [0, 0, 1, 6], [0, 0, 0, 1]]);
    assert_eq!((inverse * a).matrix(), SeitzMatrix::identity().matrix());
    assert_eq!((a * inverse).matrix(), SeitzMatrix::identity().matrix());
    assert_eq!(huge.try_inverse(), None);
    assert_eq!(a.powi(-2).matrix(), (inverse * inverse).matrix());
    assert_eq!(a.powi(1).matrix(), a.matrix());
    assert_eq!(a.rotation_part(), Matrix3 {
        m11: 0,
        m12: -1,
        m13: 0,
        m21: 1,
        m22: 0,
        m23: 0,
        m31: 0,
        m32: 0,
        m33: 1
    });
    assert_eq!(a.translation_part(), Vector3::new(7, -5, 30));
    let mut moved = a;
    moved.set_translation_part(Vector3::new(1, 2, 3));
    assert_eq!(moved.matrix(), [[0, -1, 0, 1], [1, 0, 0, 2], [0, 0, 1, 3], [0, 0, 0, 1]]);
    assert!(a == (a + Vector3::new(12, -24, 36)));
    assert!(a != (a + Vector3::new(1, 0, 0)));
    assert!(a != b);
}

#[test]
fn jones_faithful_texts() {
    let m = SeitzMatrix::new([[1, -1, 0, 1], [0, 0, 0, 14], [-1, 0, 1, -15], [0, 0, 0, 1]]);
    assert_eq!(m.jones_faithful_repr(), "x-y+1/12,+1/6,-x+z-1/4");
    assert_eq!(m.jones_faithful_repr_rot(), "x-y,,-x+z");
    let fractions = |v: i32| {
        SeitzMatrix::new([[1, 0, 0, v], [0, 1, 0, 0], [0, 0, 1, 0], [0, 0, 0, 1]])
            .jones_faithful_repr()
    };
    assert_eq!(fractions(0), "x,y,z");
    assert_eq!(fractions(1), "x+1/12,y,z");
    assert_eq!(fractions(2), "x+1/6,y,z");
    assert_eq!(fractions(3), "x+1/4,y,z");
    assert_eq!(fractions(4), "x+1/3,y,z");
    assert_eq!(fractions(5), "x+5/12,y,z");
    assert_eq!(fractions(6), "x+1/2,y,z");
    assert_eq!(fractions(7), "x+7/12,y,z");
    assert_eq!(fractions(8), "x+2/3,y,z");
    assert_eq!(fractions(9), "x+3/4,y,z");
    assert_eq!(fractions(10), "x+5/6,y,z");
    assert_eq!(fractions(11), "x+11/12,y,z");
    assert_eq!(fractions(12), "x,y,z");
    assert_eq!(fractions(-9), "x-3/4,y,z");
    assert_eq!(fractions(-21), "x-3/4,y,z");
    let wide = SeitzMatrix::new([[2, -13, 0, 0], [0, 1, 0, 0], [0, 0, 1, 0], [0, 0, 0, 1]]);
    assert_eq!(wide.jones_faithful_repr_rot(), "2x-13y,y,z");
}

#[test]
fn origin_shift_origin_shift_test() {
    let shift = OriginShift::new(0, 0, -11);
    let shifted_matrix = shift.shifted_matrix(SeitzMatrix::identity());
    assert_eq!(shifted_matrix.matrix(), SeitzMatrix::identity().matrix());
    assert_eq!(-13 % 12 + 12, 11);
}

#[test]
fn mod_origin_shift_test() {
    let shift = OriginShift::new(0, 0, -11);
    let shifted_matrix = shift.shifted_matrix(SeitzMatrix::identity());
    assert_eq!(shifted_matrix, SeitzMatrix::identity());
    assert_eq!(-13 % 12 + 12, 11);
}

#[test]
fn origin_shift_conjugates() {
    let shift = OriginShift::new(0, 0, -1);
    assert_eq!((shift.va, shift.vb, shift.vc), (0, 0, -1));
    // A two-fold axis across z: the translation moves by twice the shift.
    let m = symbol("2x").seitz_matrix().unwrap();
    assert_eq!(shift.shifted_matrix(m).translation_part(), Vector3::new(0, 0, 10));
    let along = symbol("6z1").seitz_matrix().unwrap();
    assert_eq!(shift.shifted_matrix(along).translation_part(), Vector3::new(0, 0, 2));
    assert_eq!(OriginShift::new(12, -12, 25), OriginShift { va: 12, vb: 12, vc: 13 });
    assert_eq!(OriginShift::new(11, -11, -13), OriginShift { va: 11, vb: -11, vc: 11 });
    assert_eq!(OriginShift::default(), OriginShift { va: 0, vb: 0, vc: 0 });
    assert_eq!(OriginShift::new(1, -2, 3).to_string(), "(1 -2 3)");
}
