use crystal_symmetry::hall_symbols::matrix_symbol::{MatrixSymbol, NFold, NFoldDiag, NFoldSub, RotationAxis};
use crystal_symmetry::hall_symbols::translation_symbol::{TranslationSymbol, Vector3};
use crystal_symmetry::hall_symbols::{GenerationError, HallSymbolNotation, SeitzMatrix};

fn count(symbol: &str) -> (usize, usize) {
    let notation = HallSymbolNotation::try_from_str(symbol).unwrap();
    let positions = notation.general_positions().unwrap();
    let full: usize = positions.derive_full_sets().iter().map(|s| s.len()).sum();
    (positions.num_of_general_pos(), full)
}

fn texts(symbol: &str) -> Vec<String> {
    let notation = HallSymbolNotation::try_from_str(symbol).unwrap();
    let positions = notation.general_positions().unwrap();
    positions.core_position_set().iter().map(|m| m.jones_faithful_repr()).collect()
}

#[test]
fn test_p178() {
    let symbol_str = "P 61 2 (0 0 -1)";
    let p178 = HallSymbolNotation::try_from_str(symbol_str);
    let general_positions = p178.unwrap().general_positions().unwrap();
    assert_eq!(general_positions.num_of_general_pos(), 12);
    assert_eq!(
        texts(symbol_str),
        vec![
            "x,y,z",
            "-y,x-y,z+1/3",
            "-x+y,-x,z+2/3",
            "-x,-y,z+1/2",
            "y,-x+y,z+5/6",
            "x-y,x,z+1/6",
            "y,x,-z+1/3",
            "x-y,-y,-z",
            "-x,-x+y,-z+2/3",
            "-y,-x,-z+5/6",
            "-x+y,y,-z+1/2",
            "x,x-y,-z+1/6",
        ]
    );
}

#[test]
fn test_p5() {
    let symbol_str: &str = "C 2y";
    let p_5 = HallSymbolNotation::try_from_str(symbol_str).unwrap();
    let general_positions = p_5.general_positions().unwrap();
    assert_eq!(general_positions.num_of_general_pos(), 2);
    assert_eq!(count(symbol_str), (2, 4));
    assert_eq!(
        general_positions.text_format(),
        "[0, 0, 0] + set\n1, x,y,z\n2, -x,y,-z\n[1/2, 1/2, 0] + set\n1, x+1/2,y+1/2,z\n2, -x+1/2,y+1/2,-z"
    );
}

#[test]
fn test_150() {
    let symbol_str = "P 3 2\"";
    let p_150 = HallSymbolNotation::try_from_str(symbol_str).unwrap();
    let symbols = p_150.matrix_symbols();
    assert_eq!(symbols.len(), 2);
    assert_eq!(symbols[0].nfold_body(), NFold::N3);
    assert_eq!(symbols[0].rotation_axis(), RotationAxis::Z);
    assert_eq!(symbols[1].nfold_body(), NFold::N2);
    assert_eq!(symbols[1].nfold_diag(), NFoldDiag::DoubleQuote);
    assert_eq!(symbols[1].rotation_axis(), RotationAxis::Z);
    assert_eq!(
        texts(symbol_str),
        vec!["x,y,z", "-y,x-y,z", "-x+y,-x,z", "y,x,-z", "x-y,-y,-z", "-x,-x+y,-z"]
    );
}

#[test]
fn test_228() {
    assert_eq!(count("-F 4ud 2vw 3"), (48, 192));
}

#[test]
fn test_221() {
    assert_eq!(count("-P 4 2 3"), (48, 48));
}

#[test]
fn test_229() {
    assert_eq!(count("-I 4 2 3"), (48, 96));
}

#[test]
fn test_91() {
    assert_eq!(count("P 4w 2c"), (8, 8));
    assert_eq!(
        texts("P 4w 2c"),
        vec![
            "x,y,z",
            "-x,-y,z+1/2",
            "-y,x,z+1/4",
            "y,-x,z+3/4",
            "-x,y,-z",
            "x,-y,-z+1/2",
            "y,x,-z+3/4",
            "-y,-x,-z+1/4",
        ]
    );
}

#[test]
fn test_45() {
    assert_eq!(count("I 2 -2c"), (4, 8));
}

#[test]
fn test_80() {
    let c1 = MatrixSymbol::new_builder()
        .set_nfold_body(NFold::N4)
        .set_nfold_sub(NFoldSub::N1)
        .set_translation_symbols(Some(vec![TranslationSymbol::B]))
        .build()
        .unwrap();
    let c2 = MatrixSymbol::new_builder()
        .set_nfold_body(NFold::N4)
        .set_translation_symbols(Some(vec![TranslationSymbol::B, TranslationSymbol::W]))
        .build()
        .unwrap();
    let m1 = c1.seitz_matrix().unwrap();
    let m2 = c2.seitz_matrix().unwrap();
    assert_eq!(m1.jones_faithful_repr(), "-y,x+1/2,z+1/4");
    assert_eq!(m2.jones_faithful_repr(), "-y,x+1/2,z+1/4");
    assert_eq!(m1.powi(2).jones_faithful_repr(), "-x+1/2,-y+1/2,z+1/2");
    assert_eq!(m2.powi(2).jones_faithful_repr(), "-x+1/2,-y+1/2,z+1/2");
    // The letter after the subscript is not part of the generator.  An
    // inversion centre on a four-one axis brings in the translation by
    // half of c, so that the group has twice the operations of 4/m.
    assert_eq!(count("-I 41b"), (16, 32));
    assert_eq!(count("-I 41b"), count("-I 41"));
}

#[test]
fn test_mono() {
    // P2, P2_1 and C2 with the unique axis b.
    assert_eq!(texts("P 2y"), vec!["x,y,z", "-x,y,-z"]);
    assert_eq!(texts("P 2yb"), vec!["x,y,z", "-x,y+1/2,-z"]);
    assert_eq!(count("C 2y"), (2, 4));
}

#[test]
fn multiplicities_of_standard_groups() {
    let table: [(&str, usize); 40] = [
        ("P 1", 1),
        ("-P 1", 2),
        ("P 2y", 2),
        ("P 2yb", 2),
        ("C 2y", 4),
        ("P -2y", 2),
        ("-P 2y", 4),
        ("-P 2ybc", 4),
        ("-C 2yc", 8),
        ("P 2 2", 4),
        ("P 2ac 2ab", 4),
        ("F 2 2", 16),
        ("P 2 -2", 4),
        ("-P 2 2", 8),
        ("-P 2ac 2n", 8),
        ("-F 2uv 2vw", 32),
        ("-I 2 2", 16),
        ("P 4", 4),
        ("I 4bw", 8),
        ("-P 4", 8),
        ("-I 4ad", 16),
        ("P 4 2", 8),
        ("P -4 2", 8),
        ("-P 4 2", 16),
        ("-I 4bd 2", 32),
        ("P 3", 3),
        ("P 31", 3),
        ("R 3", 9),
        ("P 3*", 3),
        ("-P 3", 6),
        ("P 3 2", 6),
        ("-R 3 2\"c", 36),
        ("P 6", 6),
        ("P 6c", 6),
        ("-P 6", 12),
        ("-P 6 2", 24),
        ("P 2 2 3", 12),
        ("-P 2 2 3", 24),
        ("F 4d 2 3", 96),
        ("-F 4vw 2vw 3", 192),
    ];
    for (symbol, multiplicity) in table.iter() {
        assert_eq!(count(symbol).1, *multiplicity, "{}", symbol);
    }
}

#[test]
fn first_axis_defaults_to_z() {
    let implied = HallSymbolNotation::try_from_str("P 2").unwrap();
    let written = HallSymbolNotation::try_from_str("P 2z").unwrap();
    assert_eq!(implied, written);
    let a = implied.matrix_symbols()[0].seitz_matrix().unwrap();
    let b = written.matrix_symbols()[0].seitz_matrix().unwrap();
    assert_eq!(a.matrix(), b.matrix());
    assert_eq!(a.matrix(), [[-1, 0, 0, 0], [0, -1, 0, 0], [0, 0, 1, 0], [0, 0, 0, 1]]);
}

#[test]
fn positions_are_closed_and_hold_inverses() {
    for symbol in ["C 2y", "P 61 2 (0 0 -1)", "-I 4 2 3", "P 4w 2c", "-F 4ud 2vw 3", "R 3 -2\"c"] {
        let notation = HallSymbolNotation::try_from_str(symbol).unwrap();
        let lattice = notation.lattice_symbol().get_translations();
        let positions = notation.general_positions().unwrap();
        let core = positions.core_position_set();
        let known = |m: &SeitzMatrix| {
            core.iter().filter(|c| lattice.iter().any(|t| (*m + *t) == **c)).count()
        };
        let identity = SeitzMatrix::identity();
        assert_eq!(core.iter().filter(|c| c.matrix() == identity.matrix()).count(), 1);
        assert_eq!(core[0].matrix(), identity.matrix());
        for a in core.iter() {
            for t in lattice.iter() {
                assert_eq!(known(&(*a + *t)), 1);
            }
            assert_eq!(known(&a.try_inverse().unwrap()), 1);
            for b in core.iter() {
                assert_eq!(known(&(*a * *b)), 1);
            }
        }
    }
}

#[test]
fn positions_follow_the_reference_order() {
    let notation = HallSymbolNotation::try_from_str("-P 4 2 3").unwrap();
    let order = notation.get_matrice_order();
    assert_eq!(order.len(), 48);
    let positions = notation.general_positions().unwrap();
    let rotations: Vec<String> =
        positions.core_position_set().iter().map(|m| m.jones_faithful_repr_rot()).collect();
    let expected: Vec<String> = order.iter().map(|s| s.to_string()).collect();
    assert_eq!(rotations, expected);

    let hexagonal = HallSymbolNotation::try_from_str("P 6").unwrap();
    assert_eq!(hexagonal.get_matrice_order().len(), 24);
    let rhombohedral = HallSymbolNotation::try_from_str("P 3*").unwrap();
    assert_eq!(rhombohedral.get_matrice_order().len(), 12);
    assert_eq!(texts("P 3*"), vec!["x,y,z", "z,x,y", "y,z,x"]);
    let trigonal = HallSymbolNotation::try_from_str("P 3").unwrap();
    assert_eq!(trigonal.get_matrice_order().len(), 24);
}

#[test]
fn generation_errors() {
    let none = HallSymbolNotation::try_from_str("P").unwrap();
    assert!(matches!(none.general_positions(), Err(GenerationError::NoGenerator)));
    // A six-fold axis has no third subscript.
    let screw = HallSymbolNotation::try_from_str("P 2 63").unwrap();
    assert!(matches!(screw.general_positions(), Err(GenerationError::InvalidGenerator(1))));
    // A four-fold axis bears no mark.
    let marked = HallSymbolNotation::try_from_str("P 4'").unwrap();
    assert!(matches!(marked.general_positions(), Err(GenerationError::InvalidGenerator(0))));
    // A six-fold and a body diagonal three-fold span no crystallographic group.
    let mixed = HallSymbolNotation::try_from_str("P 6 2 3").unwrap();
    assert!(matches!(
        mixed.general_positions(),
        Err(GenerationError::OutsideReferenceOrder(_))
    ));
    // A three-fold along the body diagonal is no operation of the hexagonal order.
    let cubic = HallSymbolNotation::try_from_str("P 3 2 3").unwrap();
    assert!(matches!(
        cubic.general_positions(),
        Err(GenerationError::OutsideReferenceOrder(_))
    ));
}

#[test]
fn notation_counts() {
    let notation = HallSymbolNotation::try_from_str("-F 4ud 2vw 3").unwrap();
    assert_eq!(notation.num_generators(), 8 + 3);
    assert_eq!(notation.max_equiv_pos(), Some(8 * 4 * 2 * 3));
    let bad = HallSymbolNotation::try_from_str("P 63").unwrap();
    assert_eq!(bad.max_equiv_pos(), None);
    assert_eq!(notation.to_string(), "-F 4ud 2xvw 3*");
    let shifted = HallSymbolNotation::try_from_str("P 61 2 (0 0 -1)").unwrap();
    assert_eq!(shifted.to_string(), "P 61 2' (0 0 -1)");
}

#[test]
fn minimal_translation_prefers_short_vectors() {
    let notation = HallSymbolNotation::try_from_str("I 2").unwrap();
    // (7, 7, 7) and (1, 1, 1) lie in one coset of the body centring.
    assert_eq!(notation.translation_minimal_repr(Vector3::new(7, 7, 7)), Vector3::new(1, 1, 1));
    assert_eq!(notation.translation_minimal_repr(Vector3::new(1, 1, 1)), Vector3::new(1, 1, 1));
    // Of two vectors of one length the first candidate stays.
    assert_eq!(notation.translation_minimal_repr(Vector3::new(3, 3, 3)), Vector3::new(3, 3, 3));
    assert_eq!(notation.translation_minimal_repr(Vector3::new(9, 9, 9)), Vector3::new(3, 3, 3));
    // (11, 0, 0) is longer than its partner (5, 6, 6).
    assert_eq!(notation.translation_minimal_repr(Vector3::new(-1, 0, 12)), Vector3::new(5, 6, 6));
    let primitive = HallSymbolNotation::try_from_str("P 2").unwrap();
    assert_eq!(primitive.translation_minimal_repr(Vector3::new(-1, 0, 12)), Vector3::new(11, 0, 0));
    let face = HallSymbolNotation::try_from_str("F 2").unwrap();
    assert_eq!(face.translation_minimal_repr(Vector3::new(6, 6, 0)), Vector3::new(0, 0, 0));
    assert_eq!(face.translation_minimal_repr(Vector3::new(6, 7, 1)), Vector3::new(0, 1, 1));
}

#[test]
fn text_of_positions() {
    let positions = HallSymbolNotation::try_from_str("P 6 2").unwrap().general_positions().unwrap();
    let text = positions.text_format();
    let lines: Vec<&str> = text.lines().collect();
    assert_eq!(lines.len(), 13);
    assert_eq!(lines[0], "[0, 0, 0] + set");
    assert_eq!(lines[1], "1, x,y,z");
    assert_eq!(lines[10], "10, -y,-x,-z");
    assert_eq!(lines[12], "12, x,x-y,-z");
    let custom = crystal_symmetry::hall_symbols::GeneralPositions::new(
        vec![Vector3::new(-6, 4, 12)],
        vec![SeitzMatrix::identity()],
    );
    assert_eq!(custom.text_format(), "[-1/2, 1/3, 1] + set\n1, x+1/2,y+1/3,z");
    assert_eq!(custom.num_of_general_pos(), 1);
    assert_eq!(custom.lattice_translations(), [Vector3::new(-6, 4, 12)]);
    let empty = crystal_symmetry::hall_symbols::GeneralPositions::new(vec![], vec![]);
    assert_eq!(empty.text_format(), "");
    assert_eq!(empty.derive_full_sets().len(), 0);
    let bare = HallSymbolNotation::try_from_str("-R").unwrap();
    assert_eq!(bare.to_string(), "-R ");
}

#[test]
fn sorting_keeps_the_order_of_equals() {
    let notation = HallSymbolNotation::try_from_str("P 2").unwrap();
    let shifted = |z: i32| SeitzMatrix::identity() + Vector3::new(0, 0, z);
    let two = notation.matrix_symbols()[0].seitz_matrix().unwrap();
    let list = vec![two, shifted(3), two + Vector3::new(6, 0, 0), shifted(0), shifted(9)];
    let sorted = notation.sort_general_positions(&list).unwrap();
    let texts: Vec<String> = sorted.iter().map(|m| m.jones_faithful_repr()).collect();
    assert_eq!(texts, vec!["x,y,z+1/4", "x,y,z", "x,y,z+3/4", "-x,-y,z", "-x+1/2,-y,z"]);
    let odd = SeitzMatrix::new([[1, 1, 0, 0], [0, 1, 0, 0], [0, 0, 1, 0], [0, 0, 0, 1]]);
    let failing = notation.sort_general_positions(&vec![two, odd, odd + Vector3::new(1, 0, 0)]);
    assert_eq!(failing.unwrap_err().matrix(), odd.matrix());
}
