use crystal_symmetry::hall_symbols::lattice_symbol::parser::parse_lattice_symbol;
use crystal_symmetry::hall_symbols::lattice_symbol::{
    LatticeSymbol, LatticeSymbolChar, Lattices, A, B, C, F, I, P, R,
};
use crystal_symmetry::hall_symbols::matrix_symbol::parser::{
    parse_axis, parse_hall_matrix_symbol, parse_sign_fold, parse_translations,
};
use crystal_symmetry::hall_symbols::matrix_symbol::{
    MatrixSymbol, NFold, NFoldDiag, NFoldSub, RotationAxis,
};
use crystal_symmetry::hall_symbols::origin_shift::parser::{parse_int_at, parse_origin_shift};
use crystal_symmetry::hall_symbols::origin_shift::OriginShift;
use crystal_symmetry::hall_symbols::parser::{
    parse_hall_symbol, restore_information_in_matrix_symbols,
};
use crystal_symmetry::hall_symbols::scan::{chars_of, skip_spaces_at, ParseError, ParseErrorKind};
use crystal_symmetry::hall_symbols::translation_symbol::{TranslationSymbol, Vector3};
use crystal_symmetry::hall_symbols::{HallSymbolNotation, SymmetryElement};

#[test]
fn parse_single_matrix_symbol() {
    let mut symbol = "61 4acd 2ab 3 -2\" -2ac -2n-1bc";
    let mut seen = Vec::new();
    while let Ok(notation) = parse_hall_matrix_symbol(&mut symbol) {
        seen.push(notation.to_string());
    }
    assert_eq!(seen, vec!["61", "4acd", "2ab", "3", "-2\"", "-2ac", "-2n", "-1bc"]);
    assert_eq!(symbol, "");
}

#[test]
fn test_origin_shift_parsing() {
    let mut input = " (0 0 -1)";
    let shift = parse_origin_shift(&mut input).unwrap();
    assert_eq!((shift.va, shift.vb, shift.vc), (0, 0, -1));
    assert_eq!(input, "");
}

#[test]
fn matrix_symbol_fields() {
    let mut input = "  -4x3 rest";
    let symbol = MatrixSymbol::try_from_str(&mut input).unwrap();
    assert_eq!(input, " rest");
    assert!(symbol.minus_sign());
    assert_eq!(symbol.nfold_body(), NFold::N4);
    assert_eq!(symbol.rotation_axis(), RotationAxis::X);
    assert_eq!(symbol.nfold_diag(), NFoldDiag::Absent);
    assert_eq!(symbol.nfold_sub(), NFoldSub::N3);
    assert_eq!(symbol.translation_symbols(), None);

    let mut input = "\t2'abcnuvwd1";
    let symbol = parse_hall_matrix_symbol(&mut input).unwrap();
    assert_eq!(input, "1");
    assert!(!symbol.minus_sign());
    assert_eq!(symbol.nfold_body(), NFold::N2);
    assert_eq!(symbol.rotation_axis(), RotationAxis::Omitted);
    assert_eq!(symbol.nfold_diag(), NFoldDiag::SingleQuote);
    assert_eq!(symbol.nfold_sub(), NFoldSub::Absent);
    assert_eq!(
        symbol.translation_symbols(),
        Some(&vec![
            TranslationSymbol::A,
            TranslationSymbol::B,
            TranslationSymbol::C,
            TranslationSymbol::N,
            TranslationSymbol::U,
            TranslationSymbol::V,
            TranslationSymbol::W,
            TranslationSymbol::D
        ])
    );

    let mut input = "6";
    let symbol = parse_hall_matrix_symbol(&mut input).unwrap();
    assert_eq!(symbol.rotation_axis(), RotationAxis::Omitted);
    assert_eq!(symbol.translation_symbols(), None);
    assert_eq!(symbol.nfold_sub(), NFoldSub::Absent);

    for bad in ["", "  ", "5", "-", "-5", "x", "- 2", "a2"] {
        let mut input = bad;
        let error = parse_hall_matrix_symbol(&mut input).unwrap_err();
        assert_eq!(error.kind, ParseErrorKind::SignFold, "{:?}", bad);
        assert_eq!(input, bad);
    }
    let mut input = "  -7";
    assert_eq!(
        parse_hall_matrix_symbol(&mut input),
        Err(ParseError { kind: ParseErrorKind::SignFold, offset: 2 })
    );
}

#[test]
fn lattice_symbols() {
    let letters = [
        ("P", Lattices::P, 1),
        ("A", Lattices::A, 2),
        ("B", Lattices::B, 2),
        ("C", Lattices::C, 2),
        ("I", Lattices::I, 2),
        ("R", Lattices::R, 3),
        ("F", Lattices::F, 4),
    ];
    for (text, lattice, count) in letters.iter() {
        let mut input = *text;
        let symbol = LatticeSymbol::try_from_str(&mut input).unwrap();
        assert_eq!(symbol, LatticeSymbol::new(false, *lattice));
        assert_eq!(input, "");
        assert_eq!(symbol.num_of_translations(), *count);
        assert_eq!(symbol.get_translations().len(), *count);
        assert_eq!(symbol.seitz_matrices().len(), *count);
        assert_eq!(symbol.equiv_num(), *count);
        assert_eq!(symbol.to_string(), *text);
        let signed = format!("-{} 2", text);
        let mut input = signed.as_str();
        let symbol = parse_lattice_symbol(&mut input).unwrap();
        assert_eq!(symbol, LatticeSymbol::new(true, *lattice));
        assert_eq!(input, " 2");
        assert_eq!(symbol.seitz_matrices().len(), *count + 1);
        assert_eq!(symbol.seitz_matrices()[*count].jones_faithful_repr(), "-x,-y,-z");
        assert_eq!(symbol.equiv_num(), 2 * *count);
        assert_eq!(symbol.to_string(), format!("-{}", text));
    }
    assert_eq!(P::translations().to_vec(), vec![Vector3::new(0, 0, 0)]);
    assert_eq!(A::translations().to_vec(), vec![Vector3::new(0, 0, 0), Vector3::new(0, 6, 6)]);
    assert_eq!(B::translations().to_vec(), vec![Vector3::new(0, 0, 0), Vector3::new(6, 0, 6)]);
    assert_eq!(C::translations().to_vec(), vec![Vector3::new(0, 0, 0), Vector3::new(6, 6, 0)]);
    assert_eq!(I::translations().to_vec(), vec![Vector3::new(0, 0, 0), Vector3::new(6, 6, 6)]);
    assert_eq!(
        R::translations().to_vec(),
        vec![Vector3::new(0, 0, 0), Vector3::new(8, 4, 4), Vector3::new(4, 8, 8)]
    );
    assert_eq!(
        F::translations().to_vec(),
        vec![
            Vector3::new(0, 0, 0),
            Vector3::new(0, 6, 6),
            Vector3::new(6, 0, 6),
            Vector3::new(6, 6, 0)
        ]
    );
    assert_eq!(LatticeSymbol::new(false, Lattices::R).get_translations(), R::translations().to_vec());
    assert_eq!(
        LatticeSymbol::new(false, Lattices::C).seitz_matrices()[1].jones_faithful_repr(),
        "x+1/2,y+1/2,z"
    );
    for bad in ["", "-", "p", " P", "H", "--P", "2"] {
        let mut input = bad;
        let error = parse_lattice_symbol(&mut input).unwrap_err();
        assert_eq!(error.kind, ParseErrorKind::Lattice, "{:?}", bad);
        assert_eq!(input, bad);
    }
    let mut input = "-Q";
    assert_eq!(
        parse_lattice_symbol(&mut input),
        Err(ParseError { kind: ParseErrorKind::Lattice, offset: 1 })
    );
}

#[test]
fn origin_shifts() {
    let parse = |text: &str| {
        let mut input = text;
        let shift = OriginShift::try_from_str(&mut input);
        (shift, input.to_string())
    };
    let zero = OriginShift::default();
    assert_eq!(parse("(1 2 3)"), (Ok(OriginShift { va: 1, vb: 2, vc: 3 }), "".to_string()));
    assert_eq!(
        parse(" \t(+1  -2\t0) x"),
        (Ok(OriginShift { va: 1, vb: -2, vc: 0 }), " x".to_string())
    );
    assert_eq!(parse("(0 0 13)"), (Ok(OriginShift { va: 0, vb: 0, vc: 13 }), "".to_string()));
    assert_eq!(parse("(0 0 -14)"), (Ok(OriginShift { va: 0, vb: 0, vc: 10 }), "".to_string()));
    // Nothing that reads as a clause: no shift, and nothing taken.
    for absent in [
        "", "x", "(", "()", "( 1 2 3)", "(1 2 3 )", "(1 2 3 4)", "(1,2,3)", "(a)", "(1 2 3",
        "(01 2 3)", "(-0 0 0)", "(1 2 99999999999)", "(1 2 2147483648)", "1 2 3",
    ] {
        assert_eq!(parse(absent), (Ok(zero), absent.to_string()), "{:?}", absent);
    }
    assert_eq!(
        parse("(1 2 2147483647)").0,
        Ok(OriginShift::new(1, 2, 2147483647))
    );
    assert_eq!(
        parse("(1 2 -2147483648)").0,
        Ok(OriginShift::new(1, 2, -2147483648))
    );
    // A clause with one or two numbers is an error.
    for short in ["(1)", "(1 2)", "  (0 -1)"] {
        let (result, rest) = parse(short);
        assert_eq!(result.unwrap_err().kind, ParseErrorKind::OriginShift, "{:?}", short);
        assert_eq!(rest, short);
    }
}

#[test]
fn hall_symbols() {
    let notation = HallSymbolNotation::try_from_str("-F 4ud 2vw 3").unwrap();
    assert_eq!(notation.lattice_symbol(), LatticeSymbol::new(true, Lattices::F));
    assert_eq!(notation.origin_shift(), OriginShift::default());
    let texts: Vec<String> = notation.matrix_symbols().iter().map(|m| m.to_string()).collect();
    assert_eq!(texts, vec!["4ud", "2xvw", "3*"]);

    // Blanks between the parts may be left out.
    let dense = HallSymbolNotation::try_from_str("-F4ud2vw3").unwrap();
    assert_eq!(dense, notation);

    let shifted = HallSymbolNotation::try_from_str("P 31 2c (0 0 1)").unwrap();
    assert_eq!(shifted.origin_shift(), OriginShift { va: 0, vb: 0, vc: 1 });
    let texts: Vec<String> = shifted.matrix_symbols().iter().map(|m| m.to_string()).collect();
    assert_eq!(texts, vec!["31", "2'c"]);

    // What follows the symbol is left alone.
    let mut input = "P 2y (0 0 1) and more";
    let parsed = parse_hall_symbol(&mut input).unwrap();
    assert_eq!(input, " and more");
    assert_eq!(parsed.to_string(), "P 2y (0 0 1)");
    let mut input = "C 2y;";
    assert_eq!(parse_hall_symbol(&mut input).unwrap().to_string(), "C 2y");
    assert_eq!(input, ";");

    let built = HallSymbolNotation::new(
        LatticeSymbol::new(false, Lattices::P),
        vec![MatrixSymbol::new_builder().set_nfold_body(NFold::N2).build().unwrap()],
        OriginShift::default(),
    );
    assert_eq!(built, HallSymbolNotation::try_from_str("P 2").unwrap());

    assert_eq!(
        HallSymbolNotation::try_from_str("x 2"),
        Err(ParseError { kind: ParseErrorKind::Lattice, offset: 0 })
    );
    assert_eq!(
        HallSymbolNotation::try_from_str(" P 2").unwrap_err().kind,
        ParseErrorKind::Lattice
    );
    assert_eq!(
        HallSymbolNotation::try_from_str("P 2 (1 2)"),
        Err(ParseError { kind: ParseErrorKind::OriginShift, offset: 4 })
    );
    let mut input = "P 2 (1)";
    assert!(parse_hall_symbol(&mut input).is_err());
    assert_eq!(input, "P 2 (1)");
}

#[test]
fn defaults_are_filled_in() {
    let axes = |text: &str| -> Vec<(RotationAxis, NFoldDiag)> {
        HallSymbolNotation::try_from_str(text)
            .unwrap()
            .matrix_symbols()
            .iter()
            .map(|m| (m.rotation_axis(), m.nfold_diag()))
            .collect()
    };
    let plain = NFoldDiag::Absent;
    assert_eq!(axes("P 2"), vec![(RotationAxis::Z, plain)]);
    assert_eq!(axes("P 2x"), vec![(RotationAxis::X, plain)]);
    assert_eq!(axes("P 2 2"), vec![(RotationAxis::Z, plain), (RotationAxis::X, plain)]);
    assert_eq!(axes("P 4 2"), vec![(RotationAxis::Z, plain), (RotationAxis::X, plain)]);
    assert_eq!(axes("P 2 2y"), vec![(RotationAxis::Z, plain), (RotationAxis::Y, plain)]);
    assert_eq!(
        axes("P 3 2"),
        vec![(RotationAxis::Z, plain), (RotationAxis::Z, NFoldDiag::SingleQuote)]
    );
    assert_eq!(
        axes("P 6 -2"),
        vec![(RotationAxis::Z, plain), (RotationAxis::Z, NFoldDiag::SingleQuote)]
    );
    assert_eq!(
        axes("P 3 2\""),
        vec![(RotationAxis::Z, plain), (RotationAxis::Z, NFoldDiag::DoubleQuote)]
    );
    assert_eq!(
        axes("P 2 2 3"),
        vec![
            (RotationAxis::Z, plain),
            (RotationAxis::X, plain),
            (RotationAxis::Omitted, NFoldDiag::Asterisk)
        ]
    );
    // Nothing is filled in for a second generator that is no two-fold,
    // nor for a fourth.
    assert_eq!(axes("P 2 4"), vec![(RotationAxis::Z, plain), (RotationAxis::Omitted, plain)]);
    assert_eq!(
        axes("P 1 2 2 3")[3],
        (RotationAxis::Omitted, plain)
    );
    assert_eq!(axes("P 1 2")[1], (RotationAxis::Omitted, plain));
    let mut symbols = vec![
        MatrixSymbol::new_builder().set_nfold_body(NFold::N6).build().unwrap(),
        MatrixSymbol::new_builder()
            .set_nfold_body(NFold::N2)
            .set_rotation_axis(RotationAxis::Omitted)
            .build()
            .unwrap(),
    ];
    restore_information_in_matrix_symbols(&mut symbols);
    assert_eq!(symbols[1].to_string(), "2'");
    assert_eq!(symbols[1].rotation_axis(), RotationAxis::Z);
}

#[test]
fn parts_of_a_generator() {
    let chars = |text: &str| text.chars().collect::<Vec<char>>();
    let text = chars(" -6x5");
    assert_eq!(parse_sign_fold(&text, 0), Ok((true, NFold::N6, 3)));
    assert_eq!(parse_sign_fold(&text, 2), Ok((false, NFold::N6, 3)));
    assert_eq!(
        parse_sign_fold(&text, 3),
        Err(ParseError { kind: ParseErrorKind::SignFold, offset: 3 })
    );
    assert_eq!(parse_axis(&text, 3), Ok((RotationAxis::X, NFoldDiag::Absent, 4)));
    assert_eq!(parse_axis(&chars("*"), 0), Ok((RotationAxis::Omitted, NFoldDiag::Asterisk, 1)));
    assert_eq!(parse_axis(&text, 4), Err(ParseError { kind: ParseErrorKind::Axis, offset: 4 }));
    assert_eq!(parse_axis(&text, 5), Err(ParseError { kind: ParseErrorKind::Axis, offset: 5 }));
    assert_eq!(parse_translations(&text, 4), Ok((NFoldSub::N5, None, 5)));
    assert_eq!(
        parse_translations(&chars("ab1"), 0),
        Ok((NFoldSub::Absent, Some(vec![TranslationSymbol::A, TranslationSymbol::B]), 2))
    );
    assert_eq!(
        parse_translations(&text, 3),
        Err(ParseError { kind: ParseErrorKind::Translation, offset: 3 })
    );
    assert_eq!(
        parse_translations(&chars("6"), 0),
        Err(ParseError { kind: ParseErrorKind::Translation, offset: 0 })
    );
    assert_eq!(parse_int_at(&chars("x-120 "), 1), Some((-120, 5)));
    assert_eq!(parse_int_at(&chars("+7"), 0), Some((7, 2)));
    assert_eq!(parse_int_at(&chars("007"), 0), Some((0, 1)));
    assert_eq!(parse_int_at(&chars("-"), 0), None);
    assert_eq!(parse_int_at(&chars("2147483648"), 0), None);
    assert_eq!(parse_int_at(&chars("-2147483648"), 0), Some((i32::MIN, 11)));
    assert_eq!(skip_spaces_at(&chars(" \t x"), 0), 3);
    assert_eq!(skip_spaces_at(&chars(" \t x"), 3), 3);
    assert_eq!(chars_of("3*\u{0305}"), vec!['3', '*', '\u{0305}']);
}
