use crystal_symmetry::crystal_symmetry_directions::{
    BodyDiagonal, DirectionBuilder, FaceDiagonal, Principal, Universal, D,
};
use crystal_symmetry::crystal_systems::{Cubic, HexBasis, Monoclinic, Standard, Triclinic};
use crystal_symmetry::database::{CrystalSystem, SpaceGroupHallSymbol};
use crystal_symmetry::hall_symbols::matrix_symbol::{
    NFold, NFoldDiag, NFoldSub, RotationAxis, RotationType,
};
use crystal_symmetry::hall_symbols::translation_symbol::{TranslationSymbol, Vector3};
use crystal_symmetry::hall_symbols::{HallSymbolNotation, SeitzMatrix};
use crystal_symmetry::hm_symbols::{
    GlideA, GlideD, HMElement, HMSymbol, Nil, NoDirection, Notation, Screw, M, R, RI, RM, X, Y, Z,
};
use crystal_symmetry::point_groups::{
    match_lookup, point_group_symbols::point_group_symbol, CyclicGroup, Generators, GroupBuilder,
    PointGroup, PointGroupBuilder, PointGroupSymbol, SymmetryGroup, MC, S2M, S4M, S6M,
};
use crystal_symmetry::space_groups::bravais_lattices::{A, B, C, F, H, I, P};
use crystal_symmetry::space_groups::{Empty, SpaceGroupBuilder, SpaceGroupProperties};
use crystal_symmetry::utils::positive_mod_stbn_i32;

#[test]
fn element() {
    let r3: HMElement<R<3>, X> = HMElement::new();
    let r2: HMElement<R<2>, Y> = HMElement::new();
    let ri3 = HMElement::<RI<3>, X>::new();
    let r2m: HMElement<RM<2>, X> = HMElement::new();
    let r6m = HMElement::<RM<6>, Y>::new();
    let m = HMElement::<M, Z>::new();
    assert_eq!(format!("{}, {}", r3.to_string(), r2.to_string()), "3, 2");
    assert_eq!(ri3.to_string(), "-3");
    assert_eq!(format!("{}, {}", r2m.to_string(), r6m.to_string()), "2/m, 6/m");
    assert_eq!(format!("{}{}{}", r2m.to_string(), m.to_string(), m.to_string()), "2/mmm");
}

#[test]
fn test_symbol() {
    let p1 = HMSymbol::<Nil, R<1>, Nil, NoDirection, NoDirection, NoDirection>::new();
    assert_eq!(p1.to_string(), "1");
    let mmm = HMSymbol::<RM<2>, RM<2>, RM<2>, X, Y, Z>::new();
    assert_eq!(mmm.to_string(), "2/m2/m2/m");
    assert_eq!(GlideA::symbol(), "a");
    assert_eq!(GlideD::symbol(), "d");
    assert_eq!(Screw::<6, 5>::symbol(), "6_5");
    assert_eq!(Screw::<2, 1>::symbol(), "2_1");
    assert_eq!(RI::<1>::symbol(), "-1");
    assert_eq!(Nil::symbol(), "");
}

#[test]
fn directions() {
    let standard = DirectionBuilder::<Standard>::new();
    let hexagonal = DirectionBuilder::<HexBasis>::new();
    let zero: D<Standard, Universal> = standard.zero();
    assert_eq!(zero.hkl(), [0, 0, 0]);
    let a: D<HexBasis, Principal> = hexagonal.a();
    assert_eq!(a.hkl(), [1, 0, 0]);
    assert_eq!(standard.b().hkl(), [0, 1, 0]);
    assert_eq!(standard.c().hkl(), [0, 0, 1]);
    let ab: D<HexBasis, FaceDiagonal> = hexagonal.ab();
    assert_eq!(ab.hkl(), [1, 1, 0]);
    assert_eq!(hexagonal.a_b().hkl(), [1, -1, 0]);
    let abc: D<Standard, BodyDiagonal> = standard.abc();
    assert_eq!(abc.hkl(), [1, 1, 1]);
    assert_eq!(D::<Standard, Principal>::new(0, 0, 1).hkl(), [0, 0, 1]);
    assert_eq!(abc.clone().hkl(), [1, 1, 1]);
}

#[test]
fn symmetry_directions_of_systems() {
    let d = crystal_symmetry::hm_symbols::D::new;
    assert!(d(0, 0, 0).is_valid_direction(CrystalSystem::Triclinic));
    assert!(!d(0, 0, 0).is_valid_direction(CrystalSystem::Cubic));
    assert!(d(0, 1, 0).is_valid_direction(CrystalSystem::Monoclinic));
    assert!(!d(0, 1, 0).is_valid_direction(CrystalSystem::Triclinic));
    assert!(d(0, 0, 1).is_valid_direction(CrystalSystem::Tetragonal));
    assert!(!d(0, 0, 1).is_valid_direction(CrystalSystem::Monoclinic));
    assert!(d(1, 0, 0).is_valid_direction(CrystalSystem::Orthorhombic));
    assert!(d(1, 1, 0).is_valid_direction(CrystalSystem::Cubic));
    assert!(!d(1, 1, 0).is_valid_direction(CrystalSystem::Hexagonal));
    assert!(d(1, -1, 0).is_valid_direction(CrystalSystem::Hexagonal));
    assert!(d(1, 2, 0).is_valid_direction(CrystalSystem::Trigonal));
    assert!(!d(1, 2, 0).is_valid_direction(CrystalSystem::Tetragonal));
    assert!(!d(1, 1, 1).is_valid_direction(CrystalSystem::Cubic));
    assert!(d(0, 0, 0).is_primary() && d(1, 0, 0).is_primary() && !d(1, 1, 0).is_primary());
    assert!(d(0, 1, 0).is_secondary() && d(1, 0, 0).is_secondary() && !d(0, 0, 1).is_secondary());
    assert!(d(0, 0, 1).is_tertiary() && d(1, -1, 0).is_tertiary() && d(1, 2, 0).is_tertiary());
    assert!(!d(0, 1, 0).is_tertiary());
}

#[test]
fn centring_types() {
    assert_eq!(P.points_per_lattice(), 1);
    assert_eq!(A.points_per_lattice(), 2);
    assert_eq!(B.points_per_lattice(), 2);
    assert_eq!(C.points_per_lattice(), 2);
    assert_eq!(I.points_per_lattice(), 2);
    assert_eq!(F.points_per_lattice(), 4);
    assert_eq!(crystal_symmetry::space_groups::bravais_lattices::R.points_per_lattice(), 3);
    assert_eq!(H.points_per_lattice(), 3);
    assert_eq!(P.lattice_coordinates(), vec![Vector3::new(0, 0, 0)]);
    assert_eq!(A.lattice_coordinates()[1], Vector3::new(0, 6, 6));
    assert_eq!(B.lattice_coordinates()[1], Vector3::new(6, 0, 6));
    assert_eq!(C.lattice_coordinates()[1], Vector3::new(6, 6, 0));
    assert_eq!(I.lattice_coordinates()[1], Vector3::new(6, 6, 6));
    assert_eq!(
        F.lattice_coordinates(),
        vec![
            Vector3::new(0, 0, 0),
            Vector3::new(6, 6, 0),
            Vector3::new(6, 0, 6),
            Vector3::new(0, 6, 6)
        ]
    );
    assert_eq!(
        H.lattice_coordinates(),
        vec![Vector3::new(0, 0, 0), Vector3::new(8, 4, 0), Vector3::new(4, 8, 0)]
    );
    assert_eq!(F.symbol(), "F");
    assert_eq!(H.symbol(), "H");
    assert_eq!(<I as SpaceGroupProperties>::new().symbol(), "I");
}

#[test]
fn test_space_group() {
    let _points = PointGroupBuilder::<Triclinic, Standard>::new();
    let builder = SpaceGroupBuilder::<Triclinic, P, Empty>::new();
    assert_eq!(builder.point_group_symbol(), "");
    let with = SpaceGroupBuilder::<Monoclinic, C, Empty>::new().with_point_group(Empty);
    assert_eq!(with.point_group_symbol(), "");
    assert_eq!(<Empty as PointGroupSymbol<Triclinic>>::symbol(&Empty), "");
}

#[test]
fn point_group_signs() {
    let codes: [(i8, &str); 16] = [
        (1, "1"),
        (2, "2"),
        (3, "3"),
        (4, "4"),
        (6, "6"),
        (-1, "-1"),
        (crystal_symmetry::point_groups::M, "m"),
        (MC, "c"),
        (-3, "-3"),
        (-4, "-4"),
        (-6, "-6"),
        (S2M, "2/m"),
        (S4M, "4/m"),
        (S6M, "6/m"),
        (0, ""),
        (5, ""),
    ];
    for (code, sign) in codes.iter() {
        assert_eq!(match_lookup(*code), *sign);
    }
    assert_eq!(point_group_symbol(S4M, S2M, S2M), "4/m2/m2/m");
    assert_eq!(point_group_symbol(-4, 2, crystal_symmetry::point_groups::M), "-42m");
    assert_eq!(point_group_symbol(1, 0, 0), "1");
}

#[test]
fn texts_of_notations() {
    assert_eq!(NFold::Invalid.to_string(), "Invalid");
    assert_eq!(NFold::N6.to_string(), "6");
    assert_eq!(NFold::default(), NFold::N1);
    assert_eq!(NFoldSub::N5.to_string(), "5");
    assert_eq!(NFoldSub::Absent.to_string(), "");
    assert_eq!(NFoldSub::default(), NFoldSub::Absent);
    assert_eq!(NFoldSub::from(&'3'), NFoldSub::N3);
    assert_eq!(NFoldSub::from(&'6'), NFoldSub::Absent);
    assert_eq!(NFoldSub::from_char('1'), NFoldSub::N1);
    assert_eq!(NFoldDiag::SingleQuote.to_string(), "'");
    assert_eq!(NFoldDiag::DoubleQuote.to_string(), "\"");
    assert_eq!(NFoldDiag::Asterisk.to_string(), "*");
    assert_eq!(NFoldDiag::default(), NFoldDiag::Absent);
    assert_eq!(RotationAxis::X.to_string(), "x");
    assert_eq!(RotationAxis::Y.to_string(), "y");
    assert_eq!(RotationAxis::Z.to_string(), "");
    assert_eq!(RotationAxis::Omitted.to_string(), "");
    assert_eq!(RotationAxis::default(), RotationAxis::Z);
    assert_eq!(RotationType::E.to_string(), "1");
    assert_eq!(RotationType::M6.to_string(), "6\u{0305}");
    assert_eq!(TranslationSymbol::from(&'n'), TranslationSymbol::N);
    assert_eq!(TranslationSymbol::from(&'x'), TranslationSymbol::Invalid);
    assert_eq!(TranslationSymbol::from_char('w'), TranslationSymbol::W);
    assert_eq!(TranslationSymbol::D.to_string(), "d");
    assert_eq!(TranslationSymbol::Invalid.to_string(), "Invalid");
    assert_eq!(CrystalSystem::default(), CrystalSystem::Triclinic);
    assert_eq!(CrystalSystem::Orthorhombic.to_string(), "orthorhombic");
}

#[test]
fn positive_remainders() {
    assert_eq!(positive_mod_stbn_i32(0), 0);
    assert_eq!(positive_mod_stbn_i32(11), 11);
    assert_eq!(positive_mod_stbn_i32(12), 0);
    assert_eq!(positive_mod_stbn_i32(25), 1);
    assert_eq!(positive_mod_stbn_i32(-1), 11);
    assert_eq!(positive_mod_stbn_i32(-12), 0);
    assert_eq!(positive_mod_stbn_i32(-13), 11);
    assert_eq!(positive_mod_stbn_i32(i32::MIN), 4);
    assert_eq!(positive_mod_stbn_i32(i32::MAX), 7);
}

#[test]
fn hall_symbols_of_settings() {
    assert_eq!(SpaceGroupHallSymbol::P_1.get_hall_symbol(), "P 1");
    assert_eq!(SpaceGroupHallSymbol::MP_1.get_hall_symbol(), "-P 1");
    assert_eq!(SpaceGroupHallSymbol::P_M2yc.get_hall_symbol(), "P -2yc");
    assert_eq!(SpaceGroupHallSymbol::P_3_2D.get_hall_symbol(), "P 3 2\"");
    assert_eq!(SpaceGroupHallSymbol::P_3A.get_hall_symbol(), "P 3*");
    assert_eq!(SpaceGroupHallSymbol::P_61_2_0_0_M1.get_hall_symbol(), "P 61 2 (0 0 -1)");
    assert_eq!(SpaceGroupHallSymbol::C_2_2_M1bc_1.get_hall_symbol(), "C 2 2 -1bc");
    assert_eq!(SpaceGroupHallSymbol::C_2_2_M1bc_2.get_hall_symbol(), "C 2 2 -1bc");
    assert_eq!(SpaceGroupHallSymbol::MF_4vw_2vw_3.hall_symbol_str(), "-F 4vw 2vw 3");
    assert_eq!(SpaceGroupHallSymbol::MI_4bd_2c_3.hall_symbol_str(), "-I 4bd 2c 3");
    assert_eq!(
        SpaceGroupHallSymbol::P_61_2_0_0_M1.notation(),
        HallSymbolNotation::try_from_str("P 61 2 (0 0 -1)")
    );
    let settings = [
        (SpaceGroupHallSymbol::P_1, 1),
        (SpaceGroupHallSymbol::MC_2yc, 8),
        (SpaceGroupHallSymbol::P_2ac_2ab, 4),
        (SpaceGroupHallSymbol::MF_2uv_2vw, 32),
        (SpaceGroupHallSymbol::I_4bw_2bw_M1bw, 32),
        (SpaceGroupHallSymbol::P_31_2c_0_0_1, 6),
        (SpaceGroupHallSymbol::MR_3_2Dc, 36),
        (SpaceGroupHallSymbol::MP_3A_2n, 12),
        (SpaceGroupHallSymbol::P_64_2c_0_0_M1, 12),
        (SpaceGroupHallSymbol::P_M6c_M2c, 12),
        (SpaceGroupHallSymbol::P_4bd_2ab_3, 24),
        (SpaceGroupHallSymbol::F_4d_2_3_M1cd, 192),
        (SpaceGroupHallSymbol::MI_4bd_2c_3, 96),
    ];
    for (setting, multiplicity) in settings.iter() {
        let notation = setting.notation().unwrap();
        let positions = notation.general_positions().unwrap();
        let full: usize = positions.derive_full_sets().iter().map(|s| s.len()).sum();
        assert_eq!(full, *multiplicity, "{:?}", setting);
    }
}

#[test]
fn test_iter() {
    let six = symbol_matrix("6z");
    let group = CyclicGroup::<HexBasis>::new(six, 6, 6, [0, 0, 1]);
    let elements = group.iter().unwrap();
    let texts: Vec<String> = elements.iter().map(|m| m.jones_faithful_repr()).collect();
    assert_eq!(texts, vec!["x,y,z", "x-y,x,z", "-y,x-y,z", "-x,-y,z", "-x+y,-x,z", "y,-x+y,z"]);
    assert_eq!(group.order(), 6);
    assert_eq!(group.matrix().matrix(), six.matrix());
    assert_eq!(group.notation(), "6_001");
    assert_eq!(group.clone().to_c().iter().unwrap()[3].jones_faithful_repr(), "-x,-y,z+1/2");
    let none = CyclicGroup::<Standard>::new(six, 0, 6, [0, 0, 1]);
    assert_eq!(none.iter(), Some(vec![]));
    let growing = SeitzMatrix::new([[2, 0, 0, 0], [0, 1, 0, 0], [0, 0, 1, 0], [0, 0, 0, 1]]);
    assert_eq!(CyclicGroup::<Standard>::new(growing, 31, 1, [1, 0, 0]).iter().unwrap().len(), 31);
    assert_eq!(CyclicGroup::<Standard>::new(growing, 33, 1, [1, 0, 0]).iter(), None);
}

fn symbol_matrix(text: &str) -> SeitzMatrix {
    let mut rest = text;
    crystal_symmetry::hall_symbols::matrix_symbol::MatrixSymbol::try_from_str(&mut rest)
        .unwrap()
        .seitz_matrix()
        .unwrap()
}

#[test]
fn test_rot_generator() {
    let builder = GroupBuilder::<Standard>::new();
    assert_eq!(builder.e().iter().unwrap().len(), 1);
    assert_eq!(builder.e().notation(), "1_000");
    let inversion = builder.i();
    assert_eq!(inversion.notation(), "-1_000");
    let texts: Vec<String> =
        inversion.iter().unwrap().iter().map(|m| m.jones_faithful_repr()).collect();
    assert_eq!(texts, vec!["x,y,z", "-x,-y,-z"]);
    let centring = builder.translate(Vector3::new(6, 18, -6));
    assert_eq!(centring.matrix().jones_faithful_repr(), "x+1/2,y+1/2,z+1/2");
    let glides = |g: CyclicGroup<Standard>| g.matrix().translation_part();
    let mirror = || CyclicGroup::<Standard>::new(symbol_matrix("-2z"), 2, -2, [0, 0, 1]);
    assert_eq!(glides(mirror().to_a()), Vector3::new(6, 0, 0));
    assert_eq!(glides(mirror().to_b()), Vector3::new(0, 6, 0));
    assert_eq!(glides(mirror().to_c()), Vector3::new(0, 0, 6));
    assert_eq!(glides(mirror().to_n()), Vector3::new(6, 6, 6));
    assert_eq!(glides(mirror().to_u()), Vector3::new(3, 0, 0));
    assert_eq!(glides(mirror().to_v()), Vector3::new(0, 3, 0));
    assert_eq!(glides(mirror().to_w()), Vector3::new(0, 0, 3));
    assert_eq!(glides(mirror().to_d()), Vector3::new(3, 3, 3));
    assert_eq!(glides(mirror().to_a().to_a()), Vector3::new(0, 0, 0));
}

#[test]
fn test_group_product() {
    let two = CyclicGroup::<Standard>::new(symbol_matrix("2z"), 2, 2, [0, 0, 1]);
    let four = CyclicGroup::<Standard>::new(symbol_matrix("4x"), 4, 4, [1, 0, 0]);
    let first = Generators::new(two.iter().unwrap());
    let second = Generators::new(four.iter().unwrap());
    let product = first.product(&second).unwrap();
    let texts: Vec<String> = product.matrices().iter().map(|m| m.jones_faithful_repr()).collect();
    // The powers of the second group, each times both of the first.
    assert_eq!(
        texts,
        vec![
            "x,y,z", "-x,-y,z", "x,-z,y", "-x,-z,-y", "x,-y,-z", "-x,y,-z", "x,z,-y", "-x,z,y"
        ]
    );
    let group = SymmetryGroup::new(two.iter().unwrap());
    let extended = group.product(&four.iter().unwrap()).unwrap();
    assert_eq!(extended.elements(), product.matrices());
    let huge = SeitzMatrix::new([[i32::MAX, 0, 0, 0], [0, 1, 0, 0], [0, 0, 1, 0], [0, 0, 0, 1]]);
    assert!(Generators::new(vec![huge]).product(&Generators::new(vec![huge])).is_none());
    assert_eq!(
        Generators::new(vec![]).product(&second).unwrap().matrices().len(),
        0
    );
}

#[test]
fn test_point_group() {
    let two = CyclicGroup::<Standard>::new(symbol_matrix("2z"), 2, 2, [0, 0, 1]);
    let other = CyclicGroup::<Standard>::new(symbol_matrix("2y"), 2, 2, [0, 1, 0]);
    let three = CyclicGroup::<Standard>::new(symbol_matrix("3*"), 3, 3, [1, 1, 1]);
    let cubic = PointGroup::<Cubic, Standard>::new(vec![two, other, three], 2, 3, 0);
    assert_eq!(cubic.get_symbol(), "23");
    assert_eq!(PointGroupSymbol::<Cubic>::symbol(&cubic), "23");
    assert_eq!(cubic.generators().len(), 3);
    assert_eq!(cubic.generators()[2].notation(), "3_111");
    let all = cubic.generator_combo_matrices().unwrap();
    assert_eq!(all.len(), 12);
    let mut texts: Vec<String> = all.iter().map(|m| m.jones_faithful_repr()).collect();
    assert_eq!(&texts[..5], ["x,y,z", "-x,-y,z", "-x,y,-z", "x,-y,-z", "z,x,y"]);
    texts.sort();
    texts.dedup();
    assert_eq!(texts.len(), 12);
    let empty = PointGroup::<Cubic, Standard>::new(vec![], 1, 0, 0);
    assert_eq!(empty.generator_combo_matrices(), None);
    let growing = SeitzMatrix::new([[2, 0, 0, 0], [0, 1, 0, 0], [0, 0, 1, 0], [0, 0, 0, 1]]);
    let broken = PointGroup::<Cubic, Standard>::new(
        vec![CyclicGroup::new(growing, 40, 1, [1, 0, 0])],
        1,
        0,
        0,
    );
    assert_eq!(broken.generator_combo_matrices(), None);
}

#[test]
fn p6322() {
    let r3_h001 = CyclicGroup::<HexBasis>::new(symbol_matrix("3z"), 3, 3, [0, 0, 1]);
    let c2_h001 = CyclicGroup::<HexBasis>::new(symbol_matrix("2z"), 2, 2, [0, 0, 1]).to_c();
    let c2_h110 = CyclicGroup::<HexBasis>::new(
        SeitzMatrix::new([[0, 1, 0, 0], [1, 0, 0, 0], [0, 0, -1, 0], [0, 0, 0, 1]]),
        2,
        2,
        [1, 1, 0],
    );
    let p6322 = SymmetryGroup::new(r3_h001.iter().unwrap())
        .product(&c2_h001.iter().unwrap())
        .unwrap()
        .product(&c2_h110.iter().unwrap())
        .unwrap();
    let mut texts: Vec<String> =
        p6322.elements().iter().map(|m| m.jones_faithful_repr()).collect();
    assert_eq!(texts.len(), 12);
    assert_eq!(&texts[..4], ["x,y,z", "-y,x-y,z", "-x+y,-x,z", "-x,-y,z+1/2"]);
    texts.sort();
    let mut expected: Vec<String> = HallSymbolNotation::try_from_str("P 6c 2c")
        .unwrap()
        .general_positions()
        .unwrap()
        .core_position_set()
        .iter()
        .map(|m| m.jones_faithful_repr())
        .collect();
    expected.sort();
    assert_eq!(texts, expected);
}

#[test]
fn test_triclinic() {
    let builder = GroupBuilder::<Standard>::new();
    let g1 = PointGroup::<Triclinic, Standard>::new(vec![builder.e()], 1, 0, 0);
    let gi1 = PointGroup::<Triclinic, Standard>::new(vec![builder.i()], -1, 0, 0);
    assert_eq!(g1.get_symbol(), "1");
    assert_eq!(gi1.get_symbol(), "-1");
    let p1: Vec<String> =
        g1.generator_combo_matrices().unwrap().iter().map(|m| m.jones_faithful_repr()).collect();
    let pi1: Vec<String> =
        gi1.generator_combo_matrices().unwrap().iter().map(|m| m.jones_faithful_repr()).collect();
    assert_eq!(p1, vec!["x,y,z"]);
    assert_eq!(pi1, vec!["x,y,z", "-x,-y,-z"]);
    let with = SpaceGroupBuilder::<Triclinic, P, Empty>::new().with_point_group(gi1);
    assert_eq!(with.point_group_symbol(), "-1");
}
