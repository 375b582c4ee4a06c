use vstd::prelude::*;
use vstd::string::*;
use crate::hall_symbols::parser::hall_symbol_of;
use crate::hall_symbols::scan::ParseError;
use crate::hall_symbols::HallSymbolNotation;

pub mod crystal_system;
pub mod sym_ops_order;

pub use crystal_system::CrystalSystem;
pub use sym_ops_order::{ORDER_12, ORDER_24, ORDER_48};

verus! {

/// The Hall symbols of the space groups in all their tabulated settings.
/// A variant is named after its symbol: `M` stands for a minus sign, `A`
/// for an asterisk, `D` for a double quote, three trailing numbers for an
/// origin shift; a trailing `_1` or `_2` tells apart two settings that
/// share one symbol.
#[derive(Debug, Clone, Copy, PartialEq, Eq, Structural, Hash)]
#[allow(non_camel_case_types)]
pub enum SpaceGroupHallSymbol {
    P_1,
    MP_1,
    P_2y,
    P_2,
    P_2x,
    P_2yb,
    P_2c,
    P_2xa,
    C_2y,
    A_2y,
    I_2y,
    A_2,
    B_2,
    I_2,
    B_2x,
    C_2x,
    I_2x,
    P_M2y,
    P_M2,
    P_M2x,
    P_M2yc,
    P_M2yac,
    P_M2ya,
    P_M2a,
    P_M2ab,
    P_M2b,
    P_M2xb,
    P_M2xbc,
    P_M2xc,
    C_M2y,
    A_M2y,
    I_M2y,
    A_M2,
    B_M2,
    I_M2,
    B_M2x,
    C_M2x,
    I_M2x,
    C_M2yc,
    A_M2yac,
    I_M2ya,
    A_M2ya,
    C_M2ybc,
    I_M2yc,
    A_M2a,
    B_M2bc,
    I_M2b,
    B_M2b,
    A_M2ac,
    I_M2a,
    B_M2xb,
    C_M2xbc,
    I_M2xc,
    C_M2xc,
    B_M2xbc,
    I_M2xb,
    MP_2y,
    MP_2,
    MP_2x,
    MP_2yb,
    MP_2c,
    MP_2xa,
    MC_2y,
    MA_2y,
    MI_2y,
    MA_2,
    MB_2,
    MI_2,
    MB_2x,
    MC_2x,
    MI_2x,
    MP_2yc,
    MP_2yac,
    MP_2ya,
    MP_2a,
    MP_2ab,
    MP_2b,
    MP_2xb,
    MP_2xbc,
    MP_2xc,
    MP_2ybc,
    MP_2yn,
    MP_2yab,
    MP_2ac,
    MP_2n,
    MP_2bc,
    MP_2xab,
    MP_2xn,
    MP_2xac,
    MC_2yc,
    MA_2yac,
    MI_2ya,
    MA_2ya,
    MC_2ybc,
    MI_2yc,
    MA_2a,
    MB_2bc,
    MI_2b,
    MB_2b,
    MA_2ac,
    MI_2a,
    MB_2xb,
    MC_2xbc,
    MI_2xc,
    MC_2xc,
    MB_2xbc,
    MI_2xb,
    P_2_2,
    P_2c_2,
    P_2a_2a,
    P_2_2b,
    P_2_2ab,
    P_2bc_2,
    P_2ac_2ac,
    P_2ac_2ab,
    C_2c_2,
    A_2a_2a,
    B_2_2b,
    C_2_2,
    A_2_2,
    B_2_2,
    F_2_2,
    I_2_2,
    I_2b_2c,
    P_2_M2,
    P_M2_2,
    P_M2_M2,
    P_2c_M2,
    P_2c_M2c,
    P_M2a_2a,
    P_M2_2a,
    P_M2_M2b,
    P_M2b_M2,
    P_2_M2c,
    P_M2a_2,
    P_M2b_M2b,
    P_2_M2a,
    P_2_M2b,
    P_M2b_2,
    P_M2c_2,
    P_M2c_M2c,
    P_M2a_M2a,
    P_2c_M2ac,
    P_2c_M2b,
    P_M2b_2a,
    P_M2ac_2a,
    P_M2bc_M2c,
    P_M2a_M2ab,
    P_2_M2bc,
    P_2_M2ac,
    P_M2ac_2,
    P_M2ab_2,
    P_M2ab_M2ab,
    P_M2bc_M2bc,
    P_2ac_M2,
    P_2bc_M2bc,
    P_M2ab_2ab,
    P_M2_2ac,
    P_M2_M2bc,
    P_M2ab_M2,
    P_2_M2ab,
    P_M2bc_2,
    P_M2ac_M2ac,
    P_2c_M2n,
    P_2c_M2ab,
    P_M2bc_2a,
    P_M2n_2a,
    P_M2n_M2ac,
    P_M2ac_M2n,
    P_2_M2n,
    P_M2n_2,
    P_M2n_M2n,
    C_2_M2,
    A_M2_2,
    B_M2_M2,
    C_2c_M2,
    C_2c_M2c,
    A_M2a_2a,
    A_M2_2a,
    B_M2_M2b,
    B_M2b_M2,
    C_2_M2c,
    A_M2a_2,
    B_M2b_M2b,
    A_2_M2,
    B_2_M2,
    B_M2_2,
    C_M2_2,
    C_M2_M2,
    A_M2_M2,
    A_2_M2c,
    B_2_M2c,
    B_M2c_2,
    C_M2b_2,
    C_M2b_M2b,
    A_M2c_M2c,
    A_2_M2a,
    B_2_M2b,
    B_M2b_2,
    C_M2c_2,
    C_M2c_M2c,
    A_M2a_M2a,
    A_2_M2ac,
    B_2_M2bc,
    B_M2bc_2,
    C_M2bc_2,
    C_M2bc_M2bc,
    A_M2ac_M2ac,
    F_2_M2,
    F_M2_2,
    F_M2_M2,
    F_2_M2d,
    F_M2d_2,
    F_M2d_M2d,
    I_2_M2,
    I_M2_2,
    I_M2_M2,
    I_2_M2c,
    I_M2a_2,
    I_M2b_M2b,
    I_2_M2a,
    I_2_M2b,
    I_M2b_2,
    I_M2c_2,
    I_M2c_M2c,
    I_M2a_M2a,
    MP_2_2,
    P_2_2_M1n,
    MP_2ab_2bc,
    MP_2_2c,
    MP_2a_2,
    MP_2b_2b,
    P_2_2_M1ab,
    MP_2ab_2b,
    P_2_2_M1bc,
    MP_2b_2bc,
    P_2_2_M1ac,
    MP_2a_2c,
    MP_2a_2a,
    MP_2b_2,
    MP_2_2b,
    MP_2c_2c,
    MP_2c_2,
    MP_2_2a,
    MP_2a_2bc,
    MP_2b_2n,
    MP_2n_2b,
    MP_2ab_2c,
    MP_2ab_2n,
    MP_2n_2bc,
    MP_2ac_2,
    MP_2bc_2bc,
    MP_2ab_2ab,
    MP_2_2ac,
    MP_2_2bc,
    MP_2ab_2,
    MP_2a_2ac,
    MP_2b_2c,
    MP_2a_2b,
    MP_2ac_2c,
    MP_2bc_2b,
    MP_2b_2ab,
    MP_2_2ab,
    MP_2bc_2,
    MP_2ac_2ac,
    MP_2ab_2ac,
    MP_2ac_2bc,
    MP_2bc_2ab,
    MP_2c_2b,
    MP_2c_2ac,
    MP_2ac_2a,
    MP_2b_2a,
    MP_2a_2ab,
    MP_2bc_2c,
    MP_2_2n,
    MP_2n_2,
    MP_2n_2n,
    P_2_2ab_M1ab,
    MP_2ab_2a,
    P_2bc_2_M1bc,
    MP_2c_2bc,
    P_2ac_2ac_M1ac,
    MP_2c_2a,
    MP_2n_2ab,
    MP_2n_2c,
    MP_2a_2n,
    MP_2bc_2n,
    MP_2ac_2b,
    MP_2b_2ac,
    MP_2ac_2ab,
    MP_2bc_2ac,
    MP_2ac_2n,
    MP_2bc_2a,
    MP_2c_2ab,
    MP_2n_2ac,
    MP_2n_2a,
    MP_2c_2n,
    MC_2c_2,
    MC_2c_2c,
    MA_2a_2a,
    MA_2_2a,
    MB_2_2b,
    MB_2b_2,
    MC_2bc_2,
    MC_2bc_2bc,
    MA_2ac_2ac,
    MA_2_2ac,
    MB_2_2bc,
    MB_2bc_2,
    MC_2_2,
    MA_2_2,
    MB_2_2,
    MC_2_2c,
    MA_2a_2,
    MB_2b_2b,
    MC_2b_2,
    MC_2b_2b,
    MA_2c_2c,
    MA_2_2c,
    MB_2_2c,
    MB_2c_2,
    C_2_2_M1bc_1,
    MC_2b_2bc,
    C_2_2_M1bc_2,
    MC_2b_2c,
    A_2_2_M1ac_1,
    MA_2a_2c,
    A_2_2_M1ac_2,
    MA_2ac_2c,
    B_2_2_M1bc_1,
    MB_2bc_2b,
    B_2_2_M1bc_2,
    MB_2b_2bc,
    MF_2_2,
    F_2_2_M1d,
    MF_2uv_2vw,
    MI_2_2,
    MI_2_2c,
    MI_2a_2,
    MI_2b_2b,
    MI_2b_2c,
    MI_2a_2b,
    MI_2b_2,
    MI_2a_2a,
    MI_2c_2c,
    MI_2_2b,
    MI_2_2a,
    MI_2c_2,
    P_4,
    P_4w,
    P_4c,
    P_4cw,
    I_4,
    I_4bw,
    P_M4,
    I_M4,
    MP_4,
    MP_4c,
    P_4ab_M1ab,
    MP_4a,
    P_4n_M1n,
    MP_4bc,
    MI_4,
    I_4bw_M1bw,
    MI_4ad,
    P_4_2,
    P_4ab_2ab,
    P_4w_2c,
    P_4abw_2nw,
    P_4c_2,
    P_4n_2n,
    P_4cw_2c,
    P_4nw_2abw,
    I_4_2,
    I_4bw_2bw,
    P_4_M2,
    P_4_M2ab,
    P_4c_M2c,
    P_4n_M2n,
    P_4_M2c,
    P_4_M2n,
    P_4c_M2,
    P_4c_M2ab,
    I_4_M2,
    I_4_M2c,
    I_4bw_M2,
    I_4bw_M2c,
    P_M4_2,
    P_M4_2c,
    P_M4_2ab,
    P_M4_2n,
    P_M4_M2,
    P_M4_M2c,
    P_M4_M2ab,
    P_M4_M2n,
    I_M4_M2,
    I_M4_M2c,
    I_M4_2,
    I_M4_2bw,
    MP_4_2,
    MP_4_2c,
    P_4_2_M1ab,
    MP_4a_2b,
    P_4_2_M1n,
    MP_4a_2bc,
    MP_4_2ab,
    MP_4_2n,
    P_4ab_2ab_M1ab,
    MP_4a_2a,
    P_4ab_2n_M1ab,
    MP_4a_2ac,
    MP_4c_2,
    MP_4c_2c,
    P_4n_2c_M1n,
    MP_4ac_2b,
    P_4n_2_M1n,
    MP_4ac_2bc,
    MP_4c_2ab,
    MP_4n_2n,
    P_4n_2n_M1n,
    MP_4ac_2a,
    P_4n_2ab_M1n,
    MP_4ac_2ac,
    MI_4_2,
    MI_4_2c,
    I_4bw_2bw_M1bw,
    MI_4bd_2,
    I_4bw_2aw_M1bw,
    MI_4bd_2c,
    P_3,
    P_31,
    P_32,
    R_3,
    P_3A,
    MP_3,
    MR_3,
    MP_3A,
    P_3_2,
    P_3_2D,
    P_31_2c_0_0_1,
    P_31_2D,
    P_32_2c_0_0_M1,
    P_32_2D,
    R_3_2D,
    P_3A_2,
    P_3_M2D,
    P_3_M2,
    P_3_M2Dc,
    P_3_M2c,
    R_3_M2D,
    P_3A_M2,
    R_3_M2Dc,
    P_3A_M2n,
    MP_3_2,
    MP_3_2c,
    MP_3_2D,
    MP_3_2Dc,
    MR_3_2D,
    MP_3A_2,
    MR_3_2Dc,
    MP_3A_2n,
    P_6,
    P_61,
    P_65,
    P_62,
    P_64,
    P_6c,
    P_M6,
    MP_6,
    MP_6c,
    P_6_2,
    P_61_2_0_0_M1,
    P_65_2_0_0_1,
    P_62_2c_0_0_1,
    P_64_2c_0_0_M1,
    P_6c_2c,
    P_6_M2,
    P_6_M2c,
    P_6c_M2,
    P_6c_M2c,
    P_M6_2,
    P_M6c_2,
    P_M6_M2,
    P_M6c_M2c,
    MP_6_2,
    MP_6_2c,
    MP_6c_2,
    MP_6c_2c,
    P_2_2_3,
    F_2_2_3,
    I_2_2_3,
    P_2ac_2ab_3,
    I_2b_2c_3,
    MP_2_2_3,
    P_2_2_3_M1n,
    MP_2ab_2bc_3,
    MF_2_2_3,
    F_2_2_3_M1d,
    MF_2uv_2vw_3,
    MI_2_2_3,
    MP_2ac_2ab_3,
    MI_2b_2c_3,
    P_4_2_3,
    P_4n_2_3,
    F_4_2_3,
    F_4d_2_3,
    I_4_2_3,
    P_4acd_2ab_3,
    P_4bd_2ab_3,
    I_4bd_2c_3,
    P_M4_2_3,
    F_M4_2_3,
    I_M4_2_3,
    P_M4n_2_3,
    F_M4c_2_3,
    I_M4bd_2c_3,
    MP_4_2_3,
    P_4_2_3_M1n,
    MP_4a_2bc_3,
    MP_4n_2_3,
    P_4n_2_3_M1n,
    MP_4bc_2bc_3,
    MF_4_2_3,
    MF_4c_2_3,
    F_4d_2_3_M1d,
    MF_4vw_2vw_3,
    F_4d_2_3_M1cd,
    MF_4cvw_2vw_3,
    MI_4_2_3,
    MI_4bd_2c_3,
}

impl SpaceGroupHallSymbol {
    /// The Hall symbol of the setting.
    pub open spec fn hall_text(self) -> Seq<char> {
        match self {
            SpaceGroupHallSymbol::P_1 => "P 1"@,
            SpaceGroupHallSymbol::MP_1 => "-P 1"@,
            SpaceGroupHallSymbol::P_2y => "P 2y"@,
            SpaceGroupHallSymbol::P_2 => "P 2"@,
            SpaceGroupHallSymbol::P_2x => "P 2x"@,
            SpaceGroupHallSymbol::P_2yb => "P 2yb"@,
            SpaceGroupHallSymbol::P_2c => "P 2c"@,
            SpaceGroupHallSymbol::P_2xa => "P 2xa"@,
            SpaceGroupHallSymbol::C_2y => "C 2y"@,
            SpaceGroupHallSymbol::A_2y => "A 2y"@,
            SpaceGroupHallSymbol::I_2y => "I 2y"@,
            SpaceGroupHallSymbol::A_2 => "A 2"@,
            SpaceGroupHallSymbol::B_2 => "B 2"@,
            SpaceGroupHallSymbol::I_2 => "I 2"@,
            SpaceGroupHallSymbol::B_2x => "B 2x"@,
            SpaceGroupHallSymbol::C_2x => "C 2x"@,
            SpaceGroupHallSymbol::I_2x => "I 2x"@,
            SpaceGroupHallSymbol::P_M2y => "P -2y"@,
            SpaceGroupHallSymbol::P_M2 => "P -2"@,
            SpaceGroupHallSymbol::P_M2x => "P -2x"@,
            SpaceGroupHallSymbol::P_M2yc => "P -2yc"@,
            SpaceGroupHallSymbol::P_M2yac => "P -2yac"@,
            SpaceGroupHallSymbol::P_M2ya => "P -2ya"@,
            SpaceGroupHallSymbol::P_M2a => "P -2a"@,
            SpaceGroupHallSymbol::P_M2ab => "P -2ab"@,
            SpaceGroupHallSymbol::P_M2b => "P -2b"@,
            SpaceGroupHallSymbol::P_M2xb => "P -2xb"@,
            SpaceGroupHallSymbol::P_M2xbc => "P -2xbc"@,
            SpaceGroupHallSymbol::P_M2xc => "P -2xc"@,
            SpaceGroupHallSymbol::C_M2y => "C -2y"@,
            SpaceGroupHallSymbol::A_M2y => "A -2y"@,
            SpaceGroupHallSymbol::I_M2y => "I -2y"@,
            SpaceGroupHallSymbol::A_M2 => "A -2"@,
            SpaceGroupHallSymbol::B_M2 => "B -2"@,
            SpaceGroupHallSymbol::I_M2 => "I -2"@,
            SpaceGroupHallSymbol::B_M2x => "B -2x"@,
            SpaceGroupHallSymbol::C_M2x => "C -2x"@,
            SpaceGroupHallSymbol::I_M2x => "I -2x"@,
            SpaceGroupHallSymbol::C_M2yc => "C -2yc"@,
            SpaceGroupHallSymbol::A_M2yac => "A -2yac"@,
            SpaceGroupHallSymbol::I_M2ya => "I -2ya"@,
            SpaceGroupHallSymbol::A_M2ya => "A -2ya"@,
            SpaceGroupHallSymbol::C_M2ybc => "C -2ybc"@,
            SpaceGroupHallSymbol::I_M2yc => "I -2yc"@,
            SpaceGroupHallSymbol::A_M2a => "A -2a"@,
            SpaceGroupHallSymbol::B_M2bc => "B -2bc"@,
            SpaceGroupHallSymbol::I_M2b => "I -2b"@,
            SpaceGroupHallSymbol::B_M2b => "B -2b"@,
            SpaceGroupHallSymbol::A_M2ac => "A -2ac"@,
            SpaceGroupHallSymbol::I_M2a => "I -2a"@,
            SpaceGroupHallSymbol::B_M2xb => "B -2xb"@,
            SpaceGroupHallSymbol::C_M2xbc => "C -2xbc"@,
            SpaceGroupHallSymbol::I_M2xc => "I -2xc"@,
            SpaceGroupHallSymbol::C_M2xc => "C -2xc"@,
            SpaceGroupHallSymbol::B_M2xbc => "B -2xbc"@,
            SpaceGroupHallSymbol::I_M2xb => "I -2xb"@,
            SpaceGroupHallSymbol::MP_2y => "-P 2y"@,
            SpaceGroupHallSymbol::MP_2 => "-P 2"@,
            SpaceGroupHallSymbol::MP_2x => "-P 2x"@,
            SpaceGroupHallSymbol::MP_2yb => "-P 2yb"@,
            SpaceGroupHallSymbol::MP_2c => "-P 2c"@,
            SpaceGroupHallSymbol::MP_2xa => "-P 2xa"@,
            SpaceGroupHallSymbol::MC_2y => "-C 2y"@,
            SpaceGroupHallSymbol::MA_2y => "-A 2y"@,
            SpaceGroupHallSymbol::MI_2y => "-I 2y"@,
            SpaceGroupHallSymbol::MA_2 => "-A 2"@,
            SpaceGroupHallSymbol::MB_2 => "-B 2"@,
            SpaceGroupHallSymbol::MI_2 => "-I 2"@,
            SpaceGroupHallSymbol::MB_2x => "-B 2x"@,
            SpaceGroupHallSymbol::MC_2x => "-C 2x"@,
            SpaceGroupHallSymbol::MI_2x => "-I 2x"@,
            SpaceGroupHallSymbol::MP_2yc => "-P 2yc"@,
            SpaceGroupHallSymbol::MP_2yac => "-P 2yac"@,
            SpaceGroupHallSymbol::MP_2ya => "-P 2ya"@,
            SpaceGroupHallSymbol::MP_2a => "-P 2a"@,
            SpaceGroupHallSymbol::MP_2ab => "-P 2ab"@,
            SpaceGroupHallSymbol::MP_2b => "-P 2b"@,
            SpaceGroupHallSymbol::MP_2xb => "-P 2xb"@,
            SpaceGroupHallSymbol::MP_2xbc => "-P 2xbc"@,
            SpaceGroupHallSymbol::MP_2xc => "-P 2xc"@,
            SpaceGroupHallSymbol::MP_2ybc => "-P 2ybc"@,
            SpaceGroupHallSymbol::MP_2yn => "-P 2yn"@,
            SpaceGroupHallSymbol::MP_2yab => "-P 2yab"@,
            SpaceGroupHallSymbol::MP_2ac => "-P 2ac"@,
            SpaceGroupHallSymbol::MP_2n => "-P 2n"@,
            SpaceGroupHallSymbol::MP_2bc => "-P 2bc"@,
            SpaceGroupHallSymbol::MP_2xab => "-P 2xab"@,
            SpaceGroupHallSymbol::MP_2xn => "-P 2xn"@,
            SpaceGroupHallSymbol::MP_2xac => "-P 2xac"@,
            SpaceGroupHallSymbol::MC_2yc => "-C 2yc"@,
            SpaceGroupHallSymbol::MA_2yac => "-A 2yac"@,
            SpaceGroupHallSymbol::MI_2ya => "-I 2ya"@,
            SpaceGroupHallSymbol::MA_2ya => "-A 2ya"@,
            SpaceGroupHallSymbol::MC_2ybc => "-C 2ybc"@,
            SpaceGroupHallSymbol::MI_2yc => "-I 2yc"@,
            SpaceGroupHallSymbol::MA_2a => "-A 2a"@,
            SpaceGroupHallSymbol::MB_2bc => "-B 2bc"@,
            SpaceGroupHallSymbol::MI_2b => "-I 2b"@,
            SpaceGroupHallSymbol::MB_2b => "-B 2b"@,
            SpaceGroupHallSymbol::MA_2ac => "-A 2ac"@,
            SpaceGroupHallSymbol::MI_2a => "-I 2a"@,
            SpaceGroupHallSymbol::MB_2xb => "-B 2xb"@,
            SpaceGroupHallSymbol::MC_2xbc => "-C 2xbc"@,
            SpaceGroupHallSymbol::MI_2xc => "-I 2xc"@,
            SpaceGroupHallSymbol::MC_2xc => "-C 2xc"@,
            SpaceGroupHallSymbol::MB_2xbc => "-B 2xbc"@,
            SpaceGroupHallSymbol::MI_2xb => "-I 2xb"@,
            SpaceGroupHallSymbol::P_2_2 => "P 2 2"@,
            SpaceGroupHallSymbol::P_2c_2 => "P 2c 2"@,
            SpaceGroupHallSymbol::P_2a_2a => "P 2a 2a"@,
            SpaceGroupHallSymbol::P_2_2b => "P 2 2b"@,
            SpaceGroupHallSymbol::P_2_2ab => "P 2 2ab"@,
            SpaceGroupHallSymbol::P_2bc_2 => "P 2bc 2"@,
            SpaceGroupHallSymbol::P_2ac_2ac => "P 2ac 2ac"@,
            SpaceGroupHallSymbol::P_2ac_2ab => "P 2ac 2ab"@,
            SpaceGroupHallSymbol::C_2c_2 => "C 2c 2"@,
            SpaceGroupHallSymbol::A_2a_2a => "A 2a 2a"@,
            SpaceGroupHallSymbol::B_2_2b => "B 2 2b"@,
            SpaceGroupHallSymbol::C_2_2 => "C 2 2"@,
            SpaceGroupHallSymbol::A_2_2 => "A 2 2"@,
            SpaceGroupHallSymbol::B_2_2 => "B 2 2"@,
            SpaceGroupHallSymbol::F_2_2 => "F 2 2"@,
            SpaceGroupHallSymbol::I_2_2 => "I 2 2"@,
            SpaceGroupHallSymbol::I_2b_2c => "I 2b 2c"@,
            SpaceGroupHallSymbol::P_2_M2 => "P 2 -2"@,
            SpaceGroupHallSymbol::P_M2_2 => "P -2 2"@,
            SpaceGroupHallSymbol::P_M2_M2 => "P -2 -2"@,
            SpaceGroupHallSymbol::P_2c_M2 => "P 2c -2"@,
            SpaceGroupHallSymbol::P_2c_M2c => "P 2c -2c"@,
            SpaceGroupHallSymbol::P_M2a_2a => "P -2a 2a"@,
            SpaceGroupHallSymbol::P_M2_2a => "P -2 2a"@,
            SpaceGroupHallSymbol::P_M2_M2b => "P -2 -2b"@,
            SpaceGroupHallSymbol::P_M2b_M2 => "P -2b -2"@,
            SpaceGroupHallSymbol::P_2_M2c => "P 2 -2c"@,
            SpaceGroupHallSymbol::P_M2a_2 => "P -2a 2"@,
            SpaceGroupHallSymbol::P_M2b_M2b => "P -2b -2b"@,
            SpaceGroupHallSymbol::P_2_M2a => "P 2 -2a"@,
            SpaceGroupHallSymbol::P_2_M2b => "P 2 -2b"@,
            SpaceGroupHallSymbol::P_M2b_2 => "P -2b 2"@,
            SpaceGroupHallSymbol::P_M2c_2 => "P -2c 2"@,
            SpaceGroupHallSymbol::P_M2c_M2c => "P -2c -2c"@,
            SpaceGroupHallSymbol::P_M2a_M2a => "P -2a -2a"@,
            SpaceGroupHallSymbol::P_2c_M2ac => "P 2c -2ac"@,
            SpaceGroupHallSymbol::P_2c_M2b => "P 2c -2b"@,
            SpaceGroupHallSymbol::P_M2b_2a => "P -2b 2a"@,
            SpaceGroupHallSymbol::P_M2ac_2a => "P -2ac 2a"@,
            SpaceGroupHallSymbol::P_M2bc_M2c => "P -2bc -2c"@,
            SpaceGroupHallSymbol::P_M2a_M2ab => "P -2a -2ab"@,
            SpaceGroupHallSymbol::P_2_M2bc => "P 2 -2bc"@,
            SpaceGroupHallSymbol::P_2_M2ac => "P 2 -2ac"@,
            SpaceGroupHallSymbol::P_M2ac_2 => "P -2ac 2"@,
            SpaceGroupHallSymbol::P_M2ab_2 => "P -2ab 2"@,
            SpaceGroupHallSymbol::P_M2ab_M2ab => "P -2ab -2ab"@,
            SpaceGroupHallSymbol::P_M2bc_M2bc => "P -2bc -2bc"@,
            SpaceGroupHallSymbol::P_2ac_M2 => "P 2ac -2"@,
            SpaceGroupHallSymbol::P_2bc_M2bc => "P 2bc -2bc"@,
            SpaceGroupHallSymbol::P_M2ab_2ab => "P -2ab 2ab"@,
            SpaceGroupHallSymbol::P_M2_2ac => "P -2 2ac"@,
            SpaceGroupHallSymbol::P_M2_M2bc => "P -2 -2bc"@,
            SpaceGroupHallSymbol::P_M2ab_M2 => "P -2ab -2"@,
            SpaceGroupHallSymbol::P_2_M2ab => "P 2 -2ab"@,
            SpaceGroupHallSymbol::P_M2bc_2 => "P -2bc 2"@,
            SpaceGroupHallSymbol::P_M2ac_M2ac => "P -2ac -2ac"@,
            SpaceGroupHallSymbol::P_2c_M2n => "P 2c -2n"@,
            SpaceGroupHallSymbol::P_2c_M2ab => "P 2c -2ab"@,
            SpaceGroupHallSymbol::P_M2bc_2a => "P -2bc 2a"@,
            SpaceGroupHallSymbol::P_M2n_2a => "P -2n 2a"@,
            SpaceGroupHallSymbol::P_M2n_M2ac => "P -2n -2ac"@,
            SpaceGroupHallSymbol::P_M2ac_M2n => "P -2ac -2n"@,
            SpaceGroupHallSymbol::P_2_M2n => "P 2 -2n"@,
            SpaceGroupHallSymbol::P_M2n_2 => "P -2n 2"@,
            SpaceGroupHallSymbol::P_M2n_M2n => "P -2n -2n"@,
            SpaceGroupHallSymbol::C_2_M2 => "C 2 -2"@,
            SpaceGroupHallSymbol::A_M2_2 => "A -2 2"@,
            SpaceGroupHallSymbol::B_M2_M2 => "B -2 -2"@,
            SpaceGroupHallSymbol::C_2c_M2 => "C 2c -2"@,
            SpaceGroupHallSymbol::C_2c_M2c => "C 2c -2c"@,
            SpaceGroupHallSymbol::A_M2a_2a => "A -2a 2a"@,
            SpaceGroupHallSymbol::A_M2_2a => "A -2 2a"@,
            SpaceGroupHallSymbol::B_M2_M2b => "B -2 -2b"@,
            SpaceGroupHallSymbol::B_M2b_M2 => "B -2b -2"@,
            SpaceGroupHallSymbol::C_2_M2c => "C 2 -2c"@,
            SpaceGroupHallSymbol::A_M2a_2 => "A -2a 2"@,
            SpaceGroupHallSymbol::B_M2b_M2b => "B -2b -2b"@,
            SpaceGroupHallSymbol::A_2_M2 => "A 2 -2"@,
            SpaceGroupHallSymbol::B_2_M2 => "B 2 -2"@,
            SpaceGroupHallSymbol::B_M2_2 => "B -2 2"@,
            SpaceGroupHallSymbol::C_M2_2 => "C -2 2"@,
            SpaceGroupHallSymbol::C_M2_M2 => "C -2 -2"@,
            SpaceGroupHallSymbol::A_M2_M2 => "A -2 -2"@,
            SpaceGroupHallSymbol::A_2_M2c => "A 2 -2c"@,
            SpaceGroupHallSymbol::B_2_M2c => "B 2 -2c"@,
            SpaceGroupHallSymbol::B_M2c_2 => "B -2c 2"@,
            SpaceGroupHallSymbol::C_M2b_2 => "C -2b 2"@,
            SpaceGroupHallSymbol::C_M2b_M2b => "C -2b -2b"@,
            SpaceGroupHallSymbol::A_M2c_M2c => "A -2c -2c"@,
            SpaceGroupHallSymbol::A_2_M2a => "A 2 -2a"@,
            SpaceGroupHallSymbol::B_2_M2b => "B 2 -2b"@,
            SpaceGroupHallSymbol::B_M2b_2 => "B -2b 2"@,
            SpaceGroupHallSymbol::C_M2c_2 => "C -2c 2"@,
            SpaceGroupHallSymbol::C_M2c_M2c => "C -2c -2c"@,
            SpaceGroupHallSymbol::A_M2a_M2a => "A -2a -2a"@,
            SpaceGroupHallSymbol::A_2_M2ac => "A 2 -2ac"@,
            SpaceGroupHallSymbol::B_2_M2bc => "B 2 -2bc"@,
            SpaceGroupHallSymbol::B_M2bc_2 => "B -2bc 2"@,
            SpaceGroupHallSymbol::C_M2bc_2 => "C -2bc 2"@,
            SpaceGroupHallSymbol::C_M2bc_M2bc => "C -2bc -2bc"@,
            SpaceGroupHallSymbol::A_M2ac_M2ac => "A -2ac -2ac"@,
            SpaceGroupHallSymbol::F_2_M2 => "F 2 -2"@,
            SpaceGroupHallSymbol::F_M2_2 => "F -2 2"@,
            SpaceGroupHallSymbol::F_M2_M2 => "F -2 -2"@,
            SpaceGroupHallSymbol::F_2_M2d => "F 2 -2d"@,
            SpaceGroupHallSymbol::F_M2d_2 => "F -2d 2"@,
            SpaceGroupHallSymbol::F_M2d_M2d => "F -2d -2d"@,
            SpaceGroupHallSymbol::I_2_M2 => "I 2 -2"@,
            SpaceGroupHallSymbol::I_M2_2 => "I -2 2"@,
            SpaceGroupHallSymbol::I_M2_M2 => "I -2 -2"@,
            SpaceGroupHallSymbol::I_2_M2c => "I 2 -2c"@,
            SpaceGroupHallSymbol::I_M2a_2 => "I -2a 2"@,
            SpaceGroupHallSymbol::I_M2b_M2b => "I -2b -2b"@,
            SpaceGroupHallSymbol::I_2_M2a => "I 2 -2a"@,
            SpaceGroupHallSymbol::I_2_M2b => "I 2 -2b"@,
            SpaceGroupHallSymbol::I_M2b_2 => "I -2b 2"@,
            SpaceGroupHallSymbol::I_M2c_2 => "I -2c 2"@,
            SpaceGroupHallSymbol::I_M2c_M2c => "I -2c -2c"@,
            SpaceGroupHallSymbol::I_M2a_M2a => "I -2a -2a"@,
            SpaceGroupHallSymbol::MP_2_2 => "-P 2 2"@,
            SpaceGroupHallSymbol::P_2_2_M1n => "P 2 2 -1n"@,
            SpaceGroupHallSymbol::MP_2ab_2bc => "-P 2ab 2bc"@,
            SpaceGroupHallSymbol::MP_2_2c => "-P 2 2c"@,
            SpaceGroupHallSymbol::MP_2a_2 => "-P 2a 2"@,
            SpaceGroupHallSymbol::MP_2b_2b => "-P 2b 2b"@,
            SpaceGroupHallSymbol::P_2_2_M1ab => "P 2 2 -1ab"@,
            SpaceGroupHallSymbol::MP_2ab_2b => "-P 2ab 2b"@,
            SpaceGroupHallSymbol::P_2_2_M1bc => "P 2 2 -1bc"@,
            SpaceGroupHallSymbol::MP_2b_2bc => "-P 2b 2bc"@,
            SpaceGroupHallSymbol::P_2_2_M1ac => "P 2 2 -1ac"@,
            SpaceGroupHallSymbol::MP_2a_2c => "-P 2a 2c"@,
            SpaceGroupHallSymbol::MP_2a_2a => "-P 2a 2a"@,
            SpaceGroupHallSymbol::MP_2b_2 => "-P 2b 2"@,
            SpaceGroupHallSymbol::MP_2_2b => "-P 2 2b"@,
            SpaceGroupHallSymbol::MP_2c_2c => "-P 2c 2c"@,
            SpaceGroupHallSymbol::MP_2c_2 => "-P 2c 2"@,
            SpaceGroupHallSymbol::MP_2_2a => "-P 2 2a"@,
            SpaceGroupHallSymbol::MP_2a_2bc => "-P 2a 2bc"@,
            SpaceGroupHallSymbol::MP_2b_2n => "-P 2b 2n"@,
            SpaceGroupHallSymbol::MP_2n_2b => "-P 2n 2b"@,
            SpaceGroupHallSymbol::MP_2ab_2c => "-P 2ab 2c"@,
            SpaceGroupHallSymbol::MP_2ab_2n => "-P 2ab 2n"@,
            SpaceGroupHallSymbol::MP_2n_2bc => "-P 2n 2bc"@,
            SpaceGroupHallSymbol::MP_2ac_2 => "-P 2ac 2"@,
            SpaceGroupHallSymbol::MP_2bc_2bc => "-P 2bc 2bc"@,
            SpaceGroupHallSymbol::MP_2ab_2ab => "-P 2ab 2ab"@,
            SpaceGroupHallSymbol::MP_2_2ac => "-P 2 2ac"@,
            SpaceGroupHallSymbol::MP_2_2bc => "-P 2 2bc"@,
            SpaceGroupHallSymbol::MP_2ab_2 => "-P 2ab 2"@,
            SpaceGroupHallSymbol::MP_2a_2ac => "-P 2a 2ac"@,
            SpaceGroupHallSymbol::MP_2b_2c => "-P 2b 2c"@,
            SpaceGroupHallSymbol::MP_2a_2b => "-P 2a 2b"@,
            SpaceGroupHallSymbol::MP_2ac_2c => "-P 2ac 2c"@,
            SpaceGroupHallSymbol::MP_2bc_2b => "-P 2bc 2b"@,
            SpaceGroupHallSymbol::MP_2b_2ab => "-P 2b 2ab"@,
            SpaceGroupHallSymbol::MP_2_2ab => "-P 2 2ab"@,
            SpaceGroupHallSymbol::MP_2bc_2 => "-P 2bc 2"@,
            SpaceGroupHallSymbol::MP_2ac_2ac => "-P 2ac 2ac"@,
            SpaceGroupHallSymbol::MP_2ab_2ac => "-P 2ab 2ac"@,
            SpaceGroupHallSymbol::MP_2ac_2bc => "-P 2ac 2bc"@,
            SpaceGroupHallSymbol::MP_2bc_2ab => "-P 2bc 2ab"@,
            SpaceGroupHallSymbol::MP_2c_2b => "-P 2c 2b"@,
            SpaceGroupHallSymbol::MP_2c_2ac => "-P 2c 2ac"@,
            SpaceGroupHallSymbol::MP_2ac_2a => "-P 2ac 2a"@,
            SpaceGroupHallSymbol::MP_2b_2a => "-P 2b 2a"@,
            SpaceGroupHallSymbol::MP_2a_2ab => "-P 2a 2ab"@,
            SpaceGroupHallSymbol::MP_2bc_2c => "-P 2bc 2c"@,
            SpaceGroupHallSymbol::MP_2_2n => "-P 2 2n"@,
            SpaceGroupHallSymbol::MP_2n_2 => "-P 2n 2"@,
            SpaceGroupHallSymbol::MP_2n_2n => "-P 2n 2n"@,
            SpaceGroupHallSymbol::P_2_2ab_M1ab => "P 2 2ab -1ab"@,
            SpaceGroupHallSymbol::MP_2ab_2a => "-P 2ab 2a"@,
            SpaceGroupHallSymbol::P_2bc_2_M1bc => "P 2bc 2 -1bc"@,
            SpaceGroupHallSymbol::MP_2c_2bc => "-P 2c 2bc"@,
            SpaceGroupHallSymbol::P_2ac_2ac_M1ac => "P 2ac 2ac -1ac"@,
            SpaceGroupHallSymbol::MP_2c_2a => "-P 2c 2a"@,
            SpaceGroupHallSymbol::MP_2n_2ab => "-P 2n 2ab"@,
            SpaceGroupHallSymbol::MP_2n_2c => "-P 2n 2c"@,
            SpaceGroupHallSymbol::MP_2a_2n => "-P 2a 2n"@,
            SpaceGroupHallSymbol::MP_2bc_2n => "-P 2bc 2n"@,
            SpaceGroupHallSymbol::MP_2ac_2b => "-P 2ac 2b"@,
            SpaceGroupHallSymbol::MP_2b_2ac => "-P 2b 2ac"@,
            SpaceGroupHallSymbol::MP_2ac_2ab => "-P 2ac 2ab"@,
            SpaceGroupHallSymbol::MP_2bc_2ac => "-P 2bc 2ac"@,
            SpaceGroupHallSymbol::MP_2ac_2n => "-P 2ac 2n"@,
            SpaceGroupHallSymbol::MP_2bc_2a => "-P 2bc 2a"@,
            SpaceGroupHallSymbol::MP_2c_2ab => "-P 2c 2ab"@,
            SpaceGroupHallSymbol::MP_2n_2ac => "-P 2n 2ac"@,
            SpaceGroupHallSymbol::MP_2n_2a => "-P 2n 2a"@,
            SpaceGroupHallSymbol::MP_2c_2n => "-P 2c 2n"@,
            SpaceGroupHallSymbol::MC_2c_2 => "-C 2c 2"@,
            SpaceGroupHallSymbol::MC_2c_2c => "-C 2c 2c"@,
            SpaceGroupHallSymbol::MA_2a_2a => "-A 2a 2a"@,
            SpaceGroupHallSymbol::MA_2_2a => "-A 2 2a"@,
            SpaceGroupHallSymbol::MB_2_2b => "-B 2 2b"@,
            SpaceGroupHallSymbol::MB_2b_2 => "-B 2b 2"@,
            SpaceGroupHallSymbol::MC_2bc_2 => "-C 2bc 2"@,
            SpaceGroupHallSymbol::MC_2bc_2bc => "-C 2bc 2bc"@,
            SpaceGroupHallSymbol::MA_2ac_2ac => "-A 2ac 2ac"@,
            SpaceGroupHallSymbol::MA_2_2ac => "-A 2 2ac"@,
            SpaceGroupHallSymbol::MB_2_2bc => "-B 2 2bc"@,
            SpaceGroupHallSymbol::MB_2bc_2 => "-B 2bc 2"@,
            SpaceGroupHallSymbol::MC_2_2 => "-C 2 2"@,
            SpaceGroupHallSymbol::MA_2_2 => "-A 2 2"@,
            SpaceGroupHallSymbol::MB_2_2 => "-B 2 2"@,
            SpaceGroupHallSymbol::MC_2_2c => "-C 2 2c"@,
            SpaceGroupHallSymbol::MA_2a_2 => "-A 2a 2"@,
            SpaceGroupHallSymbol::MB_2b_2b => "-B 2b 2b"@,
            SpaceGroupHallSymbol::MC_2b_2 => "-C 2b 2"@,
            SpaceGroupHallSymbol::MC_2b_2b => "-C 2b 2b"@,
            SpaceGroupHallSymbol::MA_2c_2c => "-A 2c 2c"@,
            SpaceGroupHallSymbol::MA_2_2c => "-A 2 2c"@,
            SpaceGroupHallSymbol::MB_2_2c => "-B 2 2c"@,
            SpaceGroupHallSymbol::MB_2c_2 => "-B 2c 2"@,
            SpaceGroupHallSymbol::C_2_2_M1bc_1 => "C 2 2 -1bc"@,
            SpaceGroupHallSymbol::MC_2b_2bc => "-C 2b 2bc"@,
            SpaceGroupHallSymbol::C_2_2_M1bc_2 => "C 2 2 -1bc"@,
            SpaceGroupHallSymbol::MC_2b_2c => "-C 2b 2c"@,
            SpaceGroupHallSymbol::A_2_2_M1ac_1 => "A 2 2 -1ac"@,
            SpaceGroupHallSymbol::MA_2a_2c => "-A 2a 2c"@,
            SpaceGroupHallSymbol::A_2_2_M1ac_2 => "A 2 2 -1ac"@,
            SpaceGroupHallSymbol::MA_2ac_2c => "-A 2ac 2c"@,
            SpaceGroupHallSymbol::B_2_2_M1bc_1 => "B 2 2 -1bc"@,
            SpaceGroupHallSymbol::MB_2bc_2b => "-B 2bc 2b"@,
            SpaceGroupHallSymbol::B_2_2_M1bc_2 => "B 2 2 -1bc"@,
            SpaceGroupHallSymbol::MB_2b_2bc => "-B 2b 2bc"@,
            SpaceGroupHallSymbol::MF_2_2 => "-F 2 2"@,
            SpaceGroupHallSymbol::F_2_2_M1d => "F 2 2 -1d"@,
            SpaceGroupHallSymbol::MF_2uv_2vw => "-F 2uv 2vw"@,
            SpaceGroupHallSymbol::MI_2_2 => "-I 2 2"@,
            SpaceGroupHallSymbol::MI_2_2c => "-I 2 2c"@,
            SpaceGroupHallSymbol::MI_2a_2 => "-I 2a 2"@,
            SpaceGroupHallSymbol::MI_2b_2b => "-I 2b 2b"@,
            SpaceGroupHallSymbol::MI_2b_2c => "-I 2b 2c"@,
            SpaceGroupHallSymbol::MI_2a_2b => "-I 2a 2b"@,
            SpaceGroupHallSymbol::MI_2b_2 => "-I 2b 2"@,
            SpaceGroupHallSymbol::MI_2a_2a => "-I 2a 2a"@,
            SpaceGroupHallSymbol::MI_2c_2c => "-I 2c 2c"@,
            SpaceGroupHallSymbol::MI_2_2b => "-I 2 2b"@,
            SpaceGroupHallSymbol::MI_2_2a => "-I 2 2a"@,
            SpaceGroupHallSymbol::MI_2c_2 => "-I 2c 2"@,
            SpaceGroupHallSymbol::P_4 => "P 4"@,
            SpaceGroupHallSymbol::P_4w => "P 4w"@,
            SpaceGroupHallSymbol::P_4c => "P 4c"@,
            SpaceGroupHallSymbol::P_4cw => "P 4cw"@,
            SpaceGroupHallSymbol::I_4 => "I 4"@,
            SpaceGroupHallSymbol::I_4bw => "I 4bw"@,
            SpaceGroupHallSymbol::P_M4 => "P -4"@,
            SpaceGroupHallSymbol::I_M4 => "I -4"@,
            SpaceGroupHallSymbol::MP_4 => "-P 4"@,
            SpaceGroupHallSymbol::MP_4c => "-P 4c"@,
            SpaceGroupHallSymbol::P_4ab_M1ab => "P 4ab -1ab"@,
            SpaceGroupHallSymbol::MP_4a => "-P 4a"@,
            SpaceGroupHallSymbol::P_4n_M1n => "P 4n -1n"@,
            SpaceGroupHallSymbol::MP_4bc => "-P 4bc"@,
            SpaceGroupHallSymbol::MI_4 => "-I 4"@,
            SpaceGroupHallSymbol::I_4bw_M1bw => "I 4bw -1bw"@,
            SpaceGroupHallSymbol::MI_4ad => "-I 4ad"@,
            SpaceGroupHallSymbol::P_4_2 => "P 4 2"@,
            SpaceGroupHallSymbol::P_4ab_2ab => "P 4ab 2ab"@,
            SpaceGroupHallSymbol::P_4w_2c => "P 4w 2c"@,
            SpaceGroupHallSymbol::P_4abw_2nw => "P 4abw 2nw"@,
            SpaceGroupHallSymbol::P_4c_2 => "P 4c 2"@,
            SpaceGroupHallSymbol::P_4n_2n => "P 4n 2n"@,
            SpaceGroupHallSymbol::P_4cw_2c => "P 4cw 2c"@,
            SpaceGroupHallSymbol::P_4nw_2abw => "P 4nw 2abw"@,
            SpaceGroupHallSymbol::I_4_2 => "I 4 2"@,
            SpaceGroupHallSymbol::I_4bw_2bw => "I 4bw 2bw"@,
            SpaceGroupHallSymbol::P_4_M2 => "P 4 -2"@,
            SpaceGroupHallSymbol::P_4_M2ab => "P 4 -2ab"@,
            SpaceGroupHallSymbol::P_4c_M2c => "P 4c -2c"@,
            SpaceGroupHallSymbol::P_4n_M2n => "P 4n -2n"@,
            SpaceGroupHallSymbol::P_4_M2c => "P 4 -2c"@,
            SpaceGroupHallSymbol::P_4_M2n => "P 4 -2n"@,
            SpaceGroupHallSymbol::P_4c_M2 => "P 4c -2"@,
            SpaceGroupHallSymbol::P_4c_M2ab => "P 4c -2ab"@,
            SpaceGroupHallSymbol::I_4_M2 => "I 4 -2"@,
            SpaceGroupHallSymbol::I_4_M2c => "I 4 -2c"@,
            SpaceGroupHallSymbol::I_4bw_M2 => "I 4bw -2"@,
            SpaceGroupHallSymbol::I_4bw_M2c => "I 4bw -2c"@,
            SpaceGroupHallSymbol::P_M4_2 => "P -4 2"@,
            SpaceGroupHallSymbol::P_M4_2c => "P -4 2c"@,
            SpaceGroupHallSymbol::P_M4_2ab => "P -4 2ab"@,
            SpaceGroupHallSymbol::P_M4_2n => "P -4 2n"@,
            SpaceGroupHallSymbol::P_M4_M2 => "P -4 -2"@,
            SpaceGroupHallSymbol::P_M4_M2c => "P -4 -2c"@,
            SpaceGroupHallSymbol::P_M4_M2ab => "P -4 -2ab"@,
            SpaceGroupHallSymbol::P_M4_M2n => "P -4 -2n"@,
            SpaceGroupHallSymbol::I_M4_M2 => "I -4 -2"@,
            SpaceGroupHallSymbol::I_M4_M2c => "I -4 -2c"@,
            SpaceGroupHallSymbol::I_M4_2 => "I -4 2"@,
            SpaceGroupHallSymbol::I_M4_2bw => "I -4 2bw"@,
            SpaceGroupHallSymbol::MP_4_2 => "-P 4 2"@,
            SpaceGroupHallSymbol::MP_4_2c => "-P 4 2c"@,
            SpaceGroupHallSymbol::P_4_2_M1ab => "P 4 2 -1ab"@,
            SpaceGroupHallSymbol::MP_4a_2b => "-P 4a 2b"@,
            SpaceGroupHallSymbol::P_4_2_M1n => "P 4 2 -1n"@,
            SpaceGroupHallSymbol::MP_4a_2bc => "-P 4a 2bc"@,
            SpaceGroupHallSymbol::MP_4_2ab => "-P 4 2ab"@,
            SpaceGroupHallSymbol::MP_4_2n => "-P 4 2n"@,
            SpaceGroupHallSymbol::P_4ab_2ab_M1ab => "P 4ab 2ab -1ab"@,
            SpaceGroupHallSymbol::MP_4a_2a => "-P 4a 2a"@,
            SpaceGroupHallSymbol::P_4ab_2n_M1ab => "P 4ab 2n -1ab"@,
            SpaceGroupHallSymbol::MP_4a_2ac => "-P 4a 2ac"@,
            SpaceGroupHallSymbol::MP_4c_2 => "-P 4c 2"@,
            SpaceGroupHallSymbol::MP_4c_2c => "-P 4c 2c"@,
            SpaceGroupHallSymbol::P_4n_2c_M1n => "P 4n 2c -1n"@,
            SpaceGroupHallSymbol::MP_4ac_2b => "-P 4ac 2b"@,
            SpaceGroupHallSymbol::P_4n_2_M1n => "P 4n 2 -1n"@,
            SpaceGroupHallSymbol::MP_4ac_2bc => "-P 4ac 2bc"@,
            SpaceGroupHallSymbol::MP_4c_2ab => "-P 4c 2ab"@,
            SpaceGroupHallSymbol::MP_4n_2n => "-P 4n 2n"@,
            SpaceGroupHallSymbol::P_4n_2n_M1n => "P 4n 2n -1n"@,
            SpaceGroupHallSymbol::MP_4ac_2a => "-P 4ac 2a"@,
            SpaceGroupHallSymbol::P_4n_2ab_M1n => "P 4n 2ab -1n"@,
            SpaceGroupHallSymbol::MP_4ac_2ac => "-P 4ac 2ac"@,
            SpaceGroupHallSymbol::MI_4_2 => "-I 4 2"@,
            SpaceGroupHallSymbol::MI_4_2c => "-I 4 2c"@,
            SpaceGroupHallSymbol::I_4bw_2bw_M1bw => "I 4bw 2bw -1bw"@,
            SpaceGroupHallSymbol::MI_4bd_2 => "-I 4bd 2"@,
            SpaceGroupHallSymbol::I_4bw_2aw_M1bw => "I 4bw 2aw -1bw"@,
            SpaceGroupHallSymbol::MI_4bd_2c => "-I 4bd 2c"@,
            SpaceGroupHallSymbol::P_3 => "P 3"@,
            SpaceGroupHallSymbol::P_31 => "P 31"@,
            SpaceGroupHallSymbol::P_32 => "P 32"@,
            SpaceGroupHallSymbol::R_3 => "R 3"@,
            SpaceGroupHallSymbol::P_3A => "P 3*"@,
            SpaceGroupHallSymbol::MP_3 => "-P 3"@,
            SpaceGroupHallSymbol::MR_3 => "-R 3"@,
            SpaceGroupHallSymbol::MP_3A => "-P 3*"@,
            SpaceGroupHallSymbol::P_3_2 => "P 3 2"@,
            SpaceGroupHallSymbol::P_3_2D => "P 3 2\""@,
            SpaceGroupHallSymbol::P_31_2c_0_0_1 => "P 31 2c (0 0 1)"@,
            SpaceGroupHallSymbol::P_31_2D => "P 31 2\""@,
            SpaceGroupHallSymbol::P_32_2c_0_0_M1 => "P 32 2c (0 0 -1)"@,
            SpaceGroupHallSymbol::P_32_2D => "P 32 2\""@,
            SpaceGroupHallSymbol::R_3_2D => "R 3 2\""@,
            SpaceGroupHallSymbol::P_3A_2 => "P 3* 2"@,
            SpaceGroupHallSymbol::P_3_M2D => "P 3 -2\""@,
            SpaceGroupHallSymbol::P_3_M2 => "P 3 -2"@,
            SpaceGroupHallSymbol::P_3_M2Dc => "P 3 -2\"c"@,
            SpaceGroupHallSymbol::P_3_M2c => "P 3 -2c"@,
            SpaceGroupHallSymbol::R_3_M2D => "R 3 -2\""@,
            SpaceGroupHallSymbol::P_3A_M2 => "P 3* -2"@,
            SpaceGroupHallSymbol::R_3_M2Dc => "R 3 -2\"c"@,
            SpaceGroupHallSymbol::P_3A_M2n => "P 3* -2n"@,
            SpaceGroupHallSymbol::MP_3_2 => "-P 3 2"@,
            SpaceGroupHallSymbol::MP_3_2c => "-P 3 2c"@,
            SpaceGroupHallSymbol::MP_3_2D => "-P 3 2\""@,
            SpaceGroupHallSymbol::MP_3_2Dc => "-P 3 2\"c"@,
            SpaceGroupHallSymbol::MR_3_2D => "-R 3 2\""@,
            SpaceGroupHallSymbol::MP_3A_2 => "-P 3* 2"@,
            SpaceGroupHallSymbol::MR_3_2Dc => "-R 3 2\"c"@,
            SpaceGroupHallSymbol::MP_3A_2n => "-P 3* 2n"@,
            SpaceGroupHallSymbol::P_6 => "P 6"@,
            SpaceGroupHallSymbol::P_61 => "P 61"@,
            SpaceGroupHallSymbol::P_65 => "P 65"@,
            SpaceGroupHallSymbol::P_62 => "P 62"@,
            SpaceGroupHallSymbol::P_64 => "P 64"@,
            SpaceGroupHallSymbol::P_6c => "P 6c"@,
            SpaceGroupHallSymbol::P_M6 => "P -6"@,
            SpaceGroupHallSymbol::MP_6 => "-P 6"@,
            SpaceGroupHallSymbol::MP_6c => "-P 6c"@,
            SpaceGroupHallSymbol::P_6_2 => "P 6 2"@,
            SpaceGroupHallSymbol::P_61_2_0_0_M1 => "P 61 2 (0 0 -1)"@,
            SpaceGroupHallSymbol::P_65_2_0_0_1 => "P 65 2 (0 0 1)"@,
            SpaceGroupHallSymbol::P_62_2c_0_0_1 => "P 62 2c (0 0 1)"@,
            SpaceGroupHallSymbol::P_64_2c_0_0_M1 => "P 64 2c (0 0 -1)"@,
            SpaceGroupHallSymbol::P_6c_2c => "P 6c 2c"@,
            SpaceGroupHallSymbol::P_6_M2 => "P 6 -2"@,
            SpaceGroupHallSymbol::P_6_M2c => "P 6 -2c"@,
            SpaceGroupHallSymbol::P_6c_M2 => "P 6c -2"@,
            SpaceGroupHallSymbol::P_6c_M2c => "P 6c -2c"@,
            SpaceGroupHallSymbol::P_M6_2 => "P -6 2"@,
            SpaceGroupHallSymbol::P_M6c_2 => "P -6c 2"@,
            SpaceGroupHallSymbol::P_M6_M2 => "P -6 -2"@,
            SpaceGroupHallSymbol::P_M6c_M2c => "P -6c -2c"@,
            SpaceGroupHallSymbol::MP_6_2 => "-P 6 2"@,
            SpaceGroupHallSymbol::MP_6_2c => "-P 6 2c"@,
            SpaceGroupHallSymbol::MP_6c_2 => "-P 6c 2"@,
            SpaceGroupHallSymbol::MP_6c_2c => "-P 6c 2c"@,
            SpaceGroupHallSymbol::P_2_2_3 => "P 2 2 3"@,
            SpaceGroupHallSymbol::F_2_2_3 => "F 2 2 3"@,
            SpaceGroupHallSymbol::I_2_2_3 => "I 2 2 3"@,
            SpaceGroupHallSymbol::P_2ac_2ab_3 => "P 2ac 2ab 3"@,
            SpaceGroupHallSymbol::I_2b_2c_3 => "I 2b 2c 3"@,
            SpaceGroupHallSymbol::MP_2_2_3 => "-P 2 2 3"@,
            SpaceGroupHallSymbol::P_2_2_3_M1n => "P 2 2 3 -1n"@,
            SpaceGroupHallSymbol::MP_2ab_2bc_3 => "-P 2ab 2bc 3"@,
            SpaceGroupHallSymbol::MF_2_2_3 => "-F 2 2 3"@,
            SpaceGroupHallSymbol::F_2_2_3_M1d => "F 2 2 3 -1d"@,
            SpaceGroupHallSymbol::MF_2uv_2vw_3 => "-F 2uv 2vw 3"@,
            SpaceGroupHallSymbol::MI_2_2_3 => "-I 2 2 3"@,
            SpaceGroupHallSymbol::MP_2ac_2ab_3 => "-P 2ac 2ab 3"@,
            SpaceGroupHallSymbol::MI_2b_2c_3 => "-I 2b 2c 3"@,
            SpaceGroupHallSymbol::P_4_2_3 => "P 4 2 3"@,
            SpaceGroupHallSymbol::P_4n_2_3 => "P 4n 2 3"@,
            SpaceGroupHallSymbol::F_4_2_3 => "F 4 2 3"@,
            SpaceGroupHallSymbol::F_4d_2_3 => "F 4d 2 3"@,
            SpaceGroupHallSymbol::I_4_2_3 => "I 4 2 3"@,
            SpaceGroupHallSymbol::P_4acd_2ab_3 => "P 4acd 2ab 3"@,
            SpaceGroupHallSymbol::P_4bd_2ab_3 => "P 4bd 2ab 3"@,
            SpaceGroupHallSymbol::I_4bd_2c_3 => "I 4bd 2c 3"@,
            SpaceGroupHallSymbol::P_M4_2_3 => "P -4 2 3"@,
            SpaceGroupHallSymbol::F_M4_2_3 => "F -4 2 3"@,
            SpaceGroupHallSymbol::I_M4_2_3 => "I -4 2 3"@,
            SpaceGroupHallSymbol::P_M4n_2_3 => "P -4n 2 3"@,
            SpaceGroupHallSymbol::F_M4c_2_3 => "F -4c 2 3"@,
            SpaceGroupHallSymbol::I_M4bd_2c_3 => "I -4bd 2c 3"@,
            SpaceGroupHallSymbol::MP_4_2_3 => "-P 4 2 3"@,
            SpaceGroupHallSymbol::P_4_2_3_M1n => "P 4 2 3 -1n"@,
            SpaceGroupHallSymbol::MP_4a_2bc_3 => "-P 4a 2bc 3"@,
            SpaceGroupHallSymbol::MP_4n_2_3 => "-P 4n 2 3"@,
            SpaceGroupHallSymbol::P_4n_2_3_M1n => "P 4n 2 3 -1n"@,
            SpaceGroupHallSymbol::MP_4bc_2bc_3 => "-P 4bc 2bc 3"@,
            SpaceGroupHallSymbol::MF_4_2_3 => "-F 4 2 3"@,
            SpaceGroupHallSymbol::MF_4c_2_3 => "-F 4c 2 3"@,
            SpaceGroupHallSymbol::F_4d_2_3_M1d => "F 4d 2 3 -1d"@,
            SpaceGroupHallSymbol::MF_4vw_2vw_3 => "-F 4vw 2vw 3"@,
            SpaceGroupHallSymbol::F_4d_2_3_M1cd => "F 4d 2 3 -1cd"@,
            SpaceGroupHallSymbol::MF_4cvw_2vw_3 => "-F 4cvw 2vw 3"@,
            SpaceGroupHallSymbol::MI_4_2_3 => "-I 4 2 3"@,
            SpaceGroupHallSymbol::MI_4bd_2c_3 => "-I 4bd 2c 3"@,
        }
    }

    pub fn get_hall_symbol(&self) -> (s: String)
        ensures
            s@ == self.hall_text(),
    {
        String::from_str(self.hall_symbol_str())
    }

    /// The Hall symbol of the setting, parsed.
    pub fn notation(&self) -> (r: Result<HallSymbolNotation, ParseError>)
        ensures
            match r {
                Ok(h) => hall_symbol_of(self.hall_text()) == Some(h@),
                Err(_) => hall_symbol_of(self.hall_text()) is None,
            },
    {
        HallSymbolNotation::try_from_str(self.hall_symbol_str())
    }

    /// The Hall symbol of the setting, as a string slice.
    pub fn hall_symbol_str(&self) -> (s: &'static str)
        ensures
            s@ == self.hall_text(),
    {
        match self {
            SpaceGroupHallSymbol::P_1 => "P 1",
            SpaceGroupHallSymbol::MP_1 => "-P 1",
            SpaceGroupHallSymbol::P_2y => "P 2y",
            SpaceGroupHallSymbol::P_2 => "P 2",
            SpaceGroupHallSymbol::P_2x => "P 2x",
            SpaceGroupHallSymbol::P_2yb => "P 2yb",
            SpaceGroupHallSymbol::P_2c => "P 2c",
            SpaceGroupHallSymbol::P_2xa => "P 2xa",
            SpaceGroupHallSymbol::C_2y => "C 2y",
            SpaceGroupHallSymbol::A_2y => "A 2y",
            SpaceGroupHallSymbol::I_2y => "I 2y",
            SpaceGroupHallSymbol::A_2 => "A 2",
            SpaceGroupHallSymbol::B_2 => "B 2",
            SpaceGroupHallSymbol::I_2 => "I 2",
            SpaceGroupHallSymbol::B_2x => "B 2x",
            SpaceGroupHallSymbol::C_2x => "C 2x",
            SpaceGroupHallSymbol::I_2x => "I 2x",
            SpaceGroupHallSymbol::P_M2y => "P -2y",
            SpaceGroupHallSymbol::P_M2 => "P -2",
            SpaceGroupHallSymbol::P_M2x => "P -2x",
            SpaceGroupHallSymbol::P_M2yc => "P -2yc",
            SpaceGroupHallSymbol::P_M2yac => "P -2yac",
            SpaceGroupHallSymbol::P_M2ya => "P -2ya",
            SpaceGroupHallSymbol::P_M2a => "P -2a",
            SpaceGroupHallSymbol::P_M2ab => "P -2ab",
            SpaceGroupHallSymbol::P_M2b => "P -2b",
            SpaceGroupHallSymbol::P_M2xb => "P -2xb",
            SpaceGroupHallSymbol::P_M2xbc => "P -2xbc",
            SpaceGroupHallSymbol::P_M2xc => "P -2xc",
            SpaceGroupHallSymbol::C_M2y => "C -2y",
            SpaceGroupHallSymbol::A_M2y => "A -2y",
            SpaceGroupHallSymbol::I_M2y => "I -2y",
            SpaceGroupHallSymbol::A_M2 => "A -2",
            SpaceGroupHallSymbol::B_M2 => "B -2",
            SpaceGroupHallSymbol::I_M2 => "I -2",
            SpaceGroupHallSymbol::B_M2x => "B -2x",
            SpaceGroupHallSymbol::C_M2x => "C -2x",
            SpaceGroupHallSymbol::I_M2x => "I -2x",
            SpaceGroupHallSymbol::C_M2yc => "C -2yc",
            SpaceGroupHallSymbol::A_M2yac => "A -2yac",
            SpaceGroupHallSymbol::I_M2ya => "I -2ya",
            SpaceGroupHallSymbol::A_M2ya => "A -2ya",
            SpaceGroupHallSymbol::C_M2ybc => "C -2ybc",
            SpaceGroupHallSymbol::I_M2yc => "I -2yc",
            SpaceGroupHallSymbol::A_M2a => "A -2a",
            SpaceGroupHallSymbol::B_M2bc => "B -2bc",
            SpaceGroupHallSymbol::I_M2b => "I -2b",
            SpaceGroupHallSymbol::B_M2b => "B -2b",
            SpaceGroupHallSymbol::A_M2ac => "A -2ac",
            SpaceGroupHallSymbol::I_M2a => "I -2a",
            SpaceGroupHallSymbol::B_M2xb => "B -2xb",
            SpaceGroupHallSymbol::C_M2xbc => "C -2xbc",
            SpaceGroupHallSymbol::I_M2xc => "I -2xc",
            SpaceGroupHallSymbol::C_M2xc => "C -2xc",
            SpaceGroupHallSymbol::B_M2xbc => "B -2xbc",
            SpaceGroupHallSymbol::I_M2xb => "I -2xb",
            SpaceGroupHallSymbol::MP_2y => "-P 2y",
            SpaceGroupHallSymbol::MP_2 => "-P 2",
            SpaceGroupHallSymbol::MP_2x => "-P 2x",
            SpaceGroupHallSymbol::MP_2yb => "-P 2yb",
            SpaceGroupHallSymbol::MP_2c => "-P 2c",
            SpaceGroupHallSymbol::MP_2xa => "-P 2xa",
            SpaceGroupHallSymbol::MC_2y => "-C 2y",
            SpaceGroupHallSymbol::MA_2y => "-A 2y",
            SpaceGroupHallSymbol::MI_2y => "-I 2y",
            SpaceGroupHallSymbol::MA_2 => "-A 2",
            SpaceGroupHallSymbol::MB_2 => "-B 2",
            SpaceGroupHallSymbol::MI_2 => "-I 2",
            SpaceGroupHallSymbol::MB_2x => "-B 2x",
            SpaceGroupHallSymbol::MC_2x => "-C 2x",
            SpaceGroupHallSymbol::MI_2x => "-I 2x",
            SpaceGroupHallSymbol::MP_2yc => "-P 2yc",
            SpaceGroupHallSymbol::MP_2yac => "-P 2yac",
            SpaceGroupHallSymbol::MP_2ya => "-P 2ya",
            SpaceGroupHallSymbol::MP_2a => "-P 2a",
            SpaceGroupHallSymbol::MP_2ab => "-P 2ab",
            SpaceGroupHallSymbol::MP_2b => "-P 2b",
            SpaceGroupHallSymbol::MP_2xb => "-P 2xb",
            SpaceGroupHallSymbol::MP_2xbc => "-P 2xbc",
            SpaceGroupHallSymbol::MP_2xc => "-P 2xc",
            SpaceGroupHallSymbol::MP_2ybc => "-P 2ybc",
            SpaceGroupHallSymbol::MP_2yn => "-P 2yn",
            SpaceGroupHallSymbol::MP_2yab => "-P 2yab",
            SpaceGroupHallSymbol::MP_2ac => "-P 2ac",
            SpaceGroupHallSymbol::MP_2n => "-P 2n",
            SpaceGroupHallSymbol::MP_2bc => "-P 2bc",
            SpaceGroupHallSymbol::MP_2xab => "-P 2xab",
            SpaceGroupHallSymbol::MP_2xn => "-P 2xn",
            SpaceGroupHallSymbol::MP_2xac => "-P 2xac",
            SpaceGroupHallSymbol::MC_2yc => "-C 2yc",
            SpaceGroupHallSymbol::MA_2yac => "-A 2yac",
            SpaceGroupHallSymbol::MI_2ya => "-I 2ya",
            SpaceGroupHallSymbol::MA_2ya => "-A 2ya",
            SpaceGroupHallSymbol::MC_2ybc => "-C 2ybc",
            SpaceGroupHallSymbol::MI_2yc => "-I 2yc",
            SpaceGroupHallSymbol::MA_2a => "-A 2a",
            SpaceGroupHallSymbol::MB_2bc => "-B 2bc",
            SpaceGroupHallSymbol::MI_2b => "-I 2b",
            SpaceGroupHallSymbol::MB_2b => "-B 2b",
            SpaceGroupHallSymbol::MA_2ac => "-A 2ac",
            SpaceGroupHallSymbol::MI_2a => "-I 2a",
            SpaceGroupHallSymbol::MB_2xb => "-B 2xb",
            SpaceGroupHallSymbol::MC_2xbc => "-C 2xbc",
            SpaceGroupHallSymbol::MI_2xc => "-I 2xc",
            SpaceGroupHallSymbol::MC_2xc => "-C 2xc",
            SpaceGroupHallSymbol::MB_2xbc => "-B 2xbc",
            SpaceGroupHallSymbol::MI_2xb => "-I 2xb",
            SpaceGroupHallSymbol::P_2_2 => "P 2 2",
            SpaceGroupHallSymbol::P_2c_2 => "P 2c 2",
            SpaceGroupHallSymbol::P_2a_2a => "P 2a 2a",
            SpaceGroupHallSymbol::P_2_2b => "P 2 2b",
            SpaceGroupHallSymbol::P_2_2ab => "P 2 2ab",
            SpaceGroupHallSymbol::P_2bc_2 => "P 2bc 2",
            SpaceGroupHallSymbol::P_2ac_2ac => "P 2ac 2ac",
            SpaceGroupHallSymbol::P_2ac_2ab => "P 2ac 2ab",
            SpaceGroupHallSymbol::C_2c_2 => "C 2c 2",
            SpaceGroupHallSymbol::A_2a_2a => "A 2a 2a",
            SpaceGroupHallSymbol::B_2_2b => "B 2 2b",
            SpaceGroupHallSymbol::C_2_2 => "C 2 2",
            SpaceGroupHallSymbol::A_2_2 => "A 2 2",
            SpaceGroupHallSymbol::B_2_2 => "B 2 2",
            SpaceGroupHallSymbol::F_2_2 => "F 2 2",
            SpaceGroupHallSymbol::I_2_2 => "I 2 2",
            SpaceGroupHallSymbol::I_2b_2c => "I 2b 2c",
            SpaceGroupHallSymbol::P_2_M2 => "P 2 -2",
            SpaceGroupHallSymbol::P_M2_2 => "P -2 2",
            SpaceGroupHallSymbol::P_M2_M2 => "P -2 -2",
            SpaceGroupHallSymbol::P_2c_M2 => "P 2c -2",
            SpaceGroupHallSymbol::P_2c_M2c => "P 2c -2c",
            SpaceGroupHallSymbol::P_M2a_2a => "P -2a 2a",
            SpaceGroupHallSymbol::P_M2_2a => "P -2 2a",
            SpaceGroupHallSymbol::P_M2_M2b => "P -2 -2b",
            SpaceGroupHallSymbol::P_M2b_M2 => "P -2b -2",
            SpaceGroupHallSymbol::P_2_M2c => "P 2 -2c",
            SpaceGroupHallSymbol::P_M2a_2 => "P -2a 2",
            SpaceGroupHallSymbol::P_M2b_M2b => "P -2b -2b",
            SpaceGroupHallSymbol::P_2_M2a => "P 2 -2a",
            SpaceGroupHallSymbol::P_2_M2b => "P 2 -2b",
            SpaceGroupHallSymbol::P_M2b_2 => "P -2b 2",
            SpaceGroupHallSymbol::P_M2c_2 => "P -2c 2",
            SpaceGroupHallSymbol::P_M2c_M2c => "P -2c -2c",
            SpaceGroupHallSymbol::P_M2a_M2a => "P -2a -2a",
            SpaceGroupHallSymbol::P_2c_M2ac => "P 2c -2ac",
            SpaceGroupHallSymbol::P_2c_M2b => "P 2c -2b",
            SpaceGroupHallSymbol::P_M2b_2a => "P -2b 2a",
            SpaceGroupHallSymbol::P_M2ac_2a => "P -2ac 2a",
            SpaceGroupHallSymbol::P_M2bc_M2c => "P -2bc -2c",
            SpaceGroupHallSymbol::P_M2a_M2ab => "P -2a -2ab",
            SpaceGroupHallSymbol::P_2_M2bc => "P 2 -2bc",
            SpaceGroupHallSymbol::P_2_M2ac => "P 2 -2ac",
            SpaceGroupHallSymbol::P_M2ac_2 => "P -2ac 2",
            SpaceGroupHallSymbol::P_M2ab_2 => "P -2ab 2",
            SpaceGroupHallSymbol::P_M2ab_M2ab => "P -2ab -2ab",
            SpaceGroupHallSymbol::P_M2bc_M2bc => "P -2bc -2bc",
            SpaceGroupHallSymbol::P_2ac_M2 => "P 2ac -2",
            SpaceGroupHallSymbol::P_2bc_M2bc => "P 2bc -2bc",
            SpaceGroupHallSymbol::P_M2ab_2ab => "P -2ab 2ab",
            SpaceGroupHallSymbol::P_M2_2ac => "P -2 2ac",
            SpaceGroupHallSymbol::P_M2_M2bc => "P -2 -2bc",
            SpaceGroupHallSymbol::P_M2ab_M2 => "P -2ab -2",
            SpaceGroupHallSymbol::P_2_M2ab => "P 2 -2ab",
            SpaceGroupHallSymbol::P_M2bc_2 => "P -2bc 2",
            SpaceGroupHallSymbol::P_M2ac_M2ac => "P -2ac -2ac",
            SpaceGroupHallSymbol::P_2c_M2n => "P 2c -2n",
            SpaceGroupHallSymbol::P_2c_M2ab => "P 2c -2ab",
            SpaceGroupHallSymbol::P_M2bc_2a => "P -2bc 2a",
            SpaceGroupHallSymbol::P_M2n_2a => "P -2n 2a",
            SpaceGroupHallSymbol::P_M2n_M2ac => "P -2n -2ac",
            SpaceGroupHallSymbol::P_M2ac_M2n => "P -2ac -2n",
            SpaceGroupHallSymbol::P_2_M2n => "P 2 -2n",
            SpaceGroupHallSymbol::P_M2n_2 => "P -2n 2",
            SpaceGroupHallSymbol::P_M2n_M2n => "P -2n -2n",
            SpaceGroupHallSymbol::C_2_M2 => "C 2 -2",
            SpaceGroupHallSymbol::A_M2_2 => "A -2 2",
            SpaceGroupHallSymbol::B_M2_M2 => "B -2 -2",
            SpaceGroupHallSymbol::C_2c_M2 => "C 2c -2",
            SpaceGroupHallSymbol::C_2c_M2c => "C 2c -2c",
            SpaceGroupHallSymbol::A_M2a_2a => "A -2a 2a",
            SpaceGroupHallSymbol::A_M2_2a => "A -2 2a",
            SpaceGroupHallSymbol::B_M2_M2b => "B -2 -2b",
            SpaceGroupHallSymbol::B_M2b_M2 => "B -2b -2",
            SpaceGroupHallSymbol::C_2_M2c => "C 2 -2c",
            SpaceGroupHallSymbol::A_M2a_2 => "A -2a 2",
            SpaceGroupHallSymbol::B_M2b_M2b => "B -2b -2b",
            SpaceGroupHallSymbol::A_2_M2 => "A 2 -2",
            SpaceGroupHallSymbol::B_2_M2 => "B 2 -2",
            SpaceGroupHallSymbol::B_M2_2 => "B -2 2",
            SpaceGroupHallSymbol::C_M2_2 => "C -2 2",
            SpaceGroupHallSymbol::C_M2_M2 => "C -2 -2",
            SpaceGroupHallSymbol::A_M2_M2 => "A -2 -2",
            SpaceGroupHallSymbol::A_2_M2c => "A 2 -2c",
            SpaceGroupHallSymbol::B_2_M2c => "B 2 -2c",
            SpaceGroupHallSymbol::B_M2c_2 => "B -2c 2",
            SpaceGroupHallSymbol::C_M2b_2 => "C -2b 2",
            SpaceGroupHallSymbol::C_M2b_M2b => "C -2b -2b",
            SpaceGroupHallSymbol::A_M2c_M2c => "A -2c -2c",
            SpaceGroupHallSymbol::A_2_M2a => "A 2 -2a",
            SpaceGroupHallSymbol::B_2_M2b => "B 2 -2b",
            SpaceGroupHallSymbol::B_M2b_2 => "B -2b 2",
            SpaceGroupHallSymbol::C_M2c_2 => "C -2c 2",
            SpaceGroupHallSymbol::C_M2c_M2c => "C -2c -2c",
            SpaceGroupHallSymbol::A_M2a_M2a => "A -2a -2a",
            SpaceGroupHallSymbol::A_2_M2ac => "A 2 -2ac",
            SpaceGroupHallSymbol::B_2_M2bc => "B 2 -2bc",
            SpaceGroupHallSymbol::B_M2bc_2 => "B -2bc 2",
            SpaceGroupHallSymbol::C_M2bc_2 => "C -2bc 2",
            SpaceGroupHallSymbol::C_M2bc_M2bc => "C -2bc -2bc",
            SpaceGroupHallSymbol::A_M2ac_M2ac => "A -2ac -2ac",
            SpaceGroupHallSymbol::F_2_M2 => "F 2 -2",
            SpaceGroupHallSymbol::F_M2_2 => "F -2 2",
            SpaceGroupHallSymbol::F_M2_M2 => "F -2 -2",
            SpaceGroupHallSymbol::F_2_M2d => "F 2 -2d",
            SpaceGroupHallSymbol::F_M2d_2 => "F -2d 2",
            SpaceGroupHallSymbol::F_M2d_M2d => "F -2d -2d",
            SpaceGroupHallSymbol::I_2_M2 => "I 2 -2",
            SpaceGroupHallSymbol::I_M2_2 => "I -2 2",
            SpaceGroupHallSymbol::I_M2_M2 => "I -2 -2",
            SpaceGroupHallSymbol::I_2_M2c => "I 2 -2c",
            SpaceGroupHallSymbol::I_M2a_2 => "I -2a 2",
            SpaceGroupHallSymbol::I_M2b_M2b => "I -2b -2b",
            SpaceGroupHallSymbol::I_2_M2a => "I 2 -2a",
            SpaceGroupHallSymbol::I_2_M2b => "I 2 -2b",
            SpaceGroupHallSymbol::I_M2b_2 => "I -2b 2",
            SpaceGroupHallSymbol::I_M2c_2 => "I -2c 2",
            SpaceGroupHallSymbol::I_M2c_M2c => "I -2c -2c",
            SpaceGroupHallSymbol::I_M2a_M2a => "I -2a -2a",
            SpaceGroupHallSymbol::MP_2_2 => "-P 2 2",
            SpaceGroupHallSymbol::P_2_2_M1n => "P 2 2 -1n",
            SpaceGroupHallSymbol::MP_2ab_2bc => "-P 2ab 2bc",
            SpaceGroupHallSymbol::MP_2_2c => "-P 2 2c",
            SpaceGroupHallSymbol::MP_2a_2 => "-P 2a 2",
            SpaceGroupHallSymbol::MP_2b_2b => "-P 2b 2b",
            SpaceGroupHallSymbol::P_2_2_M1ab => "P 2 2 -1ab",
            SpaceGroupHallSymbol::MP_2ab_2b => "-P 2ab 2b",
            SpaceGroupHallSymbol::P_2_2_M1bc => "P 2 2 -1bc",
            SpaceGroupHallSymbol::MP_2b_2bc => "-P 2b 2bc",
            SpaceGroupHallSymbol::P_2_2_M1ac => "P 2 2 -1ac",
            SpaceGroupHallSymbol::MP_2a_2c => "-P 2a 2c",
            SpaceGroupHallSymbol::MP_2a_2a => "-P 2a 2a",
            SpaceGroupHallSymbol::MP_2b_2 => "-P 2b 2",
            SpaceGroupHallSymbol::MP_2_2b => "-P 2 2b",
            SpaceGroupHallSymbol::MP_2c_2c => "-P 2c 2c",
            SpaceGroupHallSymbol::MP_2c_2 => "-P 2c 2",
            SpaceGroupHallSymbol::MP_2_2a => "-P 2 2a",
            SpaceGroupHallSymbol::MP_2a_2bc => "-P 2a 2bc",
            SpaceGroupHallSymbol::MP_2b_2n => "-P 2b 2n",
            SpaceGroupHallSymbol::MP_2n_2b => "-P 2n 2b",
            SpaceGroupHallSymbol::MP_2ab_2c => "-P 2ab 2c",
            SpaceGroupHallSymbol::MP_2ab_2n => "-P 2ab 2n",
            SpaceGroupHallSymbol::MP_2n_2bc => "-P 2n 2bc",
            SpaceGroupHallSymbol::MP_2ac_2 => "-P 2ac 2",
            SpaceGroupHallSymbol::MP_2bc_2bc => "-P 2bc 2bc",
            SpaceGroupHallSymbol::MP_2ab_2ab => "-P 2ab 2ab",
            SpaceGroupHallSymbol::MP_2_2ac => "-P 2 2ac",
            SpaceGroupHallSymbol::MP_2_2bc => "-P 2 2bc",
            SpaceGroupHallSymbol::MP_2ab_2 => "-P 2ab 2",
            SpaceGroupHallSymbol::MP_2a_2ac => "-P 2a 2ac",
            SpaceGroupHallSymbol::MP_2b_2c => "-P 2b 2c",
            SpaceGroupHallSymbol::MP_2a_2b => "-P 2a 2b",
            SpaceGroupHallSymbol::MP_2ac_2c => "-P 2ac 2c",
            SpaceGroupHallSymbol::MP_2bc_2b => "-P 2bc 2b",
            SpaceGroupHallSymbol::MP_2b_2ab => "-P 2b 2ab",
            SpaceGroupHallSymbol::MP_2_2ab => "-P 2 2ab",
            SpaceGroupHallSymbol::MP_2bc_2 => "-P 2bc 2",
            SpaceGroupHallSymbol::MP_2ac_2ac => "-P 2ac 2ac",
            SpaceGroupHallSymbol::MP_2ab_2ac => "-P 2ab 2ac",
            SpaceGroupHallSymbol::MP_2ac_2bc => "-P 2ac 2bc",
            SpaceGroupHallSymbol::MP_2bc_2ab => "-P 2bc 2ab",
            SpaceGroupHallSymbol::MP_2c_2b => "-P 2c 2b",
            SpaceGroupHallSymbol::MP_2c_2ac => "-P 2c 2ac",
            SpaceGroupHallSymbol::MP_2ac_2a => "-P 2ac 2a",
            SpaceGroupHallSymbol::MP_2b_2a => "-P 2b 2a",
            SpaceGroupHallSymbol::MP_2a_2ab => "-P 2a 2ab",
            SpaceGroupHallSymbol::MP_2bc_2c => "-P 2bc 2c",
            SpaceGroupHallSymbol::MP_2_2n => "-P 2 2n",
            SpaceGroupHallSymbol::MP_2n_2 => "-P 2n 2",
            SpaceGroupHallSymbol::MP_2n_2n => "-P 2n 2n",
            SpaceGroupHallSymbol::P_2_2ab_M1ab => "P 2 2ab -1ab",
            SpaceGroupHallSymbol::MP_2ab_2a => "-P 2ab 2a",
            SpaceGroupHallSymbol::P_2bc_2_M1bc => "P 2bc 2 -1bc",
            SpaceGroupHallSymbol::MP_2c_2bc => "-P 2c 2bc",
            SpaceGroupHallSymbol::P_2ac_2ac_M1ac => "P 2ac 2ac -1ac",
            SpaceGroupHallSymbol::MP_2c_2a => "-P 2c 2a",
            SpaceGroupHallSymbol::MP_2n_2ab => "-P 2n 2ab",
            SpaceGroupHallSymbol::MP_2n_2c => "-P 2n 2c",
            SpaceGroupHallSymbol::MP_2a_2n => "-P 2a 2n",
            SpaceGroupHallSymbol::MP_2bc_2n => "-P 2bc 2n",
            SpaceGroupHallSymbol::MP_2ac_2b => "-P 2ac 2b",
            SpaceGroupHallSymbol::MP_2b_2ac => "-P 2b 2ac",
            SpaceGroupHallSymbol::MP_2ac_2ab => "-P 2ac 2ab",
            SpaceGroupHallSymbol::MP_2bc_2ac => "-P 2bc 2ac",
            SpaceGroupHallSymbol::MP_2ac_2n => "-P 2ac 2n",
            SpaceGroupHallSymbol::MP_2bc_2a => "-P 2bc 2a",
            SpaceGroupHallSymbol::MP_2c_2ab => "-P 2c 2ab",
            SpaceGroupHallSymbol::MP_2n_2ac => "-P 2n 2ac",
            SpaceGroupHallSymbol::MP_2n_2a => "-P 2n 2a",
            SpaceGroupHallSymbol::MP_2c_2n => "-P 2c 2n",
            SpaceGroupHallSymbol::MC_2c_2 => "-C 2c 2",
            SpaceGroupHallSymbol::MC_2c_2c => "-C 2c 2c",
            SpaceGroupHallSymbol::MA_2a_2a => "-A 2a 2a",
            SpaceGroupHallSymbol::MA_2_2a => "-A 2 2a",
            SpaceGroupHallSymbol::MB_2_2b => "-B 2 2b",
            SpaceGroupHallSymbol::MB_2b_2 => "-B 2b 2",
            SpaceGroupHallSymbol::MC_2bc_2 => "-C 2bc 2",
            SpaceGroupHallSymbol::MC_2bc_2bc => "-C 2bc 2bc",
            SpaceGroupHallSymbol::MA_2ac_2ac => "-A 2ac 2ac",
            SpaceGroupHallSymbol::MA_2_2ac => "-A 2 2ac",
            SpaceGroupHallSymbol::MB_2_2bc => "-B 2 2bc",
            SpaceGroupHallSymbol::MB_2bc_2 => "-B 2bc 2",
            SpaceGroupHallSymbol::MC_2_2 => "-C 2 2",
            SpaceGroupHallSymbol::MA_2_2 => "-A 2 2",
            SpaceGroupHallSymbol::MB_2_2 => "-B 2 2",
            SpaceGroupHallSymbol::MC_2_2c => "-C 2 2c",
            SpaceGroupHallSymbol::MA_2a_2 => "-A 2a 2",
            SpaceGroupHallSymbol::MB_2b_2b => "-B 2b 2b",
            SpaceGroupHallSymbol::MC_2b_2 => "-C 2b 2",
            SpaceGroupHallSymbol::MC_2b_2b => "-C 2b 2b",
            SpaceGroupHallSymbol::MA_2c_2c => "-A 2c 2c",
            SpaceGroupHallSymbol::MA_2_2c => "-A 2 2c",
            SpaceGroupHallSymbol::MB_2_2c => "-B 2 2c",
            SpaceGroupHallSymbol::MB_2c_2 => "-B 2c 2",
            SpaceGroupHallSymbol::C_2_2_M1bc_1 => "C 2 2 -1bc",
            SpaceGroupHallSymbol::MC_2b_2bc => "-C 2b 2bc",
            SpaceGroupHallSymbol::C_2_2_M1bc_2 => "C 2 2 -1bc",
            SpaceGroupHallSymbol::MC_2b_2c => "-C 2b 2c",
            SpaceGroupHallSymbol::A_2_2_M1ac_1 => "A 2 2 -1ac",
            SpaceGroupHallSymbol::MA_2a_2c => "-A 2a 2c",
            SpaceGroupHallSymbol::A_2_2_M1ac_2 => "A 2 2 -1ac",
            SpaceGroupHallSymbol::MA_2ac_2c => "-A 2ac 2c",
            SpaceGroupHallSymbol::B_2_2_M1bc_1 => "B 2 2 -1bc",
            SpaceGroupHallSymbol::MB_2bc_2b => "-B 2bc 2b",
            SpaceGroupHallSymbol::B_2_2_M1bc_2 => "B 2 2 -1bc",
            SpaceGroupHallSymbol::MB_2b_2bc => "-B 2b 2bc",
            SpaceGroupHallSymbol::MF_2_2 => "-F 2 2",
            SpaceGroupHallSymbol::F_2_2_M1d => "F 2 2 -1d",
            SpaceGroupHallSymbol::MF_2uv_2vw => "-F 2uv 2vw",
            SpaceGroupHallSymbol::MI_2_2 => "-I 2 2",
            SpaceGroupHallSymbol::MI_2_2c => "-I 2 2c",
            SpaceGroupHallSymbol::MI_2a_2 => "-I 2a 2",
            SpaceGroupHallSymbol::MI_2b_2b => "-I 2b 2b",
            SpaceGroupHallSymbol::MI_2b_2c => "-I 2b 2c",
            SpaceGroupHallSymbol::MI_2a_2b => "-I 2a 2b",
            SpaceGroupHallSymbol::MI_2b_2 => "-I 2b 2",
            SpaceGroupHallSymbol::MI_2a_2a => "-I 2a 2a",
            SpaceGroupHallSymbol::MI_2c_2c => "-I 2c 2c",
            SpaceGroupHallSymbol::MI_2_2b => "-I 2 2b",
            SpaceGroupHallSymbol::MI_2_2a => "-I 2 2a",
            SpaceGroupHallSymbol::MI_2c_2 => "-I 2c 2",
            SpaceGroupHallSymbol::P_4 => "P 4",
            SpaceGroupHallSymbol::P_4w => "P 4w",
            SpaceGroupHallSymbol::P_4c => "P 4c",
            SpaceGroupHallSymbol::P_4cw => "P 4cw",
            SpaceGroupHallSymbol::I_4 => "I 4",
            SpaceGroupHallSymbol::I_4bw => "I 4bw",
            SpaceGroupHallSymbol::P_M4 => "P -4",
            SpaceGroupHallSymbol::I_M4 => "I -4",
            SpaceGroupHallSymbol::MP_4 => "-P 4",
            SpaceGroupHallSymbol::MP_4c => "-P 4c",
            SpaceGroupHallSymbol::P_4ab_M1ab => "P 4ab -1ab",
            SpaceGroupHallSymbol::MP_4a => "-P 4a",
            SpaceGroupHallSymbol::P_4n_M1n => "P 4n -1n",
            SpaceGroupHallSymbol::MP_4bc => "-P 4bc",
            SpaceGroupHallSymbol::MI_4 => "-I 4",
            SpaceGroupHallSymbol::I_4bw_M1bw => "I 4bw -1bw",
            SpaceGroupHallSymbol::MI_4ad => "-I 4ad",
            SpaceGroupHallSymbol::P_4_2 => "P 4 2",
            SpaceGroupHallSymbol::P_4ab_2ab => "P 4ab 2ab",
            SpaceGroupHallSymbol::P_4w_2c => "P 4w 2c",
            SpaceGroupHallSymbol::P_4abw_2nw => "P 4abw 2nw",
            SpaceGroupHallSymbol::P_4c_2 => "P 4c 2",
            SpaceGroupHallSymbol::P_4n_2n => "P 4n 2n",
            SpaceGroupHallSymbol::P_4cw_2c => "P 4cw 2c",
            SpaceGroupHallSymbol::P_4nw_2abw => "P 4nw 2abw",
            SpaceGroupHallSymbol::I_4_2 => "I 4 2",
            SpaceGroupHallSymbol::I_4bw_2bw => "I 4bw 2bw",
            SpaceGroupHallSymbol::P_4_M2 => "P 4 -2",
            SpaceGroupHallSymbol::P_4_M2ab => "P 4 -2ab",
            SpaceGroupHallSymbol::P_4c_M2c => "P 4c -2c",
            SpaceGroupHallSymbol::P_4n_M2n => "P 4n -2n",
            SpaceGroupHallSymbol::P_4_M2c => "P 4 -2c",
            SpaceGroupHallSymbol::P_4_M2n => "P 4 -2n",
            SpaceGroupHallSymbol::P_4c_M2 => "P 4c -2",
            SpaceGroupHallSymbol::P_4c_M2ab => "P 4c -2ab",
            SpaceGroupHallSymbol::I_4_M2 => "I 4 -2",
            SpaceGroupHallSymbol::I_4_M2c => "I 4 -2c",
            SpaceGroupHallSymbol::I_4bw_M2 => "I 4bw -2",
            SpaceGroupHallSymbol::I_4bw_M2c => "I 4bw -2c",
            SpaceGroupHallSymbol::P_M4_2 => "P -4 2",
            SpaceGroupHallSymbol::P_M4_2c => "P -4 2c",
            SpaceGroupHallSymbol::P_M4_2ab => "P -4 2ab",
            SpaceGroupHallSymbol::P_M4_2n => "P -4 2n",
            SpaceGroupHallSymbol::P_M4_M2 => "P -4 -2",
            SpaceGroupHallSymbol::P_M4_M2c => "P -4 -2c",
            SpaceGroupHallSymbol::P_M4_M2ab => "P -4 -2ab",
            SpaceGroupHallSymbol::P_M4_M2n => "P -4 -2n",
            SpaceGroupHallSymbol::I_M4_M2 => "I -4 -2",
            SpaceGroupHallSymbol::I_M4_M2c => "I -4 -2c",
            SpaceGroupHallSymbol::I_M4_2 => "I -4 2",
            SpaceGroupHallSymbol::I_M4_2bw => "I -4 2bw",
            SpaceGroupHallSymbol::MP_4_2 => "-P 4 2",
            SpaceGroupHallSymbol::MP_4_2c => "-P 4 2c",
            SpaceGroupHallSymbol::P_4_2_M1ab => "P 4 2 -1ab",
            SpaceGroupHallSymbol::MP_4a_2b => "-P 4a 2b",
            SpaceGroupHallSymbol::P_4_2_M1n => "P 4 2 -1n",
            SpaceGroupHallSymbol::MP_4a_2bc => "-P 4a 2bc",
            SpaceGroupHallSymbol::MP_4_2ab => "-P 4 2ab",
            SpaceGroupHallSymbol::MP_4_2n => "-P 4 2n",
            SpaceGroupHallSymbol::P_4ab_2ab_M1ab => "P 4ab 2ab -1ab",
            SpaceGroupHallSymbol::MP_4a_2a => "-P 4a 2a",
            SpaceGroupHallSymbol::P_4ab_2n_M1ab => "P 4ab 2n -1ab",
            SpaceGroupHallSymbol::MP_4a_2ac => "-P 4a 2ac",
            SpaceGroupHallSymbol::MP_4c_2 => "-P 4c 2",
            SpaceGroupHallSymbol::MP_4c_2c => "-P 4c 2c",
            SpaceGroupHallSymbol::P_4n_2c_M1n => "P 4n 2c -1n",
            SpaceGroupHallSymbol::MP_4ac_2b => "-P 4ac 2b",
            SpaceGroupHallSymbol::P_4n_2_M1n => "P 4n 2 -1n",
            SpaceGroupHallSymbol::MP_4ac_2bc => "-P 4ac 2bc",
            SpaceGroupHallSymbol::MP_4c_2ab => "-P 4c 2ab",
            SpaceGroupHallSymbol::MP_4n_2n => "-P 4n 2n",
            SpaceGroupHallSymbol::P_4n_2n_M1n => "P 4n 2n -1n",
            SpaceGroupHallSymbol::MP_4ac_2a => "-P 4ac 2a",
            SpaceGroupHallSymbol::P_4n_2ab_M1n => "P 4n 2ab -1n",
            SpaceGroupHallSymbol::MP_4ac_2ac => "-P 4ac 2ac",
            SpaceGroupHallSymbol::MI_4_2 => "-I 4 2",
            SpaceGroupHallSymbol::MI_4_2c => "-I 4 2c",
            SpaceGroupHallSymbol::I_4bw_2bw_M1bw => "I 4bw 2bw -1bw",
            SpaceGroupHallSymbol::MI_4bd_2 => "-I 4bd 2",
            SpaceGroupHallSymbol::I_4bw_2aw_M1bw => "I 4bw 2aw -1bw",
            SpaceGroupHallSymbol::MI_4bd_2c => "-I 4bd 2c",
            SpaceGroupHallSymbol::P_3 => "P 3",
            SpaceGroupHallSymbol::P_31 => "P 31",
            SpaceGroupHallSymbol::P_32 => "P 32",
            SpaceGroupHallSymbol::R_3 => "R 3",
            SpaceGroupHallSymbol::P_3A => "P 3*",
            SpaceGroupHallSymbol::MP_3 => "-P 3",
            SpaceGroupHallSymbol::MR_3 => "-R 3",
            SpaceGroupHallSymbol::MP_3A => "-P 3*",
            SpaceGroupHallSymbol::P_3_2 => "P 3 2",
            SpaceGroupHallSymbol::P_3_2D => "P 3 2\"",
            SpaceGroupHallSymbol::P_31_2c_0_0_1 => "P 31 2c (0 0 1)",
            SpaceGroupHallSymbol::P_31_2D => "P 31 2\"",
            SpaceGroupHallSymbol::P_32_2c_0_0_M1 => "P 32 2c (0 0 -1)",
            SpaceGroupHallSymbol::P_32_2D => "P 32 2\"",
            SpaceGroupHallSymbol::R_3_2D => "R 3 2\"",
            SpaceGroupHallSymbol::P_3A_2 => "P 3* 2",
            SpaceGroupHallSymbol::P_3_M2D => "P 3 -2\"",
            SpaceGroupHallSymbol::P_3_M2 => "P 3 -2",
            SpaceGroupHallSymbol::P_3_M2Dc => "P 3 -2\"c",
            SpaceGroupHallSymbol::P_3_M2c => "P 3 -2c",
            SpaceGroupHallSymbol::R_3_M2D => "R 3 -2\"",
            SpaceGroupHallSymbol::P_3A_M2 => "P 3* -2",
            SpaceGroupHallSymbol::R_3_M2Dc => "R 3 -2\"c",
            SpaceGroupHallSymbol::P_3A_M2n => "P 3* -2n",
            SpaceGroupHallSymbol::MP_3_2 => "-P 3 2",
            SpaceGroupHallSymbol::MP_3_2c => "-P 3 2c",
            SpaceGroupHallSymbol::MP_3_2D => "-P 3 2\"",
            SpaceGroupHallSymbol::MP_3_2Dc => "-P 3 2\"c",
            SpaceGroupHallSymbol::MR_3_2D => "-R 3 2\"",
            SpaceGroupHallSymbol::MP_3A_2 => "-P 3* 2",
            SpaceGroupHallSymbol::MR_3_2Dc => "-R 3 2\"c",
            SpaceGroupHallSymbol::MP_3A_2n => "-P 3* 2n",
            SpaceGroupHallSymbol::P_6 => "P 6",
            SpaceGroupHallSymbol::P_61 => "P 61",
            SpaceGroupHallSymbol::P_65 => "P 65",
            SpaceGroupHallSymbol::P_62 => "P 62",
            SpaceGroupHallSymbol::P_64 => "P 64",
            SpaceGroupHallSymbol::P_6c => "P 6c",
            SpaceGroupHallSymbol::P_M6 => "P -6",
            SpaceGroupHallSymbol::MP_6 => "-P 6",
            SpaceGroupHallSymbol::MP_6c => "-P 6c",
            SpaceGroupHallSymbol::P_6_2 => "P 6 2",
            SpaceGroupHallSymbol::P_61_2_0_0_M1 => "P 61 2 (0 0 -1)",
            SpaceGroupHallSymbol::P_65_2_0_0_1 => "P 65 2 (0 0 1)",
            SpaceGroupHallSymbol::P_62_2c_0_0_1 => "P 62 2c (0 0 1)",
            SpaceGroupHallSymbol::P_64_2c_0_0_M1 => "P 64 2c (0 0 -1)",
            SpaceGroupHallSymbol::P_6c_2c => "P 6c 2c",
            SpaceGroupHallSymbol::P_6_M2 => "P 6 -2",
            SpaceGroupHallSymbol::P_6_M2c => "P 6 -2c",
            SpaceGroupHallSymbol::P_6c_M2 => "P 6c -2",
            SpaceGroupHallSymbol::P_6c_M2c => "P 6c -2c",
            SpaceGroupHallSymbol::P_M6_2 => "P -6 2",
            SpaceGroupHallSymbol::P_M6c_2 => "P -6c 2",
            SpaceGroupHallSymbol::P_M6_M2 => "P -6 -2",
            SpaceGroupHallSymbol::P_M6c_M2c => "P -6c -2c",
            SpaceGroupHallSymbol::MP_6_2 => "-P 6 2",
            SpaceGroupHallSymbol::MP_6_2c => "-P 6 2c",
            SpaceGroupHallSymbol::MP_6c_2 => "-P 6c 2",
            SpaceGroupHallSymbol::MP_6c_2c => "-P 6c 2c",
            SpaceGroupHallSymbol::P_2_2_3 => "P 2 2 3",
            SpaceGroupHallSymbol::F_2_2_3 => "F 2 2 3",
            SpaceGroupHallSymbol::I_2_2_3 => "I 2 2 3",
            SpaceGroupHallSymbol::P_2ac_2ab_3 => "P 2ac 2ab 3",
            SpaceGroupHallSymbol::I_2b_2c_3 => "I 2b 2c 3",
            SpaceGroupHallSymbol::MP_2_2_3 => "-P 2 2 3",
            SpaceGroupHallSymbol::P_2_2_3_M1n => "P 2 2 3 -1n",
            SpaceGroupHallSymbol::MP_2ab_2bc_3 => "-P 2ab 2bc 3",
            SpaceGroupHallSymbol::MF_2_2_3 => "-F 2 2 3",
            SpaceGroupHallSymbol::F_2_2_3_M1d => "F 2 2 3 -1d",
            SpaceGroupHallSymbol::MF_2uv_2vw_3 => "-F 2uv 2vw 3",
            SpaceGroupHallSymbol::MI_2_2_3 => "-I 2 2 3",
            SpaceGroupHallSymbol::MP_2ac_2ab_3 => "-P 2ac 2ab 3",
            SpaceGroupHallSymbol::MI_2b_2c_3 => "-I 2b 2c 3",
            SpaceGroupHallSymbol::P_4_2_3 => "P 4 2 3",
            SpaceGroupHallSymbol::P_4n_2_3 => "P 4n 2 3",
            SpaceGroupHallSymbol::F_4_2_3 => "F 4 2 3",
            SpaceGroupHallSymbol::F_4d_2_3 => "F 4d 2 3",
            SpaceGroupHallSymbol::I_4_2_3 => "I 4 2 3",
            SpaceGroupHallSymbol::P_4acd_2ab_3 => "P 4acd 2ab 3",
            SpaceGroupHallSymbol::P_4bd_2ab_3 => "P 4bd 2ab 3",
            SpaceGroupHallSymbol::I_4bd_2c_3 => "I 4bd 2c 3",
            SpaceGroupHallSymbol::P_M4_2_3 => "P -4 2 3",
            SpaceGroupHallSymbol::F_M4_2_3 => "F -4 2 3",
            SpaceGroupHallSymbol::I_M4_2_3 => "I -4 2 3",
            SpaceGroupHallSymbol::P_M4n_2_3 => "P -4n 2 3",
            SpaceGroupHallSymbol::F_M4c_2_3 => "F -4c 2 3",
            SpaceGroupHallSymbol::I_M4bd_2c_3 => "I -4bd 2c 3",
            SpaceGroupHallSymbol::MP_4_2_3 => "-P 4 2 3",
            SpaceGroupHallSymbol::P_4_2_3_M1n => "P 4 2 3 -1n",
            SpaceGroupHallSymbol::MP_4a_2bc_3 => "-P 4a 2bc 3",
            SpaceGroupHallSymbol::MP_4n_2_3 => "-P 4n 2 3",
            SpaceGroupHallSymbol::P_4n_2_3_M1n => "P 4n 2 3 -1n",
            SpaceGroupHallSymbol::MP_4bc_2bc_3 => "-P 4bc 2bc 3",
            SpaceGroupHallSymbol::MF_4_2_3 => "-F 4 2 3",
            SpaceGroupHallSymbol::MF_4c_2_3 => "-F 4c 2 3",
            SpaceGroupHallSymbol::F_4d_2_3_M1d => "F 4d 2 3 -1d",
            SpaceGroupHallSymbol::MF_4vw_2vw_3 => "-F 4vw 2vw 3",
            SpaceGroupHallSymbol::F_4d_2_3_M1cd => "F 4d 2 3 -1cd",
            SpaceGroupHallSymbol::MF_4cvw_2vw_3 => "-F 4cvw 2vw 3",
            SpaceGroupHallSymbol::MI_4_2_3 => "-I 4 2 3",
            SpaceGroupHallSymbol::MI_4bd_2c_3 => "-I 4bd 2c 3",
        }
    }
}

} // verus!
