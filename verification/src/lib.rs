pub mod crystal_symmetry_directions;
pub mod crystal_systems;
pub mod database;
pub mod hall_symbols;
pub mod hm_symbols;
pub mod point_groups;
pub mod space_groups;
pub mod utils;

pub use hall_symbols::{GeneralPositions, HallSymbolNotation, SeitzMatrix};
