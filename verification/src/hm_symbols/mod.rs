pub mod directions;
pub mod notations;

pub use directions::{Direction, NoDirection, Primary, Secondary, Tertiary, D, X, Y, Z};
pub use notations::{
    Glide, GlideA, GlideB, GlideC, GlideD, GlideN, HMElement, HMSymbol, Nil, Notation, Screw, M, R,
    RI, RM,
};
