//! # Pure mathematics

pub mod algebra;
pub mod number_theory;
