//! Small numeric building blocks.

pub mod number;
pub mod vector;
