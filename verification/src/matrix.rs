//! A simple and naive implementation of mathematical matrices.

pub mod definition;
pub mod operators;
pub mod render;

pub use self::definition::Matrix;
