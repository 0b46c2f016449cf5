//! A small dense-matrix library with a feed-forward neural-network layer on
//! top of it.
//!
//! The core of the crate is the [`Matrix`] type: a flat, row-major buffer with
//! strictly positive dimensions, checked indexing, transposition, matrix
//! multiplication and a family of element-wise, scalar and unary operations.
//! Every operation carries a contract describing the produced matrix element
//! by element.
//!
//! [`NeuralNetworkBuilder`] accumulates layer sizes for a neural network; the
//! floating-point layers themselves are built by the surrounding application
//! from the size pairs the builder computes.

pub mod dimension;
pub mod error;
pub mod matrix;
pub mod neural_network_builder;

pub use crate::dimension::Dimension;
pub use crate::error::Error;
pub use crate::error::Result;
pub use crate::matrix::Matrix;
pub use crate::neural_network_builder::NeuralNetworkBuilder;
