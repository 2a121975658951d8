//! Statically dimensioned matrices over integer-valued coefficients, with
//! the arithmetic and the elementary row operations of Gaussian
//! elimination, each with a verified contract.

pub mod arithmetic;
pub mod coefficient;
pub mod equality;
pub mod error;
pub mod grid;
pub mod integers;
pub mod laws;
pub mod matrix;
mod rows;
pub mod square;

pub use coefficient::Coefficient;
pub use error::Error;
pub use matrix::Matrix;
