//! A small integer linear-algebra library.
pub mod matrix;
pub mod vector;
