//! Lightweight math routines for 3D graphics: the approximate-equality contract
//! shared by the scalar, vector, point and matrix types, and the column-major
//! layout of 4x4 matrices.
pub mod columns;
mod nearly_equal;

pub use columns::{from_flat, row, transpose, Columns};
pub use nearly_equal::NearlyEqual;
