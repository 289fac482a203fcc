//! Fixed-size matrices stored in column-major order, and strided views over
//! contiguous regions.
pub mod collect;
pub mod into_iter;
pub mod laws;
pub mod matrix;
pub mod matrix_index;
pub mod matrix_iter;
mod ranges;
mod sealed;
pub mod stride;
pub mod stride_index;
pub mod stride_iter;
pub mod stride_iter_mut;
pub mod stride_mut;
pub mod stride_ops;
pub mod traits;
pub mod vector;
pub mod view;

pub use crate::collect::{collect, collect_unchecked};
pub use crate::into_iter::IntoIter;
pub use crate::matrix::{Matrix, RowVector, Vector};
pub use crate::matrix_index::MatrixIndex;
pub use crate::matrix_iter::{IterColumns, IterRows};
pub use crate::stride::Stride;
pub use crate::stride_index::StrideIndex;
pub use crate::stride_iter::Iter;
pub use crate::stride_iter_mut::IterMut;
pub use crate::stride_mut::StrideMut;
pub use crate::traits::{Abs, One, Zero};
pub use crate::view::{Column, Row};
