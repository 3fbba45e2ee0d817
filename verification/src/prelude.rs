//! The vector under both of its names, for glob import.
use vstd::prelude::*;
pub use crate::iter::{Drain, IntoIter};
pub use crate::mini_vec::MiniVec;

verus! {

/// `LessVec` is another name for `MiniVec`.
pub type LessVec<T> = MiniVec<T>;

} // verus!
