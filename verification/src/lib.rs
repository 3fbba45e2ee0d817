//! `MiniVec<T>`: a small growable vector whose capacity policy is explicit
//! and verified.
//!
//! Elements live in an initialized prefix of a buffer; the buffer has a
//! capacity that grows by doubling (`reserve`, `push`, `insert`) or to an
//! exact size (`reserve_exact`). The vector can be drained or consumed into
//! double-ended iterators that hand the elements out by value.
pub mod capacity;
mod raw_vec;
pub mod mini_vec;
pub mod iter;
pub mod laws;
pub mod prelude;

pub use capacity::{exact_capacity, grown_capacity, next_capacity};
pub use iter::{Drain, IntoIter};
pub use mini_vec::MiniVec;
pub use prelude::LessVec;
