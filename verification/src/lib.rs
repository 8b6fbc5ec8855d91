//! A unique-ownership container: a handle that owns exactly one
//! heap-allocated value, or a contiguous sequence of values, releases it
//! exactly once, and never duplicates ownership.

pub mod handle;

pub use handle::PtrError;
pub use handle::UniquePtr;
