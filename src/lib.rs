//! Read-only access to two slices as if they were one continuous vector.
pub mod iter;
pub mod laws;
pub mod uvec;

pub use iter::Iter;
pub use uvec::UVec;
