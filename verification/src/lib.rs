//! A fixed-length byte buffer for secrets.
//!
//! A [`SecureBuffer`] starts out as zeros, can be read and written byte by
//! byte or through borrowed windows, and is overwritten with zeros before
//! its memory goes back to the allocator.

pub mod erase;
pub mod model;
pub mod secure_buffer;

pub use crate::erase::wipe;
pub use crate::secure_buffer::SecureBuffer;
