//! Converting an encoded image into JPEG, PNG or WebP.
//!
//! The library works on values only: the caller hands in the source path and
//! the bytes it read there, and receives the path and the bytes to write.

pub mod codec;
pub mod conversion;
pub mod error;
pub mod format;
pub mod paths;
pub mod steps;

pub use crate::conversion::convert;
