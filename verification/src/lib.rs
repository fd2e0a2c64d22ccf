//! Turns a stored image and the crop geometry attached to it into a JPEG
//! thumbnail, and decides how the result is moved from the source location
//! to the destination location.

pub mod codec;
pub mod geometry;
pub mod invocation;
pub mod metadata;
pub mod s3;
pub mod transform;

pub use crate::metadata::ImageMetadata;
pub use vstd::hash_map::StringHashMap;
