//! A format-detecting image metadata service.
//!
//! Given a file path and the file's bytes, the library determines the
//! expected image format from the path's extension, asks the codec library
//! to decode the bytes, and returns an immutable metadata record (path,
//! extension, canonical format name, width, height) or exactly one typed
//! error.

pub mod codec;
pub mod error;
pub mod format;
pub mod metadata;
pub mod resolve;
