//! Zero-fills file contents while preserving their size and, for WAV audio,
//! their container structure.
//!
//! The library works on in-memory values: a path string and the file's bytes
//! go in, the replacement bytes come out. Callers that live on a filesystem
//! read the file, hand its bytes to [`fill::fill_matching`], and write the
//! result back to the same path.

pub mod classify;
pub mod error;
pub mod fill;
pub mod wav;
