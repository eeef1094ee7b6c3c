//! Columnar, nullable arrays: shared buffers and validity bitmaps, primitive and
//! union arrays, their interchange through foreign handles, and elementwise
//! compute kernels.
pub mod array;
pub mod bitmap;
pub mod buffer;
pub mod compute;
pub mod datatypes;
pub mod error;
pub mod ffi;
pub mod temporal_conversions;
pub mod types;
