//! The basic arithmetic kernels.
pub mod div;
