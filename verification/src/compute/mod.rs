//! Kernels: operations that make new arrays from arrays.
pub mod arithmetics;
pub mod arity;
pub mod temporal;
