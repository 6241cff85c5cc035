//! Hertzian: the discrete, index-level core of an FFT-accelerated elastic
//! half-space normal contact solver.
//!
//! The verified library holds the integer and combinatorial structure that
//! the numerical solver rests on: the wrap-around layout of the zero-padded
//! free-space convolution, the shape and cell indexing of the uniform
//! interface grid, the active-set bookkeeping of the contact iteration, the
//! superposition of gap descriptions, and the boundary-condition names the
//! solver accepts.

pub mod boundary;
pub mod fft;
pub mod geometry;
pub mod grid;
pub mod solver;
