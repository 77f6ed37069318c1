//! A verified host-to-device compute dispatch sequence.
//!
//! The library runs one compute invocation end-to-end: it takes a program
//! text, typed input arrays and a grid, creates the device buffers, encodes
//! the dispatch followed by a copy into a staging buffer, submits, and
//! reads the result back once the device signals that the mapping is
//! ready. The byte codecs, the request checks, the fixed-capacity uniform
//! matrix block and the host-side reference results of the four example
//! programs are verified; the device API itself stands behind the declared
//! trusted boundary in `gpu`.
pub mod codec;
pub mod dispatch;
pub mod error;
pub mod gpu;
pub mod matrix;
pub mod program;
pub mod reference;
