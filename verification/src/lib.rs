//! Decoder for the 32-bit header that precedes every MPEG audio frame.
//!
//! A header is split into thirteen bit groups of fixed width, and each group is decoded
//! into a value of its own type; the bit rate and the sampling frequency are looked up
//! in tables that depend on the version and the layer decoded before them.

pub mod bits;
pub mod constants;
pub mod error;
pub mod fields;
pub mod header;
pub mod utils;
