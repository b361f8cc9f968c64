//! The ways in which decoding a header can fail.

use vstd::prelude::*;

verus! {

/// Why a header, or a step towards one, could not be decoded.
///
/// The variants for a field carry the field's raw bits, read as a number with the most
/// significant bit first.
#[derive(Debug, Clone, Copy, PartialEq, Eq)]
pub enum DecodeError {
    /// The input holds fewer bits than a header has.
    BufferTooShort,
    /// More bits were asked of a buffer than it had left.
    BufferExhausted {
        /// How many bits were asked for.
        requested: usize,
        /// How many bits were left.
        remaining: usize,
    },
    /// The first twelve bits are not all set.
    InvalidSync {
        /// The twelve bits that were found.
        bits: u16,
    },
    /// The layer field holds its reserved pattern.
    ReservedLayer {
        /// The two bits of the layer field.
        bits: u16,
    },
    /// The bit-rate code is the one for the free format, which has no table entry.
    FreeFormatUnsupported {
        /// The four bits of the bit-rate code.
        bits: u16,
    },
    /// The bit-rate code is the reserved one.
    ReservedBitrate {
        /// The four bits of the bit-rate code.
        bits: u16,
    },
    /// The sampling-frequency code is the reserved one.
    ReservedFrequency {
        /// The two bits of the sampling-frequency code.
        bits: u16,
    },
}

} // verus!
