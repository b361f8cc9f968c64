//! Widths, in bits, of the header and of each of its thirteen fields.

use vstd::prelude::*;

verus! {

/// Width of the whole header.
pub const HEADER_SIZE: usize = 32;

/// Width of the synchronisation word.
pub const SYNC_SIZE: usize = 12;

/// Width of the version field.
pub const ID_SIZE: usize = 1;

/// Width of the layer field.
pub const LAYER_SIZE: usize = 2;

/// Width of the protection bit.
pub const PROTECTION_BIT_SIZE: usize = 1;

/// Width of the bit-rate code.
pub const BITRATE_SIZE: usize = 4;

/// Width of the sampling-frequency code.
pub const FREQUENCY_SIZE: usize = 2;

/// Width of the padding bit.
pub const PADDING_BIT_SIZE: usize = 1;

/// Width of the private bit.
pub const PRIVATE_BIT_SIZE: usize = 1;

/// Width of the channel-mode field.
pub const MODE_SIZE: usize = 2;

/// Width of the mode-extension field.
pub const MODE_EXTENSION_SIZE: usize = 2;

/// Width of the copyright bit.
pub const COPYRIGHT_BIT_SIZE: usize = 1;

/// Width of the home bit.
pub const HOME_SIZE: usize = 1;

/// Width of the emphasis field.
pub const EMPHASIS_SIZE: usize = 2;

/// The thirteen field widths add up to the width of the header.
pub proof fn lemma_field_widths_fill_header()
    ensures
        SYNC_SIZE + ID_SIZE + LAYER_SIZE + PROTECTION_BIT_SIZE + BITRATE_SIZE + FREQUENCY_SIZE
            + PADDING_BIT_SIZE + PRIVATE_BIT_SIZE + MODE_SIZE + MODE_EXTENSION_SIZE
            + COPYRIGHT_BIT_SIZE + HOME_SIZE + EMPHASIS_SIZE == HEADER_SIZE,
{
}

} // verus!
