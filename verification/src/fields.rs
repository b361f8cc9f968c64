//! The values that the fields of a header decode to, and the decoder of each field.
//!
//! Every decoder reads its bit group as a number, most significant bit first, and maps
//! that code to a value. What a code means is stated by the `of_code` function of the
//! value's type.

use crate::bits::{
    all_set, bits_value, lemma_all_set_value, lemma_bits_value_bound, lemma_none_set_value,
    none_set, Bits,
};
use crate::constants::{
    BITRATE_SIZE, COPYRIGHT_BIT_SIZE, EMPHASIS_SIZE, FREQUENCY_SIZE, HOME_SIZE, ID_SIZE,
    LAYER_SIZE, MODE_SIZE, PROTECTION_BIT_SIZE,
};
use crate::error::DecodeError;
use vstd::arithmetic::power2::lemma2_to64;
use vstd::prelude::*;

verus! {

/// The version of the MPEG audio standard that a frame follows.
///
/// The one-bit version field of a header tells `One` from `Two`; the other two values
/// are never decoded from it.
#[allow(non_camel_case_types)]
#[derive(Debug, Clone, Copy, PartialEq, Eq, Structural)]
pub enum MPEG_Version {
    Reserved,
    One,
    Two,
    TwoPointFive,
}

/// The compression layer of a frame.
#[derive(Debug, Clone, Copy, PartialEq, Eq, Structural)]
pub enum Layer {
    Reserved,
    Three,
    Two,
    One,
}

/// Whether a checksum follows the header.
#[derive(Debug, Clone, Copy, PartialEq, Eq, Structural)]
pub enum Protected {
    Yes,
    No,
}

/// The bit rate of a frame, in kbit/s.
#[derive(Debug, Clone, Copy, PartialEq, Eq, Structural)]
pub struct Bitrate(pub usize);

/// The sampling frequency of a frame, in Hz.
#[derive(Debug, Clone, Copy, PartialEq, Eq, Structural)]
pub struct Frequency(pub usize);

/// How the channels of a frame are encoded.
#[derive(Debug, Clone, Copy, PartialEq, Eq, Structural)]
pub enum Mode {
    Stereo,
    JointStereo,
    DualChannel,
    SingleChannel,
}

/// Whether the content is under copyright.
#[derive(Debug, Clone, Copy, PartialEq, Eq, Structural)]
pub enum Copyright {
    On,
    Off,
}

/// Whether the frame is on the medium that it was first published on.
#[derive(Debug, Clone, Copy, PartialEq, Eq, Structural)]
pub enum Home {
    On,
    Off,
}

/// Whether the sound has to be de-emphasised.
#[derive(Debug, Clone, Copy, PartialEq, Eq, Structural)]
pub enum Emphasis {
    On,
    Off,
}

/// The bit rates, in kbit/s, that the codes 1 to 14 stand for under `version` and
/// `layer`; the rate of code `c` is at index `c - 1`.
///
/// There is a row for the versions `One` and `Two` and the layers `One`, `Two` and
/// `Three`: the rows of version `One` are those of ISO/IEC 11172-3, the rows of version
/// `Two` those of ISO/IEC 13818-3, where the layers `Two` and `Three` share one.
pub open spec fn bitrate_row(version: MPEG_Version, layer: Layer) -> Seq<usize> {
    match (version, layer) {
        (MPEG_Version::One, Layer::One) => seq![
            32, 64, 96, 128, 160, 192, 224, 256, 288, 320, 352, 384, 416, 448,
        ],
        (MPEG_Version::One, Layer::Two) => seq![
            32, 48, 56, 64, 80, 96, 112, 128, 160, 192, 224, 256, 320, 384,
        ],
        (MPEG_Version::One, Layer::Three) => seq![
            32, 40, 48, 56, 64, 80, 96, 112, 128, 160, 192, 224, 256, 320,
        ],
        (MPEG_Version::Two, Layer::One) => seq![
            32, 48, 56, 64, 80, 96, 112, 128, 144, 160, 176, 192, 224, 256,
        ],
        (MPEG_Version::Two, Layer::Two) | (MPEG_Version::Two, Layer::Three) => seq![
            8, 16, 24, 32, 40, 48, 56, 64, 80, 96, 112, 128, 144, 160,
        ],
        _ => Seq::empty(),
    }
}

/// The sampling frequencies, in Hz, that the codes 0 to 2 stand for under `version`.
pub open spec fn frequency_row(version: MPEG_Version) -> Seq<usize> {
    match version {
        MPEG_Version::One => seq![44100, 48000, 32000],
        MPEG_Version::Two => seq![22050, 24000, 16000],
        MPEG_Version::TwoPointFive => seq![11025, 12000, 8000],
        MPEG_Version::Reserved => Seq::empty(),
    }
}

/// What a one-bit flag says: it is raised when the bit is set.
pub open spec fn flag_of_code(code: nat) -> bool {
    code == 1
}

/// Decodes a one-bit flag, such as the padding bit or the private bit.
pub fn flag_from_bitvecu8(bits: Bits) -> (raised: bool)
    requires
        bits@.len() == 1,
    ensures
        raised == flag_of_code(bits_value(bits@)),
{
    let code: u32 = bits.value();
    code == 1
}

impl MPEG_Version {
    /// The version that the one-bit code stands for.
    pub open spec fn of_code(code: nat) -> MPEG_Version {
        if code == 1 {
            MPEG_Version::One
        } else {
            MPEG_Version::Two
        }
    }

    /// Decodes the version bit.
    pub fn from_bitvecu8(bits: Bits) -> (version: MPEG_Version)
        requires
            bits@.len() == ID_SIZE,
        ensures
            version == MPEG_Version::of_code(bits_value(bits@)),
    {
        let code: u32 = bits.value();
        if code == 1 {
            MPEG_Version::One
        } else {
            MPEG_Version::Two
        }
    }
}

impl Layer {
    /// The layer that the two-bit code stands for; the code 0 is reserved.
    pub open spec fn of_code(code: nat) -> Result<Layer, DecodeError> {
        if code == 1 {
            Ok(Layer::Three)
        } else if code == 2 {
            Ok(Layer::Two)
        } else if code == 3 {
            Ok(Layer::One)
        } else {
            Err(DecodeError::ReservedLayer { bits: 0 })
        }
    }

    /// Decodes the two bits of the layer field.
    pub fn from_bitvecu8(bits: Bits) -> (r: Result<Layer, DecodeError>)
        requires
            bits@.len() == LAYER_SIZE,
        ensures
            r == Layer::of_code(bits_value(bits@)),
    {
        let code: u32 = bits.value();
        proof {
            lemma_bits_value_bound(bits@);
            lemma2_to64();
        }
        match code {
            0 => Err(DecodeError::ReservedLayer { bits: 0 }),
            1 => Ok(Layer::Three),
            2 => Ok(Layer::Two),
            _ => Ok(Layer::One),
        }
    }
}

impl Protected {
    /// Whether the one-bit code says that a checksum follows.
    pub open spec fn of_code(code: nat) -> Protected {
        if code == 1 {
            Protected::Yes
        } else {
            Protected::No
        }
    }

    /// Decodes the protection bit.
    pub fn from_bitvecu8(bits: Bits) -> (protection: Protected)
        requires
            bits@.len() == PROTECTION_BIT_SIZE,
        ensures
            protection == Protected::of_code(bits_value(bits@)),
    {
        let code: u32 = bits.value();
        if code == 1 {
            Protected::Yes
        } else {
            Protected::No
        }
    }
}

impl Bitrate {
    /// The bit rate that the four-bit code stands for under `version` and `layer`. The
    /// code 0 announces the free format, for which there is no rate to look up, and the
    /// code 15 is reserved.
    pub open spec fn of_code(code: nat, version: MPEG_Version, layer: Layer) -> Result<
        Bitrate,
        DecodeError,
    > {
        if code == 0 {
            Err(DecodeError::FreeFormatUnsupported { bits: 0 })
        } else if code == 15 {
            Err(DecodeError::ReservedBitrate { bits: 15 })
        } else {
            Ok(Bitrate(bitrate_row(version, layer)[code - 1]))
        }
    }

    /// Decodes the four bits of a bit-rate code under a version and a layer that were
    /// decoded before it.
    pub fn from_bitvecu8(bits: Bits, version: MPEG_Version, layer: Layer) -> (r: Result<
        Bitrate,
        DecodeError,
    >)
        requires
            bits@.len() == BITRATE_SIZE,
            version is One || version is Two,
            !(layer is Reserved),
        ensures
            r == Bitrate::of_code(bits_value(bits@), version, layer),
    {
        let code: u32 = bits.value();
        proof {
            lemma_bits_value_bound(bits@);
            lemma2_to64();
        }
        if code == 0 {
            Err(DecodeError::FreeFormatUnsupported { bits: 0 })
        } else if code == 15 {
            Err(DecodeError::ReservedBitrate { bits: 15 })
        } else {
            let row: [usize; 14] = match version {
                MPEG_Version::One => match layer {
                    Layer::One => [
                        32, 64, 96, 128, 160, 192, 224, 256, 288, 320, 352, 384, 416, 448,
                    ],
                    Layer::Two => [
                        32, 48, 56, 64, 80, 96, 112, 128, 160, 192, 224, 256, 320, 384,
                    ],
                    _ => [32, 40, 48, 56, 64, 80, 96, 112, 128, 160, 192, 224, 256, 320],
                },
                _ => match layer {
                    Layer::One => [
                        32, 48, 56, 64, 80, 96, 112, 128, 144, 160, 176, 192, 224, 256,
                    ],
                    _ => [8, 16, 24, 32, 40, 48, 56, 64, 80, 96, 112, 128, 144, 160],
                },
            };
            assert(row@ =~= bitrate_row(version, layer));
            Ok(Bitrate(row[(code - 1) as usize]))
        }
    }
}

impl Frequency {
    /// The sampling frequency that the two-bit code stands for under `version`; the
    /// code 3 is reserved.
    pub open spec fn of_code(code: nat, version: MPEG_Version) -> Result<Frequency, DecodeError> {
        if code == 3 {
            Err(DecodeError::ReservedFrequency { bits: 3 })
        } else {
            Ok(Frequency(frequency_row(version)[code as int]))
        }
    }

    /// Decodes the two bits of a sampling-frequency code under a version that was
    /// decoded before it.
    pub fn from_bitvecu8(bits: Bits, version: MPEG_Version) -> (r: Result<Frequency, DecodeError>)
        requires
            bits@.len() == FREQUENCY_SIZE,
            !(version is Reserved),
        ensures
            r == Frequency::of_code(bits_value(bits@), version),
    {
        let code: u32 = bits.value();
        proof {
            lemma_bits_value_bound(bits@);
            lemma2_to64();
        }
        if code == 3 {
            Err(DecodeError::ReservedFrequency { bits: 3 })
        } else {
            let row: [usize; 3] = match version {
                MPEG_Version::One => [44100, 48000, 32000],
                MPEG_Version::Two => [22050, 24000, 16000],
                _ => [11025, 12000, 8000],
            };
            assert(row@ =~= frequency_row(version));
            Ok(Frequency(row[code as usize]))
        }
    }
}

impl Mode {
    /// The channel mode that the two-bit code stands for.
    pub open spec fn of_code(code: nat) -> Mode {
        if code == 0 {
            Mode::Stereo
        } else if code == 1 {
            Mode::JointStereo
        } else if code == 2 {
            Mode::DualChannel
        } else {
            Mode::SingleChannel
        }
    }

    /// Decodes the two bits of the channel-mode field.
    pub fn from_bitvecu8(bits: Bits) -> (mode: Mode)
        requires
            bits@.len() == MODE_SIZE,
        ensures
            mode == Mode::of_code(bits_value(bits@)),
    {
        let code: u32 = bits.value();
        match code {
            0 => Mode::Stereo,
            1 => Mode::JointStereo,
            2 => Mode::DualChannel,
            _ => Mode::SingleChannel,
        }
    }
}

impl Copyright {
    /// Whether the one-bit code marks the content as under copyright.
    pub open spec fn of_code(code: nat) -> Copyright {
        if code == 1 {
            Copyright::On
        } else {
            Copyright::Off
        }
    }

    /// Decodes the copyright bit.
    pub fn from_bitvecu8(bits: Bits) -> (copyright: Copyright)
        requires
            bits@.len() == COPYRIGHT_BIT_SIZE,
        ensures
            copyright == Copyright::of_code(bits_value(bits@)),
    {
        let code: u32 = bits.value();
        if code == 1 {
            Copyright::On
        } else {
            Copyright::Off
        }
    }
}

impl Home {
    /// Whether the one-bit code marks the frame as on the medium that it was first
    /// published on.
    pub open spec fn of_code(code: nat) -> Home {
        if code == 1 {
            Home::On
        } else {
            Home::Off
        }
    }

    /// Decodes the home bit.
    pub fn from_bitvecu8(bits: Bits) -> (home: Home)
        requires
            bits@.len() == HOME_SIZE,
        ensures
            home == Home::of_code(bits_value(bits@)),
    {
        let code: u32 = bits.value();
        if code == 1 {
            Home::On
        } else {
            Home::Off
        }
    }
}

impl Emphasis {
    /// Whether the two-bit code asks for de-emphasis: every code but 0 does.
    pub open spec fn of_code(code: nat) -> Emphasis {
        if code == 0 {
            Emphasis::Off
        } else {
            Emphasis::On
        }
    }

    /// Decodes the two bits of the emphasis field.
    pub fn from_bitvecu8(bits: Bits) -> (emphasis: Emphasis)
        requires
            bits@.len() == EMPHASIS_SIZE,
        ensures
            emphasis == Emphasis::of_code(bits_value(bits@)),
    {
        let code: u32 = bits.value();
        if code == 0 {
            Emphasis::Off
        } else {
            Emphasis::On
        }
    }
}

/// The layer field with both bits clear is refused as reserved.
pub proof fn lemma_reserved_layer(bits: Seq<bool>)
    requires
        bits.len() == LAYER_SIZE,
        none_set(bits),
    ensures
        Layer::of_code(bits_value(bits)) == Err::<Layer, DecodeError>(
            DecodeError::ReservedLayer { bits: 0 },
        ),
{
    lemma_none_set_value(bits);
}

/// The bit-rate code with all four bits set is refused as reserved, under every version
/// and layer.
pub proof fn lemma_reserved_bitrate(bits: Seq<bool>, version: MPEG_Version, layer: Layer)
    requires
        bits.len() == BITRATE_SIZE,
        all_set(bits),
    ensures
        Bitrate::of_code(bits_value(bits), version, layer) == Err::<Bitrate, DecodeError>(
            DecodeError::ReservedBitrate { bits: 15 },
        ),
{
    lemma_all_set_value(bits);
    lemma2_to64();
}

/// The sampling-frequency code with both bits set is refused as reserved, under every
/// version.
pub proof fn lemma_reserved_frequency(bits: Seq<bool>, version: MPEG_Version)
    requires
        bits.len() == FREQUENCY_SIZE,
        all_set(bits),
    ensures
        Frequency::of_code(bits_value(bits), version) == Err::<Frequency, DecodeError>(
            DecodeError::ReservedFrequency { bits: 3 },
        ),
{
    lemma_all_set_value(bits);
    lemma2_to64();
}

} // verus!
