//! The header of an MPEG audio frame: its thirteen raw bit groups, and what they decode
//! to.

use crate::bits::{
    all_set, bits_value, lemma_all_set_value, lemma_bits_value_bound, lemma_none_set_value,
    none_set, Bits,
};
use crate::constants::{
    BITRATE_SIZE, COPYRIGHT_BIT_SIZE, EMPHASIS_SIZE, FREQUENCY_SIZE, HEADER_SIZE, HOME_SIZE,
    ID_SIZE, LAYER_SIZE, MODE_EXTENSION_SIZE, MODE_SIZE, PADDING_BIT_SIZE, PRIVATE_BIT_SIZE,
    PROTECTION_BIT_SIZE, SYNC_SIZE,
};
use crate::error::DecodeError;
pub use crate::fields::{
    Bitrate, Copyright, Emphasis, Frequency, Home, Layer, Mode, Protected, MPEG_Version,
};
use crate::fields::{
    bitrate_row, flag_from_bitvecu8, flag_of_code, frequency_row, lemma_reserved_bitrate,
    lemma_reserved_frequency, lemma_reserved_layer,
};
use crate::utils::BitCursor;
use vstd::arithmetic::power2::lemma2_to64;
use vstd::prelude::*;

verus! {

/// The thirteen bit groups of a header, in the order in which a header holds them, each
/// as it stood in the buffer.
#[derive(Debug)]
pub struct RawHeader {
    pub sync: Bits,
    pub id: Bits,
    pub layer: Bits,
    pub protection_bit: Bits,
    pub bitrate: Bits,
    pub frequency: Bits,
    pub padding_bit: Bits,
    pub private_bit: Bits,
    pub mode: Bits,
    pub mode_extension: Bits,
    pub copyright_bit: Bits,
    pub home: Bits,
    pub emphasis: Bits,
}

/// What a [`RawHeader`] holds, as sequences of bits.
pub struct RawFields {
    pub sync: Seq<bool>,
    pub id: Seq<bool>,
    pub layer: Seq<bool>,
    pub protection_bit: Seq<bool>,
    pub bitrate: Seq<bool>,
    pub frequency: Seq<bool>,
    pub padding_bit: Seq<bool>,
    pub private_bit: Seq<bool>,
    pub mode: Seq<bool>,
    pub mode_extension: Seq<bool>,
    pub copyright_bit: Seq<bool>,
    pub home: Seq<bool>,
    pub emphasis: Seq<bool>,
}

impl RawFields {
    /// Every group has the width of its field.
    pub open spec fn wf(self) -> bool {
        &&& self.sync.len() == SYNC_SIZE
        &&& self.id.len() == ID_SIZE
        &&& self.layer.len() == LAYER_SIZE
        &&& self.protection_bit.len() == PROTECTION_BIT_SIZE
        &&& self.bitrate.len() == BITRATE_SIZE
        &&& self.frequency.len() == FREQUENCY_SIZE
        &&& self.padding_bit.len() == PADDING_BIT_SIZE
        &&& self.private_bit.len() == PRIVATE_BIT_SIZE
        &&& self.mode.len() == MODE_SIZE
        &&& self.mode_extension.len() == MODE_EXTENSION_SIZE
        &&& self.copyright_bit.len() == COPYRIGHT_BIT_SIZE
        &&& self.home.len() == HOME_SIZE
        &&& self.emphasis.len() == EMPHASIS_SIZE
    }

    /// The sum of the widths of the thirteen groups.
    pub open spec fn total_width(self) -> nat {
        self.sync.len() + self.id.len() + self.layer.len() + self.protection_bit.len()
            + self.bitrate.len() + self.frequency.len() + self.padding_bit.len()
            + self.private_bit.len() + self.mode.len() + self.mode_extension.len()
            + self.copyright_bit.len() + self.home.len() + self.emphasis.len()
    }

    /// The thirteen groups, one after the other.
    pub open spec fn joined(self) -> Seq<bool> {
        self.sync + self.id + self.layer + self.protection_bit + self.bitrate + self.frequency
            + self.padding_bit + self.private_bit + self.mode + self.mode_extension
            + self.copyright_bit + self.home + self.emphasis
    }
}

/// The thirteen groups that the first 32 bits of `s` fall into.
pub open spec fn split(s: Seq<bool>) -> RawFields {
    RawFields {
        sync: s.subrange(0, 12),
        id: s.subrange(12, 13),
        layer: s.subrange(13, 15),
        protection_bit: s.subrange(15, 16),
        bitrate: s.subrange(16, 20),
        frequency: s.subrange(20, 22),
        padding_bit: s.subrange(22, 23),
        private_bit: s.subrange(23, 24),
        mode: s.subrange(24, 26),
        mode_extension: s.subrange(26, 28),
        copyright_bit: s.subrange(28, 29),
        home: s.subrange(29, 30),
        emphasis: s.subrange(30, 32),
    }
}

impl View for RawHeader {
    type V = RawFields;

    open spec fn view(&self) -> RawFields {
        RawFields {
            sync: self.sync@,
            id: self.id@,
            layer: self.layer@,
            protection_bit: self.protection_bit@,
            bitrate: self.bitrate@,
            frequency: self.frequency@,
            padding_bit: self.padding_bit@,
            private_bit: self.private_bit@,
            mode: self.mode@,
            mode_extension: self.mode_extension@,
            copyright_bit: self.copyright_bit@,
            home: self.home@,
            emphasis: self.emphasis@,
        }
    }
}

impl RawHeader {
    /// Splits the first 32 bits of `array` into the thirteen groups of a header.
    ///
    /// The length of `array` is tested once, before any group is taken: an `array` of
    /// fewer than 32 bits is refused. Bits after the first 32 are not looked at.
    pub fn new(array: &Bits) -> (r: Result<RawHeader, DecodeError>)
        ensures
            match r {
                Ok(raw) => {
                    &&& array@.len() >= HEADER_SIZE
                    &&& raw@ == split(array@)
                    &&& raw@.wf()
                    &&& raw@.total_width() == HEADER_SIZE
                },
                Err(e) => array@.len() < HEADER_SIZE && e == DecodeError::BufferTooShort,
            },
    {
        if array.len() < HEADER_SIZE {
            return Err(DecodeError::BufferTooShort);
        }
        proof {
            lemma_split_partitions(array@);
        }
        let mut cursor = BitCursor::new(array);
        let sync = cursor.take(SYNC_SIZE)?;
        let id = cursor.take(ID_SIZE)?;
        let layer = cursor.take(LAYER_SIZE)?;
        let protection_bit = cursor.take(PROTECTION_BIT_SIZE)?;
        let bitrate = cursor.take(BITRATE_SIZE)?;
        let frequency = cursor.take(FREQUENCY_SIZE)?;
        let padding_bit = cursor.take(PADDING_BIT_SIZE)?;
        let private_bit = cursor.take(PRIVATE_BIT_SIZE)?;
        let mode = cursor.take(MODE_SIZE)?;
        let mode_extension = cursor.take(MODE_EXTENSION_SIZE)?;
        let copyright_bit = cursor.take(COPYRIGHT_BIT_SIZE)?;
        let home = cursor.take(HOME_SIZE)?;
        let emphasis = cursor.take(EMPHASIS_SIZE)?;
        Ok(
            RawHeader {
                sync,
                id,
                layer,
                protection_bit,
                bitrate,
                frequency,
                padding_bit,
                private_bit,
                mode,
                mode_extension,
                copyright_bit,
                home,
                emphasis,
            },
        )
    }
}

/// A decoded header.
#[derive(Debug, Clone, Copy, PartialEq, Eq, Structural)]
pub struct Header {
    /// Whether the synchronisation word was the expected one. It is in every header
    /// that was decoded.
    pub sync: bool,
    pub id: MPEG_Version,
    pub layer: Layer,
    pub protection_bit: Protected,
    pub bitrate: Bitrate,
    pub frequency: Frequency,
    pub padding: bool,
    pub private_bit: bool,
    pub mode: Mode,
    /// The two bits of the mode extension, as a number. What they mean depends on the
    /// mode and the layer, and is not decoded here.
    pub mode_extension: u8,
    pub copyright_bit: Copyright,
    pub home: Home,
    pub emphasis: Emphasis,
}

/// What the thirteen groups of a header decode to.
///
/// The fields are decoded in the order in which the header holds them, and the first
/// one that cannot be decoded gives the error: the synchronisation word, then the
/// layer, then the bit rate, then the sampling frequency. The other fields have a value
/// for every pattern.
pub open spec fn decode_fields(raw: RawFields) -> Result<Header, DecodeError> {
    if !all_set(raw.sync) {
        Err(DecodeError::InvalidSync { bits: bits_value(raw.sync) as u16 })
    } else {
        let id = MPEG_Version::of_code(bits_value(raw.id));
        match Layer::of_code(bits_value(raw.layer)) {
            Err(e) => Err(e),
            Ok(layer) => match Bitrate::of_code(bits_value(raw.bitrate), id, layer) {
                Err(e) => Err(e),
                Ok(bitrate) => match Frequency::of_code(bits_value(raw.frequency), id) {
                    Err(e) => Err(e),
                    Ok(frequency) => Ok(
                        Header {
                            sync: true,
                            id,
                            layer,
                            protection_bit: Protected::of_code(bits_value(raw.protection_bit)),
                            bitrate,
                            frequency,
                            padding: flag_of_code(bits_value(raw.padding_bit)),
                            private_bit: flag_of_code(bits_value(raw.private_bit)),
                            mode: Mode::of_code(bits_value(raw.mode)),
                            mode_extension: bits_value(raw.mode_extension) as u8,
                            copyright_bit: Copyright::of_code(bits_value(raw.copyright_bit)),
                            home: Home::of_code(bits_value(raw.home)),
                            emphasis: Emphasis::of_code(bits_value(raw.emphasis)),
                        },
                    ),
                },
            },
        }
    }
}

/// What a buffer of bits decodes to: it must hold 32 bits at least, and its first 32
/// bits are split into the groups of a header and decoded.
pub open spec fn decode_bits(s: Seq<bool>) -> Result<Header, DecodeError> {
    if s.len() < HEADER_SIZE {
        Err(DecodeError::BufferTooShort)
    } else {
        decode_fields(split(s))
    }
}

impl Header {
    /// Whether the header is one that decoding can give: the synchronisation word was
    /// found, the version and the layer are among those that a header can state, the
    /// bit rate and the sampling frequency stand in the tables for them, and the mode
    /// extension fits in its two bits.
    pub open spec fn wf(self) -> bool {
        &&& self.sync
        &&& self.id is One || self.id is Two
        &&& !(self.layer is Reserved)
        &&& bitrate_row(self.id, self.layer).contains(self.bitrate.0)
        &&& frequency_row(self.id).contains(self.frequency.0)
        &&& self.mode_extension < 4
    }

    /// Decodes the thirteen groups of a header.
    pub fn from_raw(raw: RawHeader) -> (r: Result<Header, DecodeError>)
        requires
            raw@.wf(),
        ensures
            r == decode_fields(raw@),
            r matches Ok(header) ==> header.wf(),
    {
        let sync: u32 = raw.sync.value();
        proof {
            lemma_all_set_value(raw.sync@);
            lemma_bits_value_bound(raw.sync@);
            lemma_bits_value_bound(raw.mode_extension@);
            lemma2_to64();
        }
        if sync != 0xFFF {
            return Err(DecodeError::InvalidSync { bits: sync as u16 });
        }
        let id = MPEG_Version::from_bitvecu8(raw.id);
        let layer = Layer::from_bitvecu8(raw.layer)?;
        let protection_bit = Protected::from_bitvecu8(raw.protection_bit);
        let bitrate = Bitrate::from_bitvecu8(raw.bitrate, id, layer)?;
        let frequency = Frequency::from_bitvecu8(raw.frequency, id)?;
        let padding = flag_from_bitvecu8(raw.padding_bit);
        let private_bit = flag_from_bitvecu8(raw.private_bit);
        let mode = Mode::from_bitvecu8(raw.mode);
        let mode_extension: u32 = raw.mode_extension.value();
        let copyright_bit = Copyright::from_bitvecu8(raw.copyright_bit);
        let home = Home::from_bitvecu8(raw.home);
        let emphasis = Emphasis::from_bitvecu8(raw.emphasis);
        let header = Header {
            sync: true,
            id,
            layer,
            protection_bit,
            bitrate,
            frequency,
            padding,
            private_bit,
            mode,
            mode_extension: mode_extension as u8,
            copyright_bit,
            home,
            emphasis,
        };
        proof {
            lemma_decoded_header_wf(raw@);
        }
        Ok(header)
    }

    /// Decodes the header that the first 32 bits of `array` hold.
    pub fn decode(array: &Bits) -> (r: Result<Header, DecodeError>)
        ensures
            r == decode_bits(array@),
            r matches Ok(header) ==> header.wf(),
    {
        let raw = RawHeader::new(array)?;
        Header::from_raw(raw)
    }
}

/// The groups that a buffer of 32 bits or more is split into have the widths of their
/// fields, which add up to 32, and laid end to end they are the first 32 bits of the
/// buffer: no bit is left out and none is in two groups.
pub proof fn lemma_split_partitions(s: Seq<bool>)
    requires
        s.len() >= HEADER_SIZE,
    ensures
        split(s).wf(),
        split(s).total_width() == HEADER_SIZE,
        split(s).joined() == s.subrange(0, HEADER_SIZE as int),
{
}

/// Groups of the right widths add up to the width of a header.
pub proof fn lemma_raw_width(raw: RawFields)
    requires
        raw.wf(),
    ensures
        raw.total_width() == HEADER_SIZE,
        raw.joined().len() == HEADER_SIZE,
{
}

/// A header that groups of the right widths decode to is well formed.
pub proof fn lemma_decoded_header_wf(raw: RawFields)
    requires
        raw.wf(),
    ensures
        decode_fields(raw) matches Ok(header) ==> header.wf(),
{
    if let Ok(header) = decode_fields(raw) {
        lemma_bits_value_bound(raw.layer);
        lemma_bits_value_bound(raw.bitrate);
        lemma_bits_value_bound(raw.frequency);
        lemma_bits_value_bound(raw.mode_extension);
        lemma2_to64();
        let rates = bitrate_row(header.id, header.layer);
        let rate_code = bits_value(raw.bitrate);
        assert(rates[rate_code - 1] == header.bitrate.0);
        let frequencies = frequency_row(header.id);
        let frequency_code = bits_value(raw.frequency);
        assert(frequencies[frequency_code as int] == header.frequency.0);
    }
}

/// Whether none of the layer, the bit-rate code and the sampling-frequency code holds a
/// pattern that is refused.
pub open spec fn codes_valid(raw: RawFields) -> bool {
    &&& bits_value(raw.layer) != 0
    &&& bits_value(raw.bitrate) != 0
    &&& bits_value(raw.bitrate) != 15
    &&& bits_value(raw.frequency) != 3
}

/// Decoding looks at the first 32 bits and at nothing else: buffers that agree on them
/// decode to the same header, or fail with the same error.
pub proof fn lemma_decode_reads_header_bits(a: Seq<bool>, b: Seq<bool>)
    requires
        a.len() >= HEADER_SIZE,
        b.len() >= HEADER_SIZE,
        a.subrange(0, HEADER_SIZE as int) == b.subrange(0, HEADER_SIZE as int),
    ensures
        decode_bits(a) == decode_bits(b),
{
    let head_a = a.subrange(0, HEADER_SIZE as int);
    let head_b = b.subrange(0, HEADER_SIZE as int);
    assert forall|i: int| 0 <= i < HEADER_SIZE implies a[i] == b[i] by {
        assert(a[i] == head_a[i]);
        assert(b[i] == head_b[i]);
    }
    let x = split(a);
    let y = split(b);
    assert(x.sync =~= y.sync);
    assert(x.id =~= y.id);
    assert(x.layer =~= y.layer);
    assert(x.protection_bit =~= y.protection_bit);
    assert(x.bitrate =~= y.bitrate);
    assert(x.frequency =~= y.frequency);
    assert(x.padding_bit =~= y.padding_bit);
    assert(x.private_bit =~= y.private_bit);
    assert(x.mode =~= y.mode);
    assert(x.mode_extension =~= y.mode_extension);
    assert(x.copyright_bit =~= y.copyright_bit);
    assert(x.home =~= y.home);
    assert(x.emphasis =~= y.emphasis);
}

/// A buffer of fewer than 32 bits is refused as too short, whatever it holds.
pub proof fn lemma_short_buffer_refused(s: Seq<bool>)
    requires
        s.len() < HEADER_SIZE,
    ensures
        decode_bits(s) == Err::<Header, DecodeError>(DecodeError::BufferTooShort),
{
}

/// A buffer of 32 bits or more whose first twelve bits are not all set is refused for
/// its synchronisation word, whatever follows; the error carries the twelve bits.
pub proof fn lemma_invalid_sync_refused(s: Seq<bool>)
    requires
        s.len() >= HEADER_SIZE,
        !all_set(split(s).sync),
    ensures
        decode_bits(s) == Err::<Header, DecodeError>(
            DecodeError::InvalidSync { bits: bits_value(split(s).sync) as u16 },
        ),
        bits_value(split(s).sync) < 0xFFF,
{
    lemma_all_set_value(split(s).sync);
    lemma_bits_value_bound(split(s).sync);
    lemma2_to64();
}

/// A buffer of 32 bits or more whose first twelve bits are all set decodes to a header
/// if and only if none of its layer, bit-rate code and sampling-frequency code holds a
/// pattern that is refused.
pub proof fn lemma_valid_sync_accepted(s: Seq<bool>)
    requires
        s.len() >= HEADER_SIZE,
        all_set(split(s).sync),
    ensures
        decode_bits(s) is Ok <==> codes_valid(split(s)),
{
    let raw = split(s);
    lemma_bits_value_bound(raw.layer);
    lemma_bits_value_bound(raw.bitrate);
    lemma_bits_value_bound(raw.frequency);
    lemma2_to64();
}

/// A header whose synchronisation word is found and whose layer bits are both clear is
/// refused for its reserved layer, whatever its other fields hold.
pub proof fn lemma_reserved_layer_refused(s: Seq<bool>)
    requires
        s.len() >= HEADER_SIZE,
        all_set(split(s).sync),
        none_set(split(s).layer),
    ensures
        decode_bits(s) == Err::<Header, DecodeError>(DecodeError::ReservedLayer { bits: 0 }),
{
    lemma_reserved_layer(split(s).layer);
}

/// A header whose synchronisation word is found, whose layer is not the reserved one
/// and whose bit-rate code has all four bits set is refused for its reserved bit rate,
/// whatever its other fields hold.
pub proof fn lemma_reserved_bitrate_refused(s: Seq<bool>)
    requires
        s.len() >= HEADER_SIZE,
        all_set(split(s).sync),
        !none_set(split(s).layer),
        all_set(split(s).bitrate),
    ensures
        decode_bits(s) == Err::<Header, DecodeError>(DecodeError::ReservedBitrate { bits: 15 }),
{
    let raw = split(s);
    lemma_none_set_value(raw.layer);
    lemma_bits_value_bound(raw.layer);
    lemma2_to64();
    let id = MPEG_Version::of_code(bits_value(raw.id));
    let layer = Layer::of_code(bits_value(raw.layer));
    lemma_reserved_bitrate(raw.bitrate, id, layer->Ok_0);
}

/// A header whose synchronisation word is found, whose layer and bit-rate code are not
/// refused and whose sampling-frequency code has both bits set is refused for its
/// reserved sampling frequency, whatever its other fields hold.
pub proof fn lemma_reserved_frequency_refused(s: Seq<bool>)
    requires
        s.len() >= HEADER_SIZE,
        all_set(split(s).sync),
        !none_set(split(s).layer),
        !none_set(split(s).bitrate),
        !all_set(split(s).bitrate),
        all_set(split(s).frequency),
    ensures
        decode_bits(s) == Err::<Header, DecodeError>(DecodeError::ReservedFrequency { bits: 3 }),
{
    let raw = split(s);
    lemma_none_set_value(raw.layer);
    lemma_none_set_value(raw.bitrate);
    lemma_all_set_value(raw.bitrate);
    lemma_bits_value_bound(raw.layer);
    lemma_bits_value_bound(raw.bitrate);
    lemma2_to64();
    let id = MPEG_Version::of_code(bits_value(raw.id));
    lemma_reserved_frequency(raw.frequency, id);
}

} // verus!
