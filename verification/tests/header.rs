use mpeg_header::bits::Bits;
use mpeg_header::constants::{
    BITRATE_SIZE, COPYRIGHT_BIT_SIZE, EMPHASIS_SIZE, FREQUENCY_SIZE, HEADER_SIZE, HOME_SIZE,
    ID_SIZE, LAYER_SIZE, MODE_EXTENSION_SIZE, MODE_SIZE, PADDING_BIT_SIZE, PRIVATE_BIT_SIZE,
    PROTECTION_BIT_SIZE, SYNC_SIZE,
};
use mpeg_header::error::DecodeError;
use mpeg_header::header::{
    Bitrate, Copyright, Emphasis, Frequency, Header, Home, Layer, Mode, Protected, RawHeader,
    MPEG_Version,
};
use mpeg_header::utils::access;

fn decode(bytes: &[u8]) -> Result<Header, DecodeError> {
    Header::decode(&Bits::from_bytes(bytes))
}

#[test]
fn field_widths_add_up_to_the_header() {
    let widths = [
        SYNC_SIZE,
        ID_SIZE,
        LAYER_SIZE,
        PROTECTION_BIT_SIZE,
        BITRATE_SIZE,
        FREQUENCY_SIZE,
        PADDING_BIT_SIZE,
        PRIVATE_BIT_SIZE,
        MODE_SIZE,
        MODE_EXTENSION_SIZE,
        COPYRIGHT_BIT_SIZE,
        HOME_SIZE,
        EMPHASIS_SIZE,
    ];
    assert_eq!(widths, [12, 1, 2, 1, 4, 2, 1, 1, 2, 2, 1, 1, 2]);
    assert_eq!(widths.iter().sum::<usize>(), 32);
    assert_eq!(HEADER_SIZE, 32);
}

#[test]
fn raw_header_holds_the_groups_in_order() {
    // 101010101010 1 10 0 1001 01 1 0 10 01 1 0 11
    let bits = Bits::from_bytes(&[0xAA, 0xAC, 0x96, 0x9B]);
    let raw = RawHeader::new(&bits).unwrap();
    let groups = [
        &raw.sync,
        &raw.id,
        &raw.layer,
        &raw.protection_bit,
        &raw.bitrate,
        &raw.frequency,
        &raw.padding_bit,
        &raw.private_bit,
        &raw.mode,
        &raw.mode_extension,
        &raw.copyright_bit,
        &raw.home,
        &raw.emphasis,
    ];
    let widths: Vec<usize> = groups.iter().map(|group| group.len()).collect();
    assert_eq!(widths, vec![12, 1, 2, 1, 4, 2, 1, 1, 2, 2, 1, 1, 2]);
    assert_eq!(widths.iter().sum::<usize>(), 32);
    let codes: Vec<u32> = groups.iter().map(|group| group.value()).collect();
    assert_eq!(
        codes,
        vec![0b101010101010, 1, 0b10, 0, 0b1001, 0b01, 1, 0, 0b10, 0b01, 1, 0, 0b11]
    );
}

#[test]
fn raw_header_of_a_short_buffer_is_refused() {
    let bits = Bits::from_bytes(&[0xFF, 0xFA, 0x10]);
    assert_eq!(RawHeader::new(&bits).err(), Some(DecodeError::BufferTooShort));
}

#[test]
fn raw_header_reads_the_first_32_bits_of_a_longer_buffer() {
    let bits = Bits::from_bytes(&[0xFF, 0xFA, 0x10, 0x03, 0xFF, 0xFF]);
    let raw = RawHeader::new(&bits).unwrap();
    assert_eq!(raw.emphasis.len(), 2);
    assert_eq!(raw.emphasis.value(), 0b11);
    assert_eq!(raw.sync.value(), 0xFFF);
}

#[test]
fn decodes_the_layer_three_header_of_version_one() {
    // 111111111111 1 01 0 0001 00 0 0 00 00 0 0 00
    assert_eq!(
        decode(&[0xFF, 0xFA, 0x10, 0x00]),
        Ok(Header {
            sync: true,
            id: MPEG_Version::One,
            layer: Layer::Three,
            protection_bit: Protected::No,
            bitrate: Bitrate(32),
            frequency: Frequency(44100),
            padding: false,
            private_bit: false,
            mode: Mode::Stereo,
            mode_extension: 0,
            copyright_bit: Copyright::Off,
            home: Home::Off,
            emphasis: Emphasis::Off,
        })
    );
}

#[test]
fn decodes_every_field_of_a_header() {
    // 111111111111 0 10 1 1100 01 1 1 01 10 1 1 10
    assert_eq!(
        decode(&[0xFF, 0xF5, 0xC7, 0x6E]),
        Ok(Header {
            sync: true,
            id: MPEG_Version::Two,
            layer: Layer::Two,
            protection_bit: Protected::Yes,
            bitrate: Bitrate(128),
            frequency: Frequency(24000),
            padding: true,
            private_bit: true,
            mode: Mode::JointStereo,
            mode_extension: 2,
            copyright_bit: Copyright::On,
            home: Home::On,
            emphasis: Emphasis::On,
        })
    );
}

#[test]
fn decodes_a_layer_one_header_with_a_single_channel() {
    // 111111111111 1 11 1 1110 10 0 1 11 11 0 1 00
    assert_eq!(
        decode(&[0xFF, 0xFF, 0xE9, 0xF4]),
        Ok(Header {
            sync: true,
            id: MPEG_Version::One,
            layer: Layer::One,
            protection_bit: Protected::Yes,
            bitrate: Bitrate(448),
            frequency: Frequency(32000),
            padding: false,
            private_bit: true,
            mode: Mode::SingleChannel,
            mode_extension: 3,
            copyright_bit: Copyright::Off,
            home: Home::On,
            emphasis: Emphasis::Off,
        })
    );
}

#[test]
fn decoding_twice_gives_the_same_result() {
    let bits = Bits::from_bytes(&[0xFF, 0xF5, 0xC7, 0x6E]);
    assert_eq!(Header::decode(&bits), Header::decode(&bits));
    let bad = Bits::from_bytes(&[0xFF, 0xF5, 0xFF, 0x6E]);
    assert_eq!(Header::decode(&bad), Header::decode(&bad));
    assert!(Header::decode(&bad).is_err());
}

#[test]
fn bits_after_the_header_do_not_matter() {
    let header = decode(&[0xFF, 0xF5, 0xC7, 0x6E]);
    assert!(header.is_ok());
    assert_eq!(decode(&[0xFF, 0xF5, 0xC7, 0x6E, 0x00]), header);
    assert_eq!(decode(&[0xFF, 0xF5, 0xC7, 0x6E, 0xFF, 0xFF, 0xFF]), header);
}

#[test]
fn from_raw_decodes_what_new_split() {
    let bits = Bits::from_bytes(&[0xFF, 0xFA, 0x10, 0x00]);
    let raw = RawHeader::new(&bits).unwrap();
    assert_eq!(Header::from_raw(raw), Header::decode(&bits));
    let bits = Bits::from_bytes(&[0xFF, 0xF8, 0x10, 0x00]);
    let raw = RawHeader::new(&bits).unwrap();
    assert_eq!(Header::from_raw(raw), Err(DecodeError::ReservedLayer { bits: 0 }));
}

#[test]
fn short_buffers_are_refused() {
    assert_eq!(decode(&[]), Err(DecodeError::BufferTooShort));
    assert_eq!(decode(&[0xFF]), Err(DecodeError::BufferTooShort));
    assert_eq!(decode(&[0xFF, 0xFA, 0x10]), Err(DecodeError::BufferTooShort));
    let bits = Bits::from_bytes(&[0xFF, 0xFA, 0x10, 0x00]);
    let all_but_one = access(&bits, 0, 31).unwrap();
    assert_eq!(Header::decode(&all_but_one), Err(DecodeError::BufferTooShort));
}

#[test]
fn a_short_buffer_is_refused_before_its_fields_are_looked_at() {
    // Neither the missing synchronisation word nor the reserved layer is reported.
    assert_eq!(decode(&[0x00, 0x00, 0x00]), Err(DecodeError::BufferTooShort));
    assert_eq!(decode(&[0xFF, 0xF9, 0xF0]), Err(DecodeError::BufferTooShort));
}

#[test]
fn a_header_without_the_synchronisation_word_is_refused() {
    assert_eq!(
        decode(&[0xFF, 0xEA, 0x10, 0x00]),
        Err(DecodeError::InvalidSync { bits: 0xFFE })
    );
    assert_eq!(
        decode(&[0x7F, 0xFA, 0x10, 0x00]),
        Err(DecodeError::InvalidSync { bits: 0x7FF })
    );
    assert_eq!(
        decode(&[0x00, 0x0A, 0x10, 0x00]),
        Err(DecodeError::InvalidSync { bits: 0 })
    );
    assert_eq!(
        decode(&[0xFB, 0xFA, 0x10, 0x00]),
        Err(DecodeError::InvalidSync { bits: 0xFBF })
    );
}

#[test]
fn a_header_with_the_reserved_layer_is_refused() {
    assert_eq!(decode(&[0xFF, 0xF8, 0x10, 0x00]), Err(DecodeError::ReservedLayer { bits: 0 }));
    assert_eq!(decode(&[0xFF, 0xF1, 0x95, 0x6E]), Err(DecodeError::ReservedLayer { bits: 0 }));
}

#[test]
fn a_header_with_the_reserved_bitrate_is_refused() {
    assert_eq!(
        decode(&[0xFF, 0xFA, 0xF0, 0x00]),
        Err(DecodeError::ReservedBitrate { bits: 15 })
    );
    assert_eq!(
        decode(&[0xFF, 0xF5, 0xF7, 0x6E]),
        Err(DecodeError::ReservedBitrate { bits: 15 })
    );
}

#[test]
fn a_header_of_the_free_format_is_refused() {
    assert_eq!(
        decode(&[0xFF, 0xFA, 0x00, 0x00]),
        Err(DecodeError::FreeFormatUnsupported { bits: 0 })
    );
}

#[test]
fn a_header_with_the_reserved_frequency_is_refused() {
    assert_eq!(
        decode(&[0xFF, 0xFA, 0x1C, 0x00]),
        Err(DecodeError::ReservedFrequency { bits: 3 })
    );
    assert_eq!(
        decode(&[0xFF, 0xF5, 0xCF, 0x6E]),
        Err(DecodeError::ReservedFrequency { bits: 3 })
    );
}

#[test]
fn the_first_field_that_cannot_be_decoded_gives_the_error() {
    // No synchronisation word, reserved layer, reserved bit rate, reserved frequency.
    assert_eq!(
        decode(&[0xFF, 0xE8, 0xFC, 0x00]),
        Err(DecodeError::InvalidSync { bits: 0xFFE })
    );
    // Reserved layer, reserved bit rate, reserved frequency.
    assert_eq!(decode(&[0xFF, 0xF8, 0xFC, 0x00]), Err(DecodeError::ReservedLayer { bits: 0 }));
    // Reserved bit rate, reserved frequency.
    assert_eq!(
        decode(&[0xFF, 0xFA, 0xFC, 0x00]),
        Err(DecodeError::ReservedBitrate { bits: 15 })
    );
    // Free format, reserved frequency.
    assert_eq!(
        decode(&[0xFF, 0xFA, 0x0C, 0x00]),
        Err(DecodeError::FreeFormatUnsupported { bits: 0 })
    );
}

#[test]
fn every_header_with_valid_codes_is_decoded() {
    for second in [0xF2u8, 0xF5, 0xF6, 0xFB, 0xFC, 0xFF] {
        for rate in 1..=14u8 {
            for frequency in 0..3u8 {
                for last in [0x00u8, 0x5A, 0xFF] {
                    let third = (rate << 4) | (frequency << 2) | 0b01;
                    let header = decode(&[0xFF, second, third, last]).unwrap();
                    assert!(header.sync);
                    assert_eq!(header.padding, false);
                    assert_eq!(header.private_bit, true);
                    assert_eq!(header.mode_extension, (last >> 4) & 0b11);
                }
            }
        }
    }
}
