use waywire::h264::{parse_test_sps, rtp_payload, BitReader, H264AccessUnit, SpsColorContract};

#[test]
fn payloads_make_up_the_units_of_a_frame() {
    let mut unit = H264AccessUnit::default();
    unit.push_rtp_payload(&[0x67, 1, 2]);
    unit.push_rtp_payload(&[24, 0, 1, 0x68, 0, 2, 0x06, 9]);
    unit.push_rtp_payload(&[0x7c, 0x85, 1]);
    unit.push_rtp_payload(&[0x7c, 0x05, 2]);
    unit.push_rtp_payload(&[0x7c, 0x45, 3]);
    assert_eq!(unit.fragmented_nal, None);
    assert_eq!(
        unit.finish(),
        vec![
            vec![0x67, 1, 2],
            vec![0x68],
            vec![0x06, 9],
            vec![0x65, 1, 2, 3],
        ]
    );
}

#[test]
fn a_fragmented_unit_is_the_unit_that_was_sent() {
    let mut whole = H264AccessUnit::default();
    whole.push_rtp_payload(&[0x41, 5, 6, 7]);
    let mut pieces = H264AccessUnit::default();
    pieces.push_rtp_payload(&[0x5c, 0x81, 5]);
    pieces.push_rtp_payload(&[0x5c, 0x41, 6, 7]);
    assert_eq!(whole.finish(), pieces.finish());
}

#[test]
fn rtp_payloads_stand_behind_the_header() {
    let packet = [0x80, 0xe0, 0, 1, 0, 0, 0, 2, 0, 0, 0, 3, 0x65, 4];
    assert_eq!(rtp_payload(&packet), [0x65, 4]);
}

#[test]
fn bits_are_read_from_the_highest() {
    let mut reader = BitReader::for_sps(&[0x67, 0b1010_0000, 0, 0, 3, 1]);
    assert_eq!(reader.bytes, vec![0b1010_0000, 0, 0, 1]);
    assert!(reader.bit());
    assert!(!reader.bit());
    assert_eq!(reader.bits(2), 2);
    assert_eq!(reader.bits(28), 1);
}

#[test]
fn exp_golomb_numbers_are_read() {
    // 1, 010, 011, 00100, 00111, 0001000
    let mut reader = BitReader::for_sps(&[0x67, 0b1010_0110, 0b0100_0011, 0b1000_1000]);
    for expected in [0, 1, 2, 3, 6, 7] {
        assert_eq!(reader.unsigned_exp_golomb(), expected);
    }
}

/// Writes the fields of a sequence parameter set.
struct Writer {
    bits: Vec<bool>,
}

impl Writer {
    fn bits(&mut self, value: u32, count: u32) {
        for place in (0..count).rev() {
            self.bits.push(value >> place & 1 == 1);
        }
    }

    fn golomb(&mut self, value: u32) {
        let length = 32 - (value + 1).leading_zeros();
        self.bits(0, length - 1);
        self.bits(value + 1, length);
    }

    fn finish(mut self) -> Vec<u8> {
        while self.bits.len() % 8 != 0 {
            self.bits.push(false);
        }
        let mut nal = vec![0x67];
        let mut zeroes = 0;
        for chunk in self.bits.chunks(8) {
            let byte = chunk
                .iter()
                .fold(0_u8, |byte, bit| byte << 1 | u8::from(*bit));
            if zeroes >= 2 && byte <= 3 {
                nal.push(3);
                zeroes = 0;
            }
            nal.push(byte);
            zeroes = if byte == 0 { zeroes + 1 } else { 0 };
        }
        nal
    }
}

fn sps(profile: u32, chroma_format: u32, extended_shape: bool, matrix: u32) -> Vec<u8> {
    let mut writer = Writer { bits: Vec::new() };
    writer.bits(profile, 8);
    writer.bits(0, 8);
    writer.bits(52, 8);
    writer.golomb(0);
    writer.golomb(chroma_format);
    if chroma_format == 3 {
        writer.bits(0, 1);
    }
    writer.golomb(0);
    writer.golomb(0);
    writer.bits(0, 2);
    writer.golomb(0);
    writer.golomb(2);
    writer.golomb(1);
    writer.bits(0, 1);
    writer.golomb(19);
    writer.golomb(11);
    writer.bits(0b11, 2);
    writer.bits(1, 1);
    for _ in 0..4 {
        writer.golomb(2);
    }
    writer.bits(1, 1);
    if extended_shape {
        writer.bits(1, 1);
        writer.bits(255, 8);
        writer.bits(1, 16);
        writer.bits(1, 16);
    } else {
        writer.bits(0, 1);
    }
    writer.bits(0, 1);
    writer.bits(1, 1);
    writer.bits(5, 3);
    writer.bits(1, 1);
    writer.bits(1, 1);
    writer.bits(1, 8);
    writer.bits(13, 8);
    writer.bits(matrix, 8);
    writer.finish()
}

#[test]
fn parameter_sets_tell_the_profile_and_the_colours() {
    for (profile, chroma_format, extended_shape, matrix) in [
        (244, 3, false, 1),
        (100, 1, true, 1),
        (244, 3, true, 0),
    ] {
        assert_eq!(
            parse_test_sps(&sps(profile, chroma_format, extended_shape, matrix)),
            SpsColorContract {
                profile: u8::try_from(profile).expect("profiles are bytes"),
                constraints: 0,
                level: 52,
                chroma_format,
                full_range: true,
                color_primaries: 1,
                transfer_characteristics: 13,
                matrix_coefficients: u8::try_from(matrix).expect("matrices are bytes"),
            }
        );
    }
}
