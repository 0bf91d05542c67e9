use bytes::BytesMut;
use ig_rs::buffers::{buffer_byte_count, new_buffer};
use ig_rs::igmqttclient::utils::{
    write_str, write_variable_length_encoding, DecodeStep, VariableLengthDecoder,
};

fn encode(value: usize) -> Vec<u8> {
    let mut writer = BytesMut::new();
    write_variable_length_encoding(value, &mut writer);
    writer.to_vec()
}

fn decode(bytes: &[u8]) -> (DecodeStep, usize) {
    let mut decoder = VariableLengthDecoder::new();
    for (i, b) in bytes.iter().enumerate() {
        match decoder.step(*b) {
            DecodeStep::NeedMore => {}
            outcome => return (outcome, i + 1),
        }
    }
    (DecodeStep::NeedMore, bytes.len())
}

#[test]
fn variable_length_encoding_matches_specification_table() {
    assert_eq!(encode(0), vec![0x00]);
    assert_eq!(encode(127), vec![0x7f]);
    assert_eq!(encode(128), vec![0x80, 0x01]);
    assert_eq!(encode(16_383), vec![0xff, 0x7f]);
    assert_eq!(encode(16_384), vec![0x80, 0x80, 0x01]);
    assert_eq!(encode(2_097_151), vec![0xff, 0xff, 0x7f]);
    assert_eq!(encode(2_097_152), vec![0x80, 0x80, 0x80, 0x01]);
    assert_eq!(encode(268_435_455), vec![0xff, 0xff, 0xff, 0x7f]);
}

#[test]
fn variable_length_encoding_appends_to_existing_bytes() {
    let mut writer = BytesMut::new();
    writer.extend_from_slice(&[0xaa]);
    write_variable_length_encoding(321, &mut writer);
    assert_eq!(writer.to_vec(), vec![0xaa, 0xc1, 0x02]);
}

#[test]
fn decoder_round_trips_every_encodable_value() {
    for value in [0usize, 1, 127, 128, 300, 16_383, 16_384, 1_000_000, 2_097_151, 2_097_152, 100_000_000, 268_435_455] {
        let encoded = encode(value);
        assert_eq!(decode(&encoded), (DecodeStep::Done(value), encoded.len()));
    }
}

#[test]
fn decoder_stops_at_the_end_of_the_encoding() {
    let mut bytes = encode(200);
    bytes.extend_from_slice(&[0xff, 0xff]);
    assert_eq!(decode(&bytes), (DecodeStep::Done(200), 2));
}

#[test]
fn decoder_reads_four_byte_lengths_and_never_asks_for_a_fifth_byte() {
    assert_eq!(decode(&encode(2_097_152)), (DecodeStep::Done(2_097_152), 4));
    assert_eq!(decode(&encode(268_435_455)), (DecodeStep::Done(268_435_455), 4));
    assert_eq!(decode(&[0x80, 0x80, 0x80]), (DecodeStep::NeedMore, 3));
    assert_eq!(decode(&[0x80, 0x80, 0x80, 0x80]), (DecodeStep::Malformed, 4));
    assert_eq!(decode(&[0x80, 0x80, 0x80, 0x80, 0x01]), (DecodeStep::Malformed, 4));
    assert_eq!(decode(&[0xff, 0xff, 0xff, 0xff, 0x7f]), (DecodeStep::Malformed, 4));
}

#[test]
fn decoder_step_by_step() {
    let mut decoder = VariableLengthDecoder::new();
    assert_eq!(decoder.step(0x80 | 5), DecodeStep::NeedMore);
    assert_eq!(decoder.step(2), DecodeStep::Done(5 + 2 * 128));
}

#[test]
fn write_str_prefixes_the_byte_length() {
    let mut writer = BytesMut::new();
    write_str("MQTToT", &mut writer);
    assert_eq!(writer.to_vec(), vec![0, 6, b'M', b'Q', b'T', b'T', b'o', b'T']);
}

#[test]
fn write_str_counts_utf8_bytes_not_chars() {
    let mut writer = BytesMut::new();
    write_str("é", &mut writer);
    assert_eq!(writer.to_vec(), vec![0, 2, 0xc3, 0xa9]);
}

#[test]
fn write_str_of_empty_string() {
    let mut writer = BytesMut::new();
    write_str("", &mut writer);
    assert_eq!(writer.to_vec(), vec![0, 0]);
}

#[test]
fn write_str_length_wraps_modulo_65536() {
    let long = "a".repeat(65_537);
    let mut writer = BytesMut::new();
    write_str(&long, &mut writer);
    let bytes = writer.to_vec();
    assert_eq!(bytes.len(), 65_539);
    assert_eq!(&bytes[..2], &[0, 1]);
}

#[test]
fn string_encoding_round_trips() {
    for s in ["", "a/b", "MQTToT", "héllo wörld", "日本"] {
        let mut writer = BytesMut::new();
        write_str(s, &mut writer);
        let bytes = writer.to_vec();
        let len = bytes[0] as usize * 256 + bytes[1] as usize;
        assert_eq!(len, s.len());
        assert_eq!(std::str::from_utf8(&bytes[2..]).unwrap(), s);
    }
}

#[test]
fn only_the_last_encoded_byte_lacks_the_continuation_bit() {
    for value in [0usize, 5, 127, 128, 9_999, 16_384, 2_097_152, 268_435_455] {
        let bytes = encode(value);
        let (last, rest) = bytes.split_last().unwrap();
        assert!(*last < 128);
        assert!(rest.iter().all(|b| *b >= 128));
    }
}

#[test]
fn public_buffer_starts_empty_and_counts_its_bytes() {
    let mut buffer = new_buffer();
    assert_eq!(buffer_byte_count(&buffer), 0);
    write_variable_length_encoding(300, &mut buffer);
    write_str("ab", &mut buffer);
    assert_eq!(buffer_byte_count(&buffer), 6);
    assert_eq!(buffer.to_vec(), vec![0xac, 0x02, 0, 2, b'a', b'b']);
}
