use bytes::{Bytes, BytesMut};
use ig_rs::buffers::byte_count;
use ig_rs::igmqttclient::bytes_mut_channel::BytesMutChannel;
use ig_rs::igmqttclient::bytes_mut_write_transport::BytesMutWriteTransport;
use ig_rs::igmqttclient::packets::connack_packet::ConnackPacket;
use ig_rs::igmqttclient::packets::connect_packet::ConnectPacket;
use ig_rs::igmqttclient::packets::pingreq_packet::PingReqPacket;
use ig_rs::igmqttclient::packets::pingres_packet::PingResPacket;
use ig_rs::igmqttclient::packets::puback_packet::PubAckPacket;
use ig_rs::igmqttclient::packets::publish_packet::PublishPacket;
use ig_rs::igmqttclient::packets::ControlPacket;
use ig_rs::igmqttclient::utils::{write_variable_length_encoding, DecodeStep, VariableLengthDecoder};
use ig_rs::igmqttclient::{check_connack, decode_packet, IGMQTTClientErr, IncomingPacket};

#[test]
fn pingreq_encoding() {
    let packet = PingReqPacket::new();
    assert_eq!(packet.packet_type(), 12);
    assert_eq!(packet.flags(), 0);
    assert_eq!(packet.as_bytes().to_vec(), vec![0xc0, 0x00]);
}

#[test]
fn pingres_encoding() {
    let packet = PingResPacket::new();
    assert_eq!(packet.packet_type(), 13);
    assert_eq!(packet.as_bytes().to_vec(), vec![0xd0, 0x00]);
}

#[test]
fn connack_encoding() {
    let packet = ConnackPacket { session_present: true, return_code: 0 };
    assert_eq!(packet.payload().to_vec(), vec![1, 0]);
    assert_eq!(packet.as_bytes().to_vec(), vec![0x20, 0x02, 0x01, 0x00]);
    let packet = ConnackPacket { session_present: false, return_code: 5 };
    assert_eq!(packet.as_bytes().to_vec(), vec![0x20, 0x02, 0x00, 0x05]);
}

#[test]
fn connack_from_payload_reads_low_bit_and_return_code() {
    let packet = ConnackPacket::from_payload(Bytes::from(vec![0x01, 0x05]));
    assert_eq!(packet, ConnackPacket { session_present: true, return_code: 5 });
    let packet = ConnackPacket::from_payload(Bytes::from(vec![0x02, 0x00]));
    assert_eq!(packet, ConnackPacket { session_present: false, return_code: 0 });
    let packet = ConnackPacket::from_payload(Bytes::from(vec![0xff, 0x01]));
    assert_eq!(packet, ConnackPacket { session_present: true, return_code: 1 });
}

#[test]
fn connack_written_then_read_back_is_the_same_packet() {
    for session_present in [false, true] {
        for return_code in [0u8, 1, 5, 255] {
            let packet = ConnackPacket { session_present, return_code };
            let bytes = packet.as_bytes().to_vec();
            let mut decoder = VariableLengthDecoder::new();
            assert_eq!(decoder.step(bytes[1]), DecodeStep::Done(2));
            let read = decode_packet(bytes[0], Bytes::from(bytes[2..].to_vec()));
            match read {
                Ok(IncomingPacket::Connack(p)) => assert_eq!(p, packet),
                other => panic!("unexpected {:?}", other),
            }
        }
    }
}

#[test]
fn puback_encoding() {
    let packet = PubAckPacket::new(0x1234);
    assert_eq!(packet.packet_type(), 4);
    assert_eq!(packet.as_bytes().to_vec(), vec![0x40, 0x02, 0x12, 0x34]);
}

#[test]
fn publish_encoding_at_qos_1() {
    let packet = PublishPacket::new(true, 1, true, "a/b", Some(10), Bytes::from_static(b"hi"));
    assert_eq!(packet.flags(), 0b1011);
    assert_eq!(
        packet.as_bytes().to_vec(),
        vec![0x3b, 9, 0, 3, b'a', b'/', b'b', 0, 10, b'h', b'i']
    );
}

#[test]
fn publish_encoding_at_qos_0_has_no_identifier() {
    let packet = PublishPacket::new(false, 0, false, "t", Some(7), Bytes::from_static(b"x"));
    assert_eq!(packet.flags(), 0);
    assert_eq!(packet.payload().to_vec(), vec![0, 1, b't', b'x']);
}

#[test]
fn publish_flags_at_qos_2() {
    let packet = PublishPacket::new(false, 2, false, "t", Some(1), Bytes::new());
    assert_eq!(packet.flags(), 0b0100);
    assert_eq!(packet.payload().to_vec(), vec![0, 1, b't', 0, 1]);
}

#[test]
fn publish_flags_give_back_their_fields() {
    for dup in [false, true] {
        for qos in 0u8..3 {
            for retain in [false, true] {
                let packet = PublishPacket::new(dup, qos, retain, "t", Some(1), Bytes::new());
                let flags = packet.flags();
                assert_eq!((flags >> 3) & 1 == 1, dup);
                assert_eq!((flags >> 1) & 3, qos);
                assert_eq!(flags & 1 == 1, retain);
            }
        }
    }
}

#[test]
fn connect_packet_encoding() {
    let packet = ConnectPacket::from_compressed_payload(vec![1, 2, 3]);
    assert_eq!(packet.packet_type(), 1);
    assert_eq!(
        packet.as_bytes().to_vec(),
        vec![
            0x10, 15, 0, 6, b'M', b'Q', b'T', b'T', b'o', b'T', 3, 194, 0, 20, 1, 2, 3
        ]
    );
}

#[test]
fn connect_packet_compresses_its_payload() {
    let serialized = b"hello hello hello hello".to_vec();
    let packet = ConnectPacket::new(&serialized);
    let payload = packet.payload().to_vec();
    let compressed = &payload[12..];
    assert_ne!(compressed, &serialized[..]);
    assert_eq!(compressed[0], 0x78);
    assert_eq!(
        miniz_oxide::inflate::decompress_to_vec_zlib(compressed).unwrap(),
        serialized
    );
}

#[test]
fn long_payload_takes_a_two_byte_remaining_length() {
    let packet = ConnectPacket::from_compressed_payload(vec![0; 200]);
    let bytes = packet.as_bytes().to_vec();
    let mut expected = BytesMut::new();
    write_variable_length_encoding(212, &mut expected);
    assert_eq!(&bytes[1..3], &expected[..]);
    assert_eq!(bytes.len(), 3 + 212);
}

#[test]
fn decode_packet_reads_pingres() {
    assert!(matches!(
        decode_packet(0xd0, Bytes::new()),
        Ok(IncomingPacket::PingRes(_))
    ));
}

#[test]
fn decode_packet_refuses_unknown_types() {
    assert!(matches!(
        decode_packet(0x30, Bytes::from_static(b"abc")),
        Err(IGMQTTClientErr::UnknownPacketType(3))
    ));
    assert!(matches!(
        decode_packet(0xc0, Bytes::new()),
        Err(IGMQTTClientErr::UnknownPacketType(12))
    ));
}

#[test]
fn check_connack_accepts_only_return_code_zero() {
    assert!(check_connack(&ConnackPacket { session_present: false, return_code: 0 }).is_ok());
    assert!(matches!(
        check_connack(&ConnackPacket { session_present: true, return_code: 5 }),
        Err(IGMQTTClientErr::ConnackErr(5))
    ));
}

#[test]
fn write_transport_collects_all_writes() {
    let mut transport = BytesMutWriteTransport::new();
    assert_eq!(transport.write(&[1, 2]).unwrap(), 2);
    assert_eq!(transport.write(&[]).unwrap(), 0);
    assert_eq!(transport.write(&[3]).unwrap(), 1);
    assert!(transport.flush().is_ok());
    assert_eq!(transport.into_bytes().to_vec(), vec![1, 2, 3]);
}

#[test]
fn channel_collects_all_writes() {
    let mut channel = BytesMutChannel::new();
    assert_eq!(channel.write(b"ab").unwrap(), 2);
    assert_eq!(channel.write(b"c").unwrap(), 1);
    assert!(channel.flush().is_ok());
    assert_eq!(channel.into_bytes().to_vec(), b"abc".to_vec());
}

#[test]
fn publish_flags_need_only_a_valid_qos() {
    let packet = PublishPacket::new(false, 1, false, "t", None, Bytes::new());
    assert_eq!(packet.flags(), 0x02);
}

#[test]
fn publish_payload_omits_the_identifier_outside_qos_1_and_2() {
    let packet = PublishPacket::new(false, 3, false, "t", Some(9), Bytes::from_static(b"x"));
    assert_eq!(packet.payload().to_vec(), vec![0, 1, b't', b'x']);
}

#[test]
fn framing_of_a_payload_with_a_four_byte_length() {
    let packet = ConnectPacket::from_compressed_payload(vec![7; 2_097_152]);
    let bytes = packet.as_bytes().to_vec();
    assert_eq!(bytes[0] >> 4, 1);
    assert_eq!(bytes[0] & 15, 0);
    let mut decoder = VariableLengthDecoder::new();
    let mut outcome = DecodeStep::NeedMore;
    let mut consumed = 1;
    while outcome == DecodeStep::NeedMore {
        outcome = decoder.step(bytes[consumed]);
        consumed += 1;
    }
    assert_eq!(outcome, DecodeStep::Done(2_097_152 + 12));
    assert_eq!(consumed, 5);
    assert_eq!(bytes.len(), 5 + 2_097_152 + 12);
}

#[test]
fn byte_count_counts_the_bytes() {
    assert_eq!(byte_count(&Bytes::new()), 0);
    assert_eq!(byte_count(&Bytes::from(vec![1, 2, 3])), 3);
}

#[test]
fn connect_payload_length_is_that_of_the_compressed_payload() {
    assert_eq!(ConnectPacket::from_compressed_payload(vec![1, 2, 3]).connect_payload_length(), 3);
    let packet = ConnectPacket::new(b"hello");
    assert_eq!(packet.connect_payload_length(), packet.payload().len() - 12);
}
