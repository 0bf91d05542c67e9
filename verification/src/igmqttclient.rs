//! MQTToT client logic: what the client decides about the packets it
//! reads. The connection itself (TLS, the reader and writer tasks) is
//! outside the library.

pub mod bytes_mut_channel;
pub mod bytes_mut_write_transport;
pub mod packets;
pub mod payloads;
pub mod utils;

use crate::buffers::bytes_contents;
use crate::igmqttclient::packets::connack_packet::{
    connack_from_bytes,
    connack_payload_bytes,
    law_connack_payload_round_trip,
    ConnackPacket,
};
use crate::igmqttclient::packets::{control_packet_bytes, law_control_packet_framing};
use crate::igmqttclient::utils::{decode_from, variable_length_encoding, DecodeStep};
use crate::igmqttclient::packets::pingres_packet::PingResPacket;
use vstd::prelude::*;

verus! {

#[verifier::external_type_specification]
#[verifier::external_body]
pub struct ExIoError(std::io::Error);

/// Errors of the MQTToT client.
#[derive(Debug)]
pub enum IGMQTTClientErr {
    /// Reading from or writing to the connection failed.
    IOErr(std::io::Error),
    /// The broker refused the connection with this CONNACK return code.
    ConnackErr(u8),
    /// A packet of a type the client does not read arrived.
    UnknownPacketType(u8),
}

/// A packet read from the broker.
#[derive(Debug)]
pub enum IncomingPacket {
    Connack(ConnackPacket),
    PingRes(PingResPacket),
}

/// The control packet type of a fixed header byte: its high four bits.
pub open spec fn header_packet_type(fixed_header: u8) -> u8 {
    fixed_header >> 4u8
}

/// Reads a packet from its fixed header byte and its payload: a CONNACK
/// from its two payload bytes, a PINGRESP, and any other type is refused
/// as unknown. A CONNACK's payload must be two bytes long.
pub fn decode_packet(fixed_header: u8, payload: bytes::Bytes) -> (r: Result<
    IncomingPacket,
    IGMQTTClientErr,
>)
    requires
        header_packet_type(fixed_header) == ConnackPacket::PACKET_TYPE ==> bytes_contents(
            payload,
        ).len() == 2,
    ensures
        header_packet_type(fixed_header) == ConnackPacket::PACKET_TYPE ==> (r matches Ok(
            IncomingPacket::Connack(p),
        ) && p == connack_from_bytes(bytes_contents(payload))),
        header_packet_type(fixed_header) == PingResPacket::PACKET_TYPE ==> r matches Ok(
            IncomingPacket::PingRes(_),
        ),
        header_packet_type(fixed_header) != ConnackPacket::PACKET_TYPE && header_packet_type(
            fixed_header,
        ) != PingResPacket::PACKET_TYPE ==> (r matches Err(IGMQTTClientErr::UnknownPacketType(t))
            && t == header_packet_type(fixed_header)),
{
    let control_packet_type = fixed_header >> 4u8;
    if control_packet_type == ConnackPacket::PACKET_TYPE {
        Ok(IncomingPacket::Connack(ConnackPacket::from_payload(payload)))
    } else if control_packet_type == PingResPacket::PACKET_TYPE {
        Ok(IncomingPacket::PingRes(PingResPacket::new()))
    } else {
        Err(IGMQTTClientErr::UnknownPacketType(control_packet_type))
    }
}

/// The client's answer to the broker's CONNACK: the connection goes on
/// when the return code is 0 and fails with that code otherwise.
pub fn check_connack(packet: &ConnackPacket) -> (r: Result<(), IGMQTTClientErr>)
    ensures
        packet.return_code == 0 ==> r is Ok,
        packet.return_code != 0 ==> (r matches Err(IGMQTTClientErr::ConnackErr(code)) && code
            == packet.return_code),
{
    if packet.return_code != 0 {
        Err(IGMQTTClientErr::ConnackErr(packet.return_code))
    } else {
        Ok(())
    }
}

/// A CONNACK packet that `as_bytes` writes is read back as itself: its
/// fixed header names the CONNACK type, its remaining length (one byte)
/// decodes to 2, and the two bytes after it are what `decode_packet` turns
/// into the same packet.
pub proof fn law_connack_wire_round_trip(packet: ConnackPacket)
    ensures
        header_packet_type(
            control_packet_bytes(ConnackPacket::PACKET_TYPE, 0, connack_payload_bytes(packet))[0],
        ) == ConnackPacket::PACKET_TYPE,
        decode_from(
            1,
            0,
            control_packet_bytes(ConnackPacket::PACKET_TYPE, 0, connack_payload_bytes(packet)).skip(
                1,
            ),
        ) == DecodeStep::Done(2),
        control_packet_bytes(ConnackPacket::PACKET_TYPE, 0, connack_payload_bytes(packet)).skip(2)
            == connack_payload_bytes(packet),
        connack_from_bytes(
            control_packet_bytes(ConnackPacket::PACKET_TYPE, 0, connack_payload_bytes(packet)).skip(
                2,
            ),
        ) == packet,
{
    law_control_packet_framing(ConnackPacket::PACKET_TYPE, 0, connack_payload_bytes(packet));
    assert(variable_length_encoding(2) == seq![2u8]);
    law_connack_payload_round_trip(packet);
}

} // verus!
