//! The CONNACK packet.

use crate::buffers::{bytes_at, bytes_contents, bytes_from_vec};
use crate::igmqttclient::packets::ControlPacket;
use vstd::prelude::*;

verus! {

/// MQTT 3.1.1 Spec CONNACK Packet: the broker's answer to CONNECT.
#[derive(Debug, PartialEq, Eq, Clone, Copy)]
pub struct ConnackPacket {
    pub session_present: bool,
    pub return_code: u8,
}

/// The CONNACK packet that a two byte payload describes: the session
/// present flag is the low bit of the first byte, the return code the
/// second byte.
pub open spec fn connack_from_bytes(payload: Seq<u8>) -> ConnackPacket {
    ConnackPacket { session_present: payload[0] & 1u8 == 1u8, return_code: payload[1] }
}

/// The two byte payload of a CONNACK packet.
pub open spec fn connack_payload_bytes(packet: ConnackPacket) -> Seq<u8> {
    seq![if packet.session_present { 1u8 } else { 0u8 }, packet.return_code]
}

impl ConnackPacket {
    pub const PACKET_TYPE: u8 = 2u8;

    /// Reads a CONNACK packet from its payload, which must be two bytes
    /// long.
    pub fn from_payload(payload: bytes::Bytes) -> (p: Self)
        requires
            bytes_contents(payload).len() == 2,
        ensures
            p == connack_from_bytes(bytes_contents(payload)),
    {
        let first = bytes_at(&payload, 0);
        let second = bytes_at(&payload, 1);
        Self { session_present: (first & 1u8) == 1u8, return_code: second }
    }
}

impl ControlPacket for ConnackPacket {
    open spec fn spec_packet_type(&self) -> u8 {
        ConnackPacket::PACKET_TYPE
    }

    open spec fn spec_flags(&self) -> u8 {
        0
    }

    open spec fn spec_payload(&self) -> Seq<u8> {
        connack_payload_bytes(*self)
    }

    open spec fn can_compute_flags(&self) -> bool {
        true
    }

    open spec fn can_compute_payload(&self) -> bool {
        true
    }

    fn packet_type(&self) -> (t: u8) {
        ConnackPacket::PACKET_TYPE
    }

    fn flags(&self) -> (f: u8) {
        0u8
    }

    fn payload(&self) -> (p: bytes::Bytes) {
        let first: u8 = if self.session_present {
            1
        } else {
            0
        };
        let v = vec![first, self.return_code];
        let p = bytes_from_vec(v);
        assert(bytes_contents(p) =~= connack_payload_bytes(*self));
        p
    }
}

/// The CONNACK payload is two bytes: the session present flag as 1 or 0,
/// then the return code unchanged; reading a two byte payload takes the
/// return code from its second byte and the session present flag from the
/// low bit of its first.
pub proof fn law_connack_fields(packet: ConnackPacket, payload: Seq<u8>)
    requires
        payload.len() == 2,
    ensures
        connack_payload_bytes(packet).len() == 2,
        connack_payload_bytes(packet)[1] == packet.return_code,
        connack_payload_bytes(packet)[0] == 1 <==> packet.session_present,
        connack_payload_bytes(packet)[0] == 0 <==> !packet.session_present,
        connack_from_bytes(payload).return_code == payload[1],
        connack_from_bytes(payload).session_present <==> payload[0] % 2 == 1,
{
    let b = payload[0];
    assert(b & 1u8 == b % 2) by (bit_vector);
}

/// Reading back the payload of a CONNACK packet gives the same packet.
pub proof fn law_connack_payload_round_trip(packet: ConnackPacket)
    ensures
        connack_from_bytes(connack_payload_bytes(packet)) == packet,
{
    assert(1u8 & 1u8 == 1u8 && 0u8 & 1u8 == 0u8) by (bit_vector);
}

} // verus!
