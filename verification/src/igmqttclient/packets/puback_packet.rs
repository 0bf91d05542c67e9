//! The PUBACK packet.

use crate::buffers::{bytes_contents, bytes_mut_contents, freeze, new_bytes_mut, put_u16, u16_be_bytes};
use crate::igmqttclient::packets::ControlPacket;
use vstd::prelude::*;

verus! {

/// MQTT 3.1.1 Spec PUBACK Packet: acknowledges a QoS 1 PUBLISH.
pub struct PubAckPacket {
    packet_identifier: u16,
}

impl PubAckPacket {
    pub const PACKET_TYPE: u8 = 4;

    /// The identifier of the PUBLISH packet acknowledged.
    pub closed spec fn spec_packet_identifier(&self) -> u16 {
        self.packet_identifier
    }

    /// A PUBACK for the PUBLISH packet with the given identifier.
    pub fn new(packet_identifier: u16) -> (p: Self)
        ensures
            p.spec_packet_identifier() == packet_identifier,
    {
        PubAckPacket { packet_identifier }
    }
}

impl ControlPacket for PubAckPacket {
    open spec fn spec_packet_type(&self) -> u8 {
        PubAckPacket::PACKET_TYPE
    }

    open spec fn spec_flags(&self) -> u8 {
        0
    }

    open spec fn spec_payload(&self) -> Seq<u8> {
        u16_be_bytes(self.spec_packet_identifier())
    }

    open spec fn can_compute_flags(&self) -> bool {
        true
    }

    open spec fn can_compute_payload(&self) -> bool {
        true
    }

    fn packet_type(&self) -> (t: u8) {
        PubAckPacket::PACKET_TYPE
    }

    fn flags(&self) -> (f: u8) {
        0u8
    }

    fn payload(&self) -> (p: bytes::Bytes) {
        let mut writer = new_bytes_mut();
        put_u16(&mut writer, self.packet_identifier);
        assert(bytes_mut_contents(writer) =~= u16_be_bytes(self.packet_identifier));
        freeze(writer)
    }
}

} // verus!
