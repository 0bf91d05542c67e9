//! The PINGREQ packet.

use crate::buffers::{bytes_contents, empty_bytes};
use crate::igmqttclient::packets::ControlPacket;
use vstd::prelude::*;

verus! {

/// MQTT 3.1.1 Spec PINGREQ Packet
#[derive(Debug, PartialEq, Eq, Clone, Copy)]
pub struct PingReqPacket {}

impl PingReqPacket {
    pub const PACKET_TYPE: u8 = 12u8;

    pub fn new() -> (p: Self)
        ensures
            p == (PingReqPacket {}),
    {
        Self {  }
    }
}

impl ControlPacket for PingReqPacket {
    open spec fn spec_packet_type(&self) -> u8 {
        PingReqPacket::PACKET_TYPE
    }

    open spec fn spec_flags(&self) -> u8 {
        0
    }

    open spec fn spec_payload(&self) -> Seq<u8> {
        Seq::empty()
    }

    open spec fn can_compute_flags(&self) -> bool {
        true
    }

    open spec fn can_compute_payload(&self) -> bool {
        true
    }

    fn packet_type(&self) -> (t: u8) {
        PingReqPacket::PACKET_TYPE
    }

    fn flags(&self) -> (f: u8) {
        0u8
    }

    fn payload(&self) -> (p: bytes::Bytes) {
        empty_bytes()
    }
}

} // verus!
