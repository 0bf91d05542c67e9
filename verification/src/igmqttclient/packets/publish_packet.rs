//! The PUBLISH packet.

use crate::buffers::{
    bytes_clone,
    bytes_contents,
    bytes_mut_contents,
    freeze,
    new_bytes_mut,
    put_bytes,
    put_u16,
    u16_be_bytes,
};
use crate::igmqttclient::packets::ControlPacket;
use crate::igmqttclient::utils::{string_encoding, write_str};
use vstd::prelude::*;

verus! {

/// MQTT 3.1.1 Spec PUBLISH Packet.
pub struct PublishPacket<'a> {
    dup: bool,
    qos: u8,
    retain: bool,
    topic_name: &'a str,
    packet_identifier: Option<u16>,
    payload: bytes::Bytes,
}

/// The fixed header flags of a PUBLISH packet: DUP in bit 3, the QoS level
/// in bits 2 and 1, RETAIN in bit 0.
pub open spec fn publish_flags(dup: bool, qos: u8, retain: bool) -> u8 {
    ((if dup { 8u8 } else { 0u8 }) | ((qos << 1u8) as u8) | (if retain { 1u8 } else { 0u8 })) as u8
}

impl<'a> PublishPacket<'a> {
    pub const PACKET_TYPE: u8 = 3;

    pub closed spec fn spec_dup(&self) -> bool {
        self.dup
    }

    pub closed spec fn spec_qos(&self) -> u8 {
        self.qos
    }

    pub closed spec fn spec_retain(&self) -> bool {
        self.retain
    }

    pub closed spec fn spec_topic_name(&self) -> Seq<char> {
        self.topic_name@
    }

    pub closed spec fn spec_packet_identifier(&self) -> Option<u16> {
        self.packet_identifier
    }

    pub closed spec fn spec_application_payload(&self) -> Seq<u8> {
        bytes_contents(self.payload)
    }

    /// A PUBLISH packet with the given header fields, topic, identifier and
    /// application message.
    pub fn new(
        dup: bool,
        qos: u8,
        retain: bool,
        topic_name: &'a str,
        packet_identifier: Option<u16>,
        payload: bytes::Bytes,
    ) -> (p: Self)
        ensures
            p.spec_dup() == dup,
            p.spec_qos() == qos,
            p.spec_retain() == retain,
            p.spec_topic_name() == topic_name@,
            p.spec_packet_identifier() == packet_identifier,
            p.spec_application_payload() == bytes_contents(payload),
    {
        PublishPacket { dup, qos, retain, topic_name, packet_identifier, payload }
    }
}

impl<'a> ControlPacket for PublishPacket<'a> {
    open spec fn spec_packet_type(&self) -> u8 {
        PublishPacket::PACKET_TYPE
    }

    open spec fn spec_flags(&self) -> u8 {
        publish_flags(self.spec_dup(), self.spec_qos(), self.spec_retain())
    }

    /// The topic name as an MQTT string, then the packet identifier where
    /// the QoS level is 1 or 2, then the application message.
    open spec fn spec_payload(&self) -> Seq<u8> {
        string_encoding(self.spec_topic_name()) + (if self.spec_qos() == 1 || self.spec_qos() == 2 {
            u16_be_bytes(self.spec_packet_identifier().unwrap())
        } else {
            Seq::empty()
        }) + self.spec_application_payload()
    }

    /// The QoS level must be 0, 1 or 2.
    open spec fn can_compute_flags(&self) -> bool {
        self.spec_qos() < 3
    }

    /// QoS 1 and 2 need a packet identifier; the rest bounds the buffer's
    /// length.
    open spec fn can_compute_payload(&self) -> bool {
        &&& (self.spec_qos() == 1 || self.spec_qos() == 2) ==> self.spec_packet_identifier() is Some
        &&& vstd::utf8::encode_utf8(self.spec_topic_name()).len() + 4
            + self.spec_application_payload().len() <= usize::MAX
    }

    fn packet_type(&self) -> (t: u8) {
        PublishPacket::PACKET_TYPE
    }

    fn flags(&self) -> (f: u8) {
        let dup_bit: u8 = if self.dup {
            8
        } else {
            0
        };
        let retain_bit: u8 = if self.retain {
            1
        } else {
            0
        };
        let flags: u8 = dup_bit | (self.qos << 1u8) | retain_bit;
        flags
    }

    fn payload(&self) -> (p: bytes::Bytes) {
        let mut writer = new_bytes_mut();
        write_str(self.topic_name, &mut writer);
        if self.qos == 1 || self.qos == 2 {
            match self.packet_identifier {
                Some(id) => put_u16(&mut writer, id),
                None => {},
            }
        }
        put_bytes(&mut writer, bytes_clone(&self.payload));
        assert(bytes_mut_contents(writer) =~= self.spec_payload());
        freeze(writer)
    }
}

/// The payload of a PUBLISH packet is laid out field by field: the topic's
/// UTF-8 length (below 65536) as a big-endian pair, the topic's bytes, at
/// QoS 1 and 2 the packet identifier as a big-endian pair, then the
/// application message unchanged.
pub proof fn law_publish_payload_layout(packet: PublishPacket)
    requires
        packet.can_compute_payload(),
        vstd::utf8::encode_utf8(packet.spec_topic_name()).len() < 65536,
    ensures
        ({
            let p = packet.spec_payload();
            let topic = vstd::utf8::encode_utf8(packet.spec_topic_name());
            let l = topic.len() as int;
            let qos = packet.spec_qos();
            &&& p[0] as int * 256 + p[1] as int == l
            &&& p.subrange(2, 2 + l) == topic
            &&& (qos == 1 || qos == 2) ==> {
                &&& p[2 + l] as int * 256 + p[3 + l] as int
                    == packet.spec_packet_identifier().unwrap() as int
                &&& p.skip(4 + l) == packet.spec_application_payload()
            }
            &&& !(qos == 1 || qos == 2) ==> p.skip(2 + l) == packet.spec_application_payload()
        }),
{
    let p = packet.spec_payload();
    let topic = vstd::utf8::encode_utf8(packet.spec_topic_name());
    let l = topic.len() as int;
    let n = topic.len() as u16;
    assert(n as int == l);
    assert(p.subrange(2, 2 + l) =~= topic);
    if packet.spec_qos() == 1 || packet.spec_qos() == 2 {
        let id = packet.spec_packet_identifier().unwrap();
        assert(p[2 + l] == (id / 256) as u8);
        assert(p[3 + l] == (id % 256) as u8);
        assert(p.skip(4 + l) =~= packet.spec_application_payload());
    } else {
        assert(p.skip(2 + l) =~= packet.spec_application_payload());
    }
}

/// The flags of a PUBLISH packet give back its DUP, QoS and RETAIN fields
/// for every QoS level the packet accepts (0, 1 and 2).
pub proof fn law_publish_flags_fields(dup: bool, qos: u8, retain: bool)
    requires
        qos < 3,
    ensures
        (publish_flags(dup, qos, retain) >> 3u8) & 1u8 == (if dup { 1u8 } else { 0u8 }),
        (publish_flags(dup, qos, retain) >> 1u8) & 3u8 == qos,
        publish_flags(dup, qos, retain) & 1u8 == (if retain { 1u8 } else { 0u8 }),
        publish_flags(dup, qos, retain) < 16,
{
    assert(qos < 3 ==> ((((if dup { 8u8 } else { 0u8 }) | ((qos << 1u8) as u8) | (if retain { 1u8 } else { 0u8 })) as u8) >> 3u8) & 1u8 == (if dup { 1u8 } else { 0u8 })) by (bit_vector);
    assert(qos < 3 ==> ((((if dup { 8u8 } else { 0u8 }) | ((qos << 1u8) as u8) | (if retain { 1u8 } else { 0u8 })) as u8) >> 1u8) & 3u8 == qos) by (bit_vector);
    assert(qos < 3 ==> (((if dup { 8u8 } else { 0u8 }) | ((qos << 1u8) as u8) | (if retain { 1u8 } else { 0u8 })) as u8) & 1u8 == (if retain { 1u8 } else { 0u8 })) by (bit_vector);
    assert(qos < 3 ==> (((if dup { 8u8 } else { 0u8 }) | ((qos << 1u8) as u8) | (if retain { 1u8 } else { 0u8 })) as u8) < 16) by (bit_vector);
}

} // verus!
