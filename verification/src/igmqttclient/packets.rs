//! MQTT 3.1.1 control packets.

pub mod connack_packet;
pub mod connect_packet;
pub mod pingreq_packet;
pub mod pingres_packet;
pub mod puback_packet;
pub mod publish_packet;

use crate::buffers::{bytes_contents, bytes_len, freeze, new_bytes_mut, put_bytes, put_u8};
use crate::igmqttclient::utils::{
    decode_from,
    law_variable_length_round_trip,
    lemma_encoding_at_most_four_bytes,
    DecodeStep,
    variable_length_encoding,
    write_variable_length_encoding,
    MAX_VARIABLE_LENGTH,
};
use vstd::prelude::*;

verus! {

/// The first byte of a fixed header: the packet type in the high four bits,
/// the flags in the low four (a type above 15 loses its high bits to the
/// `u8` shift).
pub open spec fn fixed_header_byte(packet_type: u8, flags: u8) -> u8 {
    ((packet_type << 4u8) | flags) as u8
}

/// The MQTT 3.1.1 byte encoding of a control packet: the fixed header byte,
/// the remaining length (the payload's length, variable length encoded) and
/// the payload.
pub open spec fn control_packet_bytes(packet_type: u8, flags: u8, payload: Seq<u8>) -> Seq<u8> {
    seq![fixed_header_byte(packet_type, flags)] + variable_length_encoding(payload.len()) + payload
}

/// MQTT 3.1.1 Spec Control Packet interface
pub trait ControlPacket {
    /// The packet type that `packet_type` returns.
    spec fn spec_packet_type(&self) -> u8;

    /// The flags that `flags` returns.
    spec fn spec_flags(&self) -> u8;

    /// The bytes that `payload` returns.
    spec fn spec_payload(&self) -> Seq<u8>;

    /// The packets whose flags can be computed; on any other packet
    /// computing them is refused by `requires`.
    spec fn can_compute_flags(&self) -> bool;

    /// The packets whose payload can be computed; on any other packet
    /// computing it is refused by `requires`.
    spec fn can_compute_payload(&self) -> bool;

    /// The control packet's type in the fixed header
    fn packet_type(&self) -> (t: u8)
        ensures
            t == self.spec_packet_type(),
    ;

    /// The control packet's flags in the fixed header
    fn flags(&self) -> (f: u8)
        requires
            self.can_compute_flags(),
        ensures
            f == self.spec_flags(),
    ;

    /// The control packet's payload which may consist of: a variable header and/or custom payload
    fn payload(&self) -> (p: bytes::Bytes)
        requires
            self.can_compute_payload(),
        ensures
            bytes_contents(p) == self.spec_payload(),
    ;

    /// The control packet's MQTT 3.1.1 Spec Byte encoding. A payload longer
    /// than the remaining length can carry is refused by `requires`.
    fn as_bytes(&self) -> (b: bytes::Bytes)
        requires
            self.can_compute_flags(),
            self.can_compute_payload(),
            self.spec_payload().len() <= MAX_VARIABLE_LENGTH,
        ensures
            bytes_contents(b) == control_packet_bytes(
                self.spec_packet_type(),
                self.spec_flags(),
                self.spec_payload(),
            ),
    {
        let mut writer = new_bytes_mut();
        let payload = self.payload();
        let packet_type = self.packet_type();
        let flags = self.flags();
        put_u8(&mut writer, (packet_type << 4u8) | flags);
        let len = bytes_len(&payload);
        write_variable_length_encoding(len, &mut writer);
        proof {
            lemma_encoding_at_most_four_bytes(len as nat);
        }
        put_bytes(&mut writer, payload);
        let b = freeze(writer);
        assert(bytes_contents(b) =~= control_packet_bytes(
            self.spec_packet_type(),
            self.spec_flags(),
            self.spec_payload(),
        ));
        b
    }
}

/// What a reader takes apart of an encoded control packet is what was put
/// in: the high four bits of the first byte are the packet type, the low
/// four the flags, the remaining length decodes to the payload's length and
/// the payload follows it. This holds for every type and flags that fit in
/// four bits and every payload the remaining length can carry.
pub proof fn law_control_packet_framing(packet_type: u8, flags: u8, payload: Seq<u8>)
    requires
        packet_type < 16,
        flags < 16,
        payload.len() <= MAX_VARIABLE_LENGTH,
    ensures
        control_packet_bytes(packet_type, flags, payload)[0] >> 4u8 == packet_type,
        control_packet_bytes(packet_type, flags, payload)[0] & 15u8 == flags,
        decode_from(1, 0, control_packet_bytes(packet_type, flags, payload).skip(1))
            == DecodeStep::Done(payload.len() as usize),
        control_packet_bytes(packet_type, flags, payload).skip(
            1 + variable_length_encoding(payload.len()).len() as int,
        ) == payload,
{
    let bytes = control_packet_bytes(packet_type, flags, payload);
    let enc = variable_length_encoding(payload.len());
    assert(bytes[0] == fixed_header_byte(packet_type, flags));
    assert(packet_type < 16 && flags < 16 ==> ((packet_type << 4u8) | flags) as u8 >> 4u8
        == packet_type) by (bit_vector);
    assert(packet_type < 16 && flags < 16 ==> ((packet_type << 4u8) | flags) as u8 & 15u8 == flags)
        by (bit_vector);
    assert(bytes.skip(1) =~= enc + payload);
    assert(bytes.skip(1 + enc.len() as int) =~= payload);
    law_variable_length_round_trip(payload.len(), payload);
}

} // verus!
