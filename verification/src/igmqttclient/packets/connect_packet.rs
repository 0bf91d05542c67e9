//! The CONNECT packet of MQTToT.

use crate::buffers::{
    bytes_clone,
    bytes_len,
    bytes_contents,
    bytes_from_vec,
    bytes_mut_contents,
    freeze,
    new_bytes_mut,
    put_bytes,
    put_u16,
    put_u8,
    u16_be_bytes,
};
use crate::igmqttclient::packets::ControlPacket;
use crate::igmqttclient::utils::{string_encoding, write_str};
use vstd::prelude::*;

verus! {

/// What `miniz_oxide::deflate::compress_to_vec_zlib` returns for the given
/// input and compression level: the zlib stream of the input.
pub uninterp spec fn zlib_compressed(input: Seq<u8>, level: u8) -> Seq<u8>;

/// `miniz_oxide::deflate::compress_to_vec_zlib`: compresses `input` into a
/// zlib stream. Its result is a function of the input and the level alone,
/// named `zlib_compressed`; nothing more of it is stated.
#[verifier::external_body]
fn compress_to_vec_zlib(input: &[u8], level: u8) -> (out: Vec<u8>)
    ensures
        out@ == zlib_compressed(input@, level),
{
    miniz_oxide::deflate::compress_to_vec_zlib(input, level)
}

/// The protocol name MQTToT announces in CONNECT.
pub open spec fn mqttot_protocol_name() -> Seq<char> {
    "MQTToT"@
}

/// The zlib compression level of the CONNECT payload.
pub const CONNECT_PAYLOAD_COMPRESSION_LEVEL: u8 = 9;

/// MQTT 3.1.1 Spec CONNECT packet
pub struct ConnectPacket<'a> {
    protocol_name: &'a str,
    protocol_level: u8,
    connect_flags: u8,
    keep_alive: u16,
    connect_payload: bytes::Bytes,
}

impl<'a> ConnectPacket<'a> {
    pub const PACKET_TYPE: u8 = 1u8;

    pub closed spec fn spec_protocol_name(&self) -> Seq<char> {
        self.protocol_name@
    }

    pub closed spec fn spec_protocol_level(&self) -> u8 {
        self.protocol_level
    }

    pub closed spec fn spec_connect_flags(&self) -> u8 {
        self.connect_flags
    }

    pub closed spec fn spec_keep_alive(&self) -> u16 {
        self.keep_alive
    }

    pub closed spec fn spec_connect_payload(&self) -> Seq<u8> {
        bytes_contents(self.connect_payload)
    }

    /// The number of bytes of the (compressed) connect payload, for callers
    /// that must bound the packet's length before encoding it.
    pub fn connect_payload_length(&self) -> (n: usize)
        ensures
            n == self.spec_connect_payload().len(),
    {
        bytes_len(&self.connect_payload)
    }

    /// The CONNECT packet MQTToT sends: protocol "MQTToT" at level 3,
    /// connect flags 0b11000010 (user name and password), a keep alive of
    /// 20 seconds and the given (already compressed) payload.
    pub fn from_compressed_payload(compressed_payload: Vec<u8>) -> (p: Self)
        ensures
            p.spec_protocol_name() == mqttot_protocol_name(),
            vstd::utf8::encode_utf8(p.spec_protocol_name()).len() == 6,
            p.spec_protocol_level() == 3,
            p.spec_connect_flags() == 194,
            p.spec_keep_alive() == 20,
            p.spec_connect_payload() == compressed_payload@,
    {
        proof {
            reveal_strlit("MQTToT");
            let name = mqttot_protocol_name();
            assert(vstd::utf8::is_ascii_chars(name));
            vstd::utf8::is_ascii_chars_encode_utf8(name);
        }
        ConnectPacket {
            protocol_name: "MQTToT",
            protocol_level: 3,
            connect_flags: 194,
            keep_alive: 20,
            connect_payload: bytes_from_vec(compressed_payload),
        }
    }

    /// The CONNECT packet for a thrift (compact protocol) serialized
    /// connect payload: MQTToT zips the payload before sending it.
    pub fn new(serialized_payload: &[u8]) -> (p: Self)
        ensures
            p.spec_protocol_name() == mqttot_protocol_name(),
            vstd::utf8::encode_utf8(p.spec_protocol_name()).len() == 6,
            p.spec_protocol_level() == 3,
            p.spec_connect_flags() == 194,
            p.spec_keep_alive() == 20,
            p.spec_connect_payload() == zlib_compressed(
                serialized_payload@,
                CONNECT_PAYLOAD_COMPRESSION_LEVEL,
            ),
    {
        let compressed = compress_to_vec_zlib(serialized_payload, CONNECT_PAYLOAD_COMPRESSION_LEVEL);
        Self::from_compressed_payload(compressed)
    }
}

impl<'a> ControlPacket for ConnectPacket<'a> {
    open spec fn spec_packet_type(&self) -> u8 {
        ConnectPacket::PACKET_TYPE
    }

    open spec fn spec_flags(&self) -> u8 {
        0
    }

    /// The variable header (protocol name, level, connect flags, keep
    /// alive) followed by the payload.
    open spec fn spec_payload(&self) -> Seq<u8> {
        string_encoding(self.spec_protocol_name()) + seq![
            self.spec_protocol_level(),
            self.spec_connect_flags(),
        ] + u16_be_bytes(self.spec_keep_alive()) + self.spec_connect_payload()
    }

    open spec fn can_compute_flags(&self) -> bool {
        true
    }

    open spec fn can_compute_payload(&self) -> bool {
        vstd::utf8::encode_utf8(self.spec_protocol_name()).len() + 6
            + self.spec_connect_payload().len() <= usize::MAX
    }

    fn packet_type(&self) -> (t: u8) {
        ConnectPacket::PACKET_TYPE
    }

    fn flags(&self) -> (f: u8) {
        0u8
    }

    fn payload(&self) -> (p: bytes::Bytes) {
        let mut writer = new_bytes_mut();
        write_str(self.protocol_name, &mut writer);
        put_u8(&mut writer, self.protocol_level);
        put_u8(&mut writer, self.connect_flags);
        put_u16(&mut writer, self.keep_alive);
        put_bytes(&mut writer, bytes_clone(&self.connect_payload));
        assert(bytes_mut_contents(writer) =~= self.spec_payload());
        freeze(writer)
    }
}

} // verus!
