//! MQTT 3.1.1 encodings shared by the control packets: UTF-8 strings with a
//! two byte length prefix, and the variable length "remaining length"
//! integer with its decoder.

use crate::buffers::{bytes_mut_contents, put_slice, put_u16, put_u8, u16_be_bytes};
use vstd::prelude::*;

verus! {

/// The largest value the variable length encoding can carry (four bytes).
pub const MAX_VARIABLE_LENGTH: usize = 268_435_455;

/// MQTT 3.1.1 variable length encoding of `value`: seven bits per byte,
/// least significant group first, the high bit set on every byte but the
/// last.
pub open spec fn variable_length_encoding(value: nat) -> Seq<u8>
    decreases value,
{
    if value < 128 {
        seq![value as u8]
    } else {
        seq![(value % 128 + 128) as u8] + variable_length_encoding(value / 128)
    }
}

/// The encoding of a value below `128^k` takes at most `k` bytes.
pub proof fn lemma_encoding_len_bound(value: nat, k: nat)
    requires
        k >= 1,
        value < pow128(k),
    ensures
        1 <= variable_length_encoding(value).len() <= k,
    decreases value,
{
    if value >= 128 {
        assert(k >= 2) by {
            if k == 1 {
                assert(pow128(1) == 128 * pow128(0));
            }
        }
        assert(pow128(k) == 128 * pow128((k - 1) as nat));
        assert(value / 128 < pow128((k - 1) as nat));
        lemma_encoding_len_bound(value / 128, (k - 1) as nat);
    }
}

/// `128^k`.
pub open spec fn pow128(k: nat) -> nat
    decreases k,
{
    if k == 0 {
        1
    } else {
        128 * pow128((k - 1) as nat)
    }
}

/// Every value the encoding can carry takes one to four bytes.
pub proof fn lemma_encoding_at_most_four_bytes(value: nat)
    requires
        value <= MAX_VARIABLE_LENGTH,
    ensures
        1 <= variable_length_encoding(value).len() <= 4,
{
    reveal_with_fuel(pow128, 5);
    lemma_encoding_len_bound(value, 4);
}

proof fn lemma_or_high_bit(b: u8)
    requires
        b < 128,
    ensures
        b | 128u8 == b + 128,
{
    assert(b < 128 ==> b | 128u8 == b + 128) by (bit_vector);
}

/// MQTT 3.1.1 Spec Variable Length byte encoding: appends the encoding of
/// `value` to `writer`. Values above 268,435,455 have no encoding and are
/// refused by `requires`.
pub fn write_variable_length_encoding(value: usize, writer: &mut bytes::BytesMut)
    requires
        value <= MAX_VARIABLE_LENGTH,
        bytes_mut_contents(*old(writer)).len() + 4 <= usize::MAX,
    ensures
        bytes_mut_contents(*final(writer)) == bytes_mut_contents(*old(writer))
            + variable_length_encoding(value as nat),
{
    proof {
        lemma_encoding_at_most_four_bytes(value as nat);
    }
    let ghost start = bytes_mut_contents(*writer);
    let mut x: usize = value;
    loop
        invariant_except_break
            x <= value,
            bytes_mut_contents(*writer) + variable_length_encoding(x as nat) == start
                + variable_length_encoding(value as nat),
            variable_length_encoding(value as nat).len() <= 4,
            start.len() + 4 <= usize::MAX,
        ensures
            bytes_mut_contents(*writer) == start + variable_length_encoding(value as nat),
        decreases x,
    {
        let ghost before = bytes_mut_contents(*writer);
        let mut encoded_byte: u8 = (x % 128) as u8;
        let next: usize = x / 128;
        if next > 0 {
            proof {
                lemma_or_high_bit(encoded_byte);
            }
            encoded_byte = encoded_byte | 128;
        }
        proof {
            assert(variable_length_encoding(x as nat) == seq![encoded_byte]
                + (if next > 0 { variable_length_encoding(next as nat) } else { Seq::empty() }));
            assert((before + variable_length_encoding(x as nat)).len() == (start
                + variable_length_encoding(value as nat)).len());
        }
        put_u8(writer, encoded_byte);
        if next == 0 {
            proof {
                assert(bytes_mut_contents(*writer) == before + variable_length_encoding(x as nat));
            }
            break ;
        }
        proof {
            assert(bytes_mut_contents(*writer) + variable_length_encoding(next as nat) =~= before
                + variable_length_encoding(x as nat));
        }
        x = next;
    }
}


/// MQTT 3.1.1 string encoding: the UTF-8 bytes of `chars`, preceded by
/// their number as a big-endian `u16`. The number is taken modulo 65536,
/// as an `as u16` cast does.
pub open spec fn string_encoding(chars: Seq<char>) -> Seq<u8> {
    let bytes = vstd::utf8::encode_utf8(chars);
    u16_be_bytes(bytes.len() as u16) + bytes
}

/// MQTT 3.1.1 Spec string byte encoding: appends the encoding of `value`
/// to `writer`.
pub fn write_str(value: &str, writer: &mut bytes::BytesMut)
    requires
        bytes_mut_contents(*old(writer)).len() + 2 + vstd::utf8::encode_utf8(value@).len() <= usize::MAX,
    ensures
        bytes_mut_contents(*final(writer)) == bytes_mut_contents(*old(writer)) + string_encoding(
            value@,
        ),
{
    let bytes = value.as_bytes();
    let length: u16 = bytes.len() as u16;
    put_u16(writer, length);
    put_slice(writer, bytes);
    assert(bytes_mut_contents(*writer) =~= bytes_mut_contents(*old(writer)) + string_encoding(
        value@,
    ));
}

/// The length prefix of an MQTT string gives back the byte length of the
/// string, and the bytes after it decode to the string again, for every
/// string shorter than 65536 UTF-8 bytes (longer ones wrap the prefix).
pub proof fn law_string_encoding_round_trip(chars: Seq<char>)
    requires
        vstd::utf8::encode_utf8(chars).len() < 65536,
    ensures
        string_encoding(chars).len() == 2 + vstd::utf8::encode_utf8(chars).len(),
        string_encoding(chars)[0] as int * 256 + string_encoding(chars)[1] as int
            == vstd::utf8::encode_utf8(chars).len(),
        vstd::utf8::decode_utf8(string_encoding(chars).skip(2)) == chars,
{
    let bytes = vstd::utf8::encode_utf8(chars);
    let n = bytes.len() as u16;
    assert(n as int == bytes.len());
    assert(string_encoding(chars).skip(2) =~= bytes);
    vstd::utf8::encode_utf8_decode_utf8(chars);
}

/// Every byte of a variable length encoding but the last has its
/// continuation bit set, and the last has it clear: the encoding delimits
/// itself.
pub proof fn law_variable_length_encoding_continuation_bits(value: nat)
    ensures
        variable_length_encoding(value).len() >= 1,
        forall|i: int|
            0 <= i < variable_length_encoding(value).len() - 1 ==> #[trigger] variable_length_encoding(
                value,
            )[i] >= 128,
        variable_length_encoding(value).last() < 128,
    decreases value,
{
    if value >= 128 {
        let tail = variable_length_encoding(value / 128);
        law_variable_length_encoding_continuation_bits(value / 128);
        let e = variable_length_encoding(value);
        assert forall|i: int| 0 <= i < e.len() - 1 implies #[trigger] e[i] >= 128 by {
            if i > 0 {
                assert(e[i] == tail[i - 1]);
            }
        }
        assert(e.last() == tail.last());
    }
}

/// Where a decoder stands after a byte of the remaining length.
#[derive(Debug, PartialEq, Eq, Clone, Copy)]
pub enum DecodeStep {
    /// The byte had its continuation bit set: more bytes follow.
    NeedMore,
    /// The byte was the last one; the decoded value.
    Done(usize),
    /// The encoding runs past the length the decoder accepts.
    Malformed,
}

/// The weight of the fourth and last byte of a length (`128 * 128 * 128`);
/// that byte must end the length.
pub open spec fn max_multiplier() -> nat {
    2_097_152
}

/// The value after adding the seven low bits of `byte` at weight `m`.
pub open spec fn next_value(m: nat, v: nat, byte: u8) -> nat {
    v + (byte % 128) as nat * m
}

/// What one byte does to a decoder holding multiplier `m` and value `v`: a
/// fourth byte (multiplier `128^3`) that still has its continuation bit
/// set, or any byte after a fourth, makes the length malformed; otherwise
/// its seven low bits are added at weight `m` and the continuation bit
/// decides between more bytes and the result.
pub open spec fn step_outcome(m: nat, v: nat, byte: u8) -> DecodeStep {
    if m > max_multiplier() || (m == max_multiplier() && byte >= 128) {
        DecodeStep::Malformed
    } else if byte >= 128 {
        DecodeStep::NeedMore
    } else {
        DecodeStep::Done(next_value(m, v, byte) as usize)
    }
}

/// The outcome of feeding `bytes` one by one to a decoder holding
/// multiplier `m` and value `v`, stopping at the first byte that ends the
/// decoding; `NeedMore` where the bytes run out first.
pub open spec fn decode_from(m: nat, v: nat, bytes: Seq<u8>) -> DecodeStep
    decreases bytes.len(),
{
    if bytes.len() == 0 {
        DecodeStep::NeedMore
    } else {
        match step_outcome(m, v, bytes[0]) {
            DecodeStep::NeedMore => decode_from(m * 128, next_value(m, v, bytes[0]), bytes.drop_first()),
            outcome => outcome,
        }
    }
}

/// MQTT 3.1.1 Spec Variable Length decoding, one byte at a time.
///
/// Each byte adds its seven low bits at the current multiplier (1, 128,
/// `128^2`, `128^3`), and the multiplier grows by 128. A length takes at
/// most four bytes: a fourth byte with its continuation bit set makes it
/// malformed, so no fifth byte is ever asked for.
pub struct VariableLengthDecoder {
    multiplier: usize,
    value: usize,
}

impl VariableLengthDecoder {
    /// The current weight of the next seven bits.
    pub closed spec fn spec_multiplier(&self) -> nat {
        self.multiplier as nat
    }

    /// The value decoded so far.
    pub closed spec fn spec_value(&self) -> nat {
        self.value as nat
    }

    #[verifier::type_invariant]
    spec fn well_formed(self) -> bool {
        &&& (self.multiplier == 1 || self.multiplier == 128 || self.multiplier == 16384
            || self.multiplier == 2_097_152 || self.multiplier == 268_435_456)
        &&& self.value < self.multiplier
    }

    /// A decoder that has read nothing: multiplier 1, value 0.
    pub fn new() -> (d: Self)
        ensures
            d.spec_multiplier() == 1,
            d.spec_value() == 0,
    {
        VariableLengthDecoder { multiplier: 1, value: 0 }
    }

    /// Feeds the next byte of the encoding. The result is
    /// `step_outcome` of the state and the byte; unless it is `Malformed`,
    /// the state moves on to the grown multiplier and the new value.
    pub fn step(&mut self, byte: u8) -> (r: DecodeStep)
        ensures
            r == step_outcome(old(self).spec_multiplier(), old(self).spec_value(), byte),
            r is Malformed ==> final(self).spec_multiplier() == old(self).spec_multiplier()
                && final(self).spec_value() == old(self).spec_value(),
            !(r is Malformed) ==> final(self).spec_multiplier() == old(self).spec_multiplier() * 128
                && final(self).spec_value() == next_value(
                old(self).spec_multiplier(),
                old(self).spec_value(),
                byte,
            ),
    {
        proof {
            use_type_invariant(&*self);
        }
        let low: usize = (byte & 127) as usize;
        assert(byte & 127 == byte % 128) by (bit_vector);
        assert(byte & 128 != 0 <==> byte >= 128) by (bit_vector);
        if self.multiplier > 2_097_152 || (self.multiplier == 2_097_152 && byte & 128 != 0) {
            return DecodeStep::Malformed;
        }
        let m = self.multiplier;
        assert(low * m <= 127 * 2_097_152) by (nonlinear_arith)
            requires
                low <= 127,
                m <= 2_097_152,
        ;
        let value: usize = self.value + low * m;
        let multiplier: usize = m * 128;
        proof {
            assert(value < multiplier) by (nonlinear_arith)
                requires
                    value == self.value + low * m,
                    self.value < m,
                    low <= 127,
                    multiplier == m * 128,
            ;
        }
        assert(multiplier == 128 || multiplier == 16384 || multiplier == 2_097_152 || multiplier
            == 268_435_456);
        *self = VariableLengthDecoder { multiplier, value };
        assert(byte & 128 != 0 <==> byte >= 128) by (bit_vector);
        if byte & 128 != 0 {
            DecodeStep::NeedMore
        } else {
            DecodeStep::Done(value)
        }
    }
}

/// Decoding an encoding from a state with multiplier `m` (one of 1, 128,
/// `128^2`, `128^3`) and a value below `m` adds `m * v`, as long as the
/// result stays below `128^4`; what follows the encoding is never read.
proof fn lemma_decode_encoding_from(m: nat, acc: nat, v: nat, rest: Seq<u8>)
    requires
        m == 1 || m == 128 || m == 16384 || m == 2_097_152,
        acc < m,
        m * v < 268_435_456,
    ensures
        decode_from(m, acc, variable_length_encoding(v) + rest) == DecodeStep::Done(
            (acc + m * v) as usize,
        ),
    decreases v,
{
    let s = variable_length_encoding(v) + rest;
    if v < 128 {
        assert(s[0] == v as u8);
    } else {
        let b = (v % 128 + 128) as u8;
        let tail = variable_length_encoding(v / 128);
        assert(s[0] == b);
        assert(s.drop_first() =~= tail + rest);
        let nv = next_value(m, acc, b);
        assert(b % 128 == v % 128);
        if m == 2_097_152 {
            assert(m * v >= 268_435_456) by (nonlinear_arith)
                requires
                    m == 2_097_152,
                    v >= 128,
            ;
        } else if m == 1 {
            assert(nv == acc + v % 128);
            lemma_decode_encoding_from(m * 128, nv, v / 128, rest);
        } else if m == 128 {
            assert(nv == acc + (v % 128) * 128);
            assert(16384 * (v / 128) < 268_435_456) by (nonlinear_arith)
                requires
                    128 * v < 268_435_456,
            ;
            lemma_decode_encoding_from(m * 128, nv, v / 128, rest);
        } else {
            assert(nv == acc + (v % 128) * 16384);
            assert(2_097_152 * (v / 128) < 268_435_456) by (nonlinear_arith)
                requires
                    16384 * v < 268_435_456,
            ;
            lemma_decode_encoding_from(m * 128, nv, v / 128, rest);
        }
    }
}

/// Decoding the variable length encoding of a value gives the value back
/// for every value the encoding carries (up to 268,435,455), and never reads
/// past the encoding.
pub proof fn law_variable_length_round_trip(value: nat, rest: Seq<u8>)
    requires
        value <= MAX_VARIABLE_LENGTH,
    ensures
        decode_from(1, 0, variable_length_encoding(value) + rest) == DecodeStep::Done(
            value as usize,
        ),
{
    assert(1 * value == value);
    lemma_decode_encoding_from(1, 0, value, rest);
}

/// A length whose first four bytes all have the continuation bit set is
/// malformed at the fourth byte: the decoder never asks for a fifth.
pub proof fn law_variable_length_at_most_four_bytes(bytes: Seq<u8>)
    requires
        bytes.len() >= 4,
        bytes[0] >= 128,
        bytes[1] >= 128,
        bytes[2] >= 128,
        bytes[3] >= 128,
    ensures
        decode_from(1, 0, bytes) == DecodeStep::Malformed,
        decode_from(1, 0, bytes.take(4)) == DecodeStep::Malformed,
{
    lemma_four_continuation_bytes(bytes);
    lemma_four_continuation_bytes(bytes.take(4));
}

proof fn lemma_four_continuation_bytes(bytes: Seq<u8>)
    requires
        bytes.len() >= 4,
        bytes[0] >= 128,
        bytes[1] >= 128,
        bytes[2] >= 128,
        bytes[3] >= 128,
    ensures
        decode_from(1, 0, bytes) == DecodeStep::Malformed,
{
    let b1 = bytes.drop_first();
    let b2 = b1.drop_first();
    let b3 = b2.drop_first();
    let v1 = next_value(1, 0, bytes[0]);
    let v2 = next_value(128, v1, b1[0]);
    let v3 = next_value(16384, v2, b2[0]);
    assert(b1[0] == bytes[1] && b2[0] == bytes[2] && b3[0] == bytes[3]);
    assert(b3.len() > 0);
    assert(decode_from(2_097_152, v3, b3) == DecodeStep::Malformed);
    assert(decode_from(16384, v2, b2) == decode_from(2_097_152, v3, b3));
    assert(decode_from(128, v1, b1) == decode_from(16384, v2, b2));
    assert(decode_from(1, 0, bytes) == decode_from(128, v1, b1));
}

} // verus!
