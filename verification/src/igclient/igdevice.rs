//! The Android device the client presents itself as.

use vstd::prelude::*;

verus! {

/// What `md5::compute` returns for the given bytes: their MD5 digest.
pub uninterp spec fn md5_digest(data: Seq<u8>) -> Seq<u8>;

/// `md5::compute`: the MD5 digest of `data`. The digest is a function of
/// the data alone, named `md5_digest`; its length, 16, is that of the
/// array the crate returns.
#[verifier::external_body]
fn md5_compute(data: &[u8]) -> (digest: [u8; 16])
    ensures
        digest@ == md5_digest(data@),
{
    md5::compute(data).0
}

/// `String::push`: appends one character.
#[verifier::external_body]
pub(crate) fn push_char(s: &mut String, c: char)
    ensures
        final(s)@ == old(s)@.push(c),
{
    s.push(c)
}

/// The lower-case hexadecimal digit of a value below 16.
pub open spec fn hex_digit(n: u8) -> char {
    if n < 10 {
        (n + 48) as char
    } else {
        (n - 10 + 97) as char
    }
}

/// Whether a character is a lower-case hexadecimal digit.
pub open spec fn is_lower_hex_digit(c: char) -> bool {
    ('0' <= c && c <= '9') || ('a' <= c && c <= 'f')
}

/// The value of a lower-case hexadecimal digit read by its character code:
/// `0`-`9` are 0 to 9 and `a`-`f` are 10 to 15.
pub open spec fn hex_digit_value(c: char) -> int {
    if '0' <= c && c <= '9' {
        c as int - 48
    } else {
        c as int - 87
    }
}

/// Hexadecimal of bytes, read back two digits at a time, gives the bytes:
/// the digit at `2i` is the high nibble of byte `i`, the digit at `2i + 1`
/// the low nibble, each written as the character `0`-`9` or `a`-`f` of that
/// value.
pub proof fn law_hex_lower_round_trip(bytes: Seq<u8>)
    ensures
        hex_lower(bytes).len() == 2 * bytes.len(),
        forall|i: int|
            0 <= i < bytes.len() ==> {
                &&& is_lower_hex_digit(hex_lower(bytes)[2 * i])
                &&& is_lower_hex_digit(hex_lower(bytes)[2 * i + 1])
                &&& hex_digit_value(hex_lower(bytes)[2 * i]) * 16 + hex_digit_value(
                    hex_lower(bytes)[2 * i + 1],
                ) == #[trigger] bytes[i] as int
            },
    decreases bytes.len(),
{
    lemma_hex_lower_form(bytes);
    if bytes.len() > 0 {
        let prev = bytes.drop_last();
        law_hex_lower_round_trip(prev);
        let h = hex_lower(bytes);
        let hp = hex_lower(prev);
        let b = bytes.last();
        lemma_hex_digit_value(b / 16);
        lemma_hex_digit_value(b % 16);
        assert forall|i: int| 0 <= i < bytes.len() implies {
            &&& is_lower_hex_digit(h[2 * i])
            &&& is_lower_hex_digit(h[2 * i + 1])
            &&& hex_digit_value(h[2 * i]) * 16 + hex_digit_value(h[2 * i + 1]) == #[trigger] bytes[i] as int
        } by {
            if i < prev.len() {
                assert(h[2 * i] == hp[2 * i]);
                assert(h[2 * i + 1] == hp[2 * i + 1]);
                assert(bytes[i] == prev[i]);
            } else {
                assert(h[2 * i] == hex_digit(b / 16));
                assert(h[2 * i + 1] == hex_digit(b % 16));
            }
        }
    }
}

proof fn lemma_hex_digit_value(n: u8)
    requires
        n < 16,
    ensures
        is_lower_hex_digit(hex_digit(n)),
        hex_digit_value(hex_digit(n)) == n as int,
{
}

/// Hexadecimal of bytes takes two digits per byte, each a lower-case
/// hexadecimal digit.
pub proof fn lemma_hex_lower_form(bytes: Seq<u8>)
    ensures
        hex_lower(bytes).len() == 2 * bytes.len(),
        forall|i: int| 0 <= i < hex_lower(bytes).len() ==> is_lower_hex_digit(#[trigger] hex_lower(bytes)[i]),
    decreases bytes.len(),
{
    if bytes.len() > 0 {
        lemma_hex_lower_form(bytes.drop_last());
        let b = bytes.last();
        let prev = hex_lower(bytes.drop_last());
        let h = hex_lower(bytes);
        assert(is_lower_hex_digit(hex_digit(b / 16)));
        assert(is_lower_hex_digit(hex_digit(b % 16)));
        assert forall|i: int| 0 <= i < h.len() implies is_lower_hex_digit(#[trigger] h[i]) by {
            if i < prev.len() {
                assert(h[i] == prev[i]);
            }
        }
    }
}

/// Lower-case hexadecimal of a byte sequence, two digits per byte, as
/// `format!("{:02x}", ..)` writes each byte.
pub open spec fn hex_lower(bytes: Seq<u8>) -> Seq<char>
    decreases bytes.len(),
{
    if bytes.len() == 0 {
        Seq::empty()
    } else {
        hex_lower(bytes.drop_last()) + seq![
            hex_digit(bytes.last() / 16),
            hex_digit(bytes.last() % 16),
        ]
    }
}

/// The Android ID the client derives from a seed: `android-` followed by
/// the first 16 hexadecimal digits of the MD5 digest of the seed's UTF-8
/// bytes.
pub open spec fn android_device_id(seed: Seq<char>) -> Seq<char> {
    "android-"@ + hex_lower(md5_digest(vstd::utf8::encode_utf8(seed)).take(8))
}

/// The user agent of the emulated Instagram 148 app on a Galaxy S7 edge.
pub open spec fn ig_user_agent() -> Seq<char> {
    "Instagram 148.0.0.33.121 Android (23/6.0.1; 640dpi; 1440x2560; samsung; SM-G935F; hero2lte; samsungexynos8890; en_US)"@
}

/// The capabilities header value the app sends.
pub open spec fn ig_capabilities() -> Seq<char> {
    "3brTvw=="@
}

fn hex_digit_char(n: u8) -> (c: char)
    requires
        n < 16,
    ensures
        c == hex_digit(n),
{
    if n < 10 {
        (n + 48) as char
    } else {
        (n - 10 + 97) as char
    }
}

#[derive(Debug, Clone)]
pub struct IGAndroidDevice {
    pub user_agent: String,
    pub device_id: String,
    pub capabilities: String,
}

impl IGAndroidDevice {
    /// The device the client emulates, with an Android ID derived from
    /// `seed`.
    pub fn new(seed: &str) -> (device: Self)
        ensures
            device.user_agent@ == ig_user_agent(),
            device.device_id@ == android_device_id(seed@),
            md5_digest(vstd::utf8::encode_utf8(seed@)).len() == 16,
            device.device_id@.len() == 24,
            device.device_id@.take(8) == "android-"@,
            forall|i: int| 8 <= i < 24 ==> is_lower_hex_digit(#[trigger] device.device_id@[i]),
            device.capabilities@ == ig_capabilities(),
    {
        IGAndroidDevice {
            user_agent: "Instagram 148.0.0.33.121 Android (23/6.0.1; 640dpi; 1440x2560; samsung; SM-G935F; hero2lte; samsungexynos8890; en_US)".to_owned(),
            device_id: IGAndroidDevice::gen_android_device_id(seed),
            capabilities: "3brTvw==".to_owned(),
        }
    }

    fn gen_android_device_id(seed: &str) -> (id: String)
        ensures
            id@ == android_device_id(seed@),
            md5_digest(vstd::utf8::encode_utf8(seed@)).len() == 16,
            id@.len() == 24,
            id@.take(8) == "android-"@,
            forall|i: int| 8 <= i < 24 ==> is_lower_hex_digit(#[trigger] id@[i]),
    {
        let digest = md5_compute(seed.as_bytes());
        let mut id: String = "android-".to_owned();
        let mut i: usize = 0;
        while i < 8
            invariant
                i <= 8,
                digest@ == md5_digest(vstd::utf8::encode_utf8(seed@)),
                id@ == "android-"@ + hex_lower(digest@.take(i as int)),
            decreases 8 - i,
        {
            let byte = digest[i];
            push_char(&mut id, hex_digit_char(byte / 16));
            push_char(&mut id, hex_digit_char(byte % 16));
            proof {
                let t = digest@.take(i + 1);
                assert(t.drop_last() =~= digest@.take(i as int));
                assert(t.last() == byte);
            }
            i = i + 1;
        }
        proof {
            reveal_strlit("android-");
            let hex = hex_lower(digest@.take(8));
            lemma_hex_lower_form(digest@.take(8));
            assert(id@.take(8) =~= "android-"@);
            assert forall|k: int| 8 <= k < 24 implies is_lower_hex_digit(#[trigger] id@[k]) by {
                assert(id@[k] == hex[k - 8]);
            }
        }
        id
    }
}

} // verus!
