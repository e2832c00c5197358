//! Byte encodings and signatures: percent-encoding of URL components, hex and
//! Base64 text, and HMAC-SHA256.
use vstd::prelude::*;
use vstd::string::*;
use vstd::utf8::*;
use crate::text::{push_char, trim, trim_str};

verus! {

/// The bytes that a URL component keeps as they are: ASCII letters and digits
/// and `-`, `.`, `_`, `~`. Every other byte is percent-encoded.
pub open spec fn is_unreserved(b: u8) -> bool {
    ||| 0x30 <= b <= 0x39
    ||| 0x41 <= b <= 0x5a
    ||| 0x61 <= b <= 0x7a
    ||| b == 0x2d
    ||| b == 0x2e
    ||| b == 0x5f
    ||| b == 0x7e
}

/// The upper-case hexadecimal digit for `d < 16`.
pub open spec fn hex_upper_char(d: nat) -> char {
    if d < 10 {
        (48 + d) as char
    } else {
        (55 + d) as char
    }
}

/// The lower-case hexadecimal digit for `d < 16`.
pub open spec fn hex_lower_char(d: nat) -> char {
    if d < 10 {
        (48 + d) as char
    } else {
        (87 + d) as char
    }
}

/// `%XX` with two upper-case hexadecimal digits.
pub open spec fn percent_byte(b: u8) -> Seq<char> {
    seq!['%', hex_upper_char((b / 16) as nat), hex_upper_char((b % 16) as nat)]
}

/// Percent-encoding of a byte string for a URL component.
pub open spec fn percent_encode_bytes(bs: Seq<u8>) -> Seq<char>
    decreases bs.len(),
{
    if bs.len() == 0 {
        seq![]
    } else {
        percent_encode_bytes(bs.drop_last()) + if is_unreserved(bs.last()) {
            seq![bs.last() as char]
        } else {
            percent_byte(bs.last())
        }
    }
}

/// A string made into a URL component: trimmed, then every UTF-8 byte other
/// than an unreserved one percent-encoded.
pub open spec fn url_component(s: Seq<char>) -> Seq<char> {
    percent_encode_bytes(encode_utf8(trim(s)))
}

/// The characters an encoded URL component can hold.
pub open spec fn is_url_safe_char(c: char) -> bool {
    ||| ('0' <= c <= '9')
    ||| ('A' <= c <= 'Z')
    ||| ('a' <= c <= 'z')
    ||| c == '-'
    ||| c == '.'
    ||| c == '_'
    ||| c == '~'
    ||| c == '%'
}

/// Percent-encoding leaves only unreserved characters and `%` escapes, so an
/// encoded component cannot break out of its place in a URL.
pub proof fn lemma_percent_encoding_is_url_safe(bs: Seq<u8>)
    ensures
        forall|i: int| 0 <= i < percent_encode_bytes(bs).len() ==> is_url_safe_char(
            #[trigger] percent_encode_bytes(bs)[i],
        ),
    decreases bs.len(),
{
    if bs.len() > 0 {
        lemma_percent_encoding_is_url_safe(bs.drop_last());
        let prev = percent_encode_bytes(bs.drop_last());
        let b = bs.last();
        let tail = if is_unreserved(b) {
            seq![b as char]
        } else {
            percent_byte(b)
        };
        assert(percent_encode_bytes(bs) == prev + tail);
        assert forall|i: int| 0 <= i < tail.len() implies is_url_safe_char(#[trigger] tail[i]) by {
            if !is_unreserved(b) {
                assert(b / 16 < 16 && b % 16 < 16);
            }
        }
        assert forall|i: int| 0 <= i < percent_encode_bytes(bs).len() implies is_url_safe_char(
            #[trigger] percent_encode_bytes(bs)[i],
        ) by {
            if i < prev.len() {
                assert(percent_encode_bytes(bs)[i] == prev[i]);
            } else {
                assert(percent_encode_bytes(bs)[i] == tail[i - prev.len()]);
            }
        }
    }
}

/// `percent_encoding::percent_encode_byte`: the `%XX` form of one byte, with
/// upper-case hexadecimal digits, as its table shows.
#[verifier::external_body]
fn percent_byte_str(b: u8) -> (r: &'static str)
    ensures
        r@ == percent_byte(b),
{
    percent_encoding::percent_encode_byte(b)
}

/// Trims `value` and percent-encodes it as a URL component.
pub fn encode(value: &str) -> (r: String)
    ensures
        r@ == url_component(value@),
{
    let t = trim_str(value);
    let bytes = t.as_bytes();
    let mut r = String::new();
    let mut i: usize = 0;
    assert(bytes@.take(0) =~= Seq::<u8>::empty());
    while i < bytes.len()
        invariant
            i <= bytes@.len(),
            bytes@ == encode_utf8(trim(value@)),
            r@ == percent_encode_bytes(bytes@.take(i as int)),
        decreases bytes@.len() - i,
    {
        let b = bytes[i];
        assert(bytes@.take(i + 1).drop_last() =~= bytes@.take(i as int));
        if (0x30 <= b && b <= 0x39) || (0x41 <= b && b <= 0x5a) || (0x61 <= b && b <= 0x7a) || b
            == 0x2d || b == 0x2e || b == 0x5f || b == 0x7e {
            push_char(&mut r, b as char);
            assert(r@ =~= percent_encode_bytes(bytes@.take(i + 1)));
        } else {
            r.append(percent_byte_str(b));
            assert(r@ =~= percent_encode_bytes(bytes@.take(i + 1)));
        }
        i = i + 1;
    }
    assert(bytes@.take(bytes@.len() as int) =~= bytes@);
    r
}

/// Lower-case hexadecimal text of a byte string, two digits per byte.
pub open spec fn hex_lower(bs: Seq<u8>) -> Seq<char>
    decreases bs.len(),
{
    if bs.len() == 0 {
        seq![]
    } else {
        hex_lower(bs.drop_last()) + seq![
            hex_lower_char((bs.last() / 16) as nat),
            hex_lower_char((bs.last() % 16) as nat),
        ]
    }
}

/// `hex::encode`: two lower-case hexadecimal digits per byte, in order.
#[verifier::external_body]
fn hex_encode(bs: &[u8]) -> (r: String)
    ensures
        r@ == hex_lower(bs@),
{
    hex::encode(bs)
}

/// The character of the standard Base64 alphabet for `v < 64`.
pub open spec fn b64_char(v: nat) -> char {
    if v < 26 {
        (65 + v) as char
    } else if v < 52 {
        (71 + v) as char
    } else if v < 62 {
        (v - 4) as char
    } else if v == 62 {
        '+'
    } else {
        '/'
    }
}

/// Standard Base64 (RFC 4648 alphabet, `=` padding) of a byte string.
pub open spec fn base64_std(bs: Seq<u8>) -> Seq<char>
    decreases bs.len(),
{
    if bs.len() == 0 {
        seq![]
    } else if bs.len() == 1 {
        seq![b64_char((bs[0] / 4) as nat), b64_char(((bs[0] % 4) * 16) as nat), '=', '=']
    } else if bs.len() == 2 {
        seq![
            b64_char((bs[0] / 4) as nat),
            b64_char(((bs[0] % 4) * 16 + bs[1] / 16) as nat),
            b64_char(((bs[1] % 16) * 4) as nat),
            '=',
        ]
    } else {
        seq![
            b64_char((bs[0] / 4) as nat),
            b64_char(((bs[0] % 4) * 16 + bs[1] / 16) as nat),
            b64_char(((bs[1] % 16) * 4 + bs[2] / 64) as nat),
            b64_char((bs[2] % 64) as nat),
        ] + base64_std(bs.skip(3))
    }
}

/// `base64::engine::general_purpose::STANDARD.encode`: the standard alphabet
/// with `=` padding.
#[verifier::external_body]
fn base64_encode(bs: &[u8]) -> (r: String)
    ensures
        r@ == base64_std(bs@),
{
    base64::Engine::encode(&base64::engine::general_purpose::STANDARD, bs)
}

/// HMAC-SHA256 of `msg` under `key` (RFC 2104 with SHA-256).
pub uninterp spec fn spec_hmac_sha256(key: Seq<u8>, msg: Seq<u8>) -> Seq<u8>;

/// `Hmac::<Sha256>::new_from_slice(key)`, `update(msg)`, `finalize().into_bytes()`.
/// The contract names the tag, a function of key and message alone, and
/// states its length of 32 bytes. Creation never fails: the crate's source
/// accepts keys of any length, so the `expect` cannot fire.
#[verifier::external_body]
fn hmac_sha256(key: &[u8], msg: &[u8]) -> (r: Vec<u8>)
    ensures
        r@ == spec_hmac_sha256(key@, msg@),
        r@.len() == 32,
{
    let mut mac = <hmac::Hmac<sha2::Sha256> as hmac::Mac>::new_from_slice(key).expect(
        "any key length",
    );
    hmac::Mac::update(&mut mac, msg);
    hmac::Mac::finalize(mac).into_bytes().to_vec()
}

/// The HMAC-SHA256 tag of `body` under the UTF-8 bytes of `secret`, as
/// lower-case hexadecimal text.
pub fn hmac_hex(secret: &str, body: &[u8]) -> (r: String)
    ensures
        r@ == hex_lower(spec_hmac_sha256(encode_utf8(secret@), body@)),
{
    let tag = hmac_sha256(secret.as_bytes(), body);
    hex_encode(tag.as_slice())
}

/// The HMAC-SHA256 tag of `body` under the UTF-8 bytes of `secret`, as
/// standard Base64 text.
pub fn hmac_base64(secret: &str, body: &[u8]) -> (r: String)
    ensures
        r@ == base64_std(spec_hmac_sha256(encode_utf8(secret@), body@)),
{
    let tag = hmac_sha256(secret.as_bytes(), body);
    base64_encode(tag.as_slice())
}

} // verus!
