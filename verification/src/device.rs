//! Identity of the Spotify Connect speaker that this program announces over mDNS:
//! its name, its id, the TXT properties and the service record.

use vstd::prelude::*;
use vstd::utf8::{encode_utf8, is_ascii_chars};

verus! {

/// Lower-case hexadecimal digit for a value below 16.
pub open spec fn hex_digit(n: int) -> char {
    seq!['0', '1', '2', '3', '4', '5', '6', '7', '8', '9', 'a', 'b', 'c', 'd', 'e', 'f'][n]
}

/// Lower-case hexadecimal text of `bytes`, two digits per byte, high nibble first.
pub open spec fn hex_lower(bytes: Seq<u8>) -> Seq<char>
    decreases bytes.len(),
{
    if bytes.len() == 0 {
        Seq::<char>::empty()
    } else {
        hex_lower(bytes.drop_last()) + seq![
            hex_digit(bytes.last() as int / 16),
            hex_digit(bytes.last() as int % 16),
        ]
    }
}

/// `c` is one of the sixteen lower-case hexadecimal digits.
pub open spec fn is_lower_hex_digit(c: char) -> bool {
    ('0' <= c <= '9') || ('a' <= c <= 'f')
}

/// The SHA-1 digest of `data` (20 bytes), as the `sha1` crate computes it.
pub uninterp spec fn sha1_digest(data: Seq<u8>) -> Seq<u8>;

/// Hashes `data` with `sha1::Sha1` (`new`, `update`, `digest().bytes()`). The
/// contract claims only that the 20 bytes returned are a function of `data`
/// (the name `sha1_digest`); SHA-1 itself is not restated.
#[verifier::external_body]
fn sha1_bytes(data: &[u8]) -> (res: [u8; 20])
    ensures
        res@ == sha1_digest(data@),
{
    let mut hasher = sha1::Sha1::new();
    hasher.update(data);
    hasher.digest().bytes()
}

/// Calls `hex::encode`, which the `hex` crate documents as encoding the bytes
/// as a hex string with lower-case characters: the contract claims exactly
/// that text, two digits per byte, high nibble first.
#[verifier::external_body]
fn hex_encode(data: &[u8]) -> (res: String)
    ensures
        res@ == hex_lower(data@),
{
    hex::encode(data)
}

/// The name under which the speaker announces itself for the user `username`.
pub fn device_name(username: &str) -> (res: String)
    ensures
        res@ == "spotify-quickauth-"@ + username@,
{
    let mut name = String::from_str("spotify-quickauth-");
    name.append(username);
    name
}

/// The device id of a speaker called `name`: the lower-case hex SHA-1 of the
/// name's UTF-8 bytes.
pub open spec fn device_id_spec(name: Seq<char>) -> Seq<char> {
    hex_lower(sha1_digest(encode_utf8(name)))
}

/// The device id of a speaker called `name`: always 40 lower-case hex digits.
pub fn device_id(name: &str) -> (res: String)
    ensures
        res@ == device_id_spec(name@),
        res@ == hex_lower(sha1_digest(encode_utf8(name@))),
        hex_decode(res@) == sha1_digest(encode_utf8(name@)),
        res@.len() == 40,
        is_ascii_chars(res@),
        forall|i: int| 0 <= i < 40 ==> is_lower_hex_digit(#[trigger] res@[i]),
{
    let hash = sha1_bytes(name.as_bytes());
    let id = hex_encode(&hash);
    proof {
        lemma_hex_lower_shape(hash@);
        lemma_hex_round_trip(hash@);
    }
    id
}

/// The hex text is two digits per byte, each a lower-case hex digit.
pub proof fn lemma_hex_lower_shape(bytes: Seq<u8>)
    ensures
        hex_lower(bytes).len() == 2 * bytes.len(),
        forall|i: int| 0 <= i < hex_lower(bytes).len() ==> is_lower_hex_digit(#[trigger] hex_lower(bytes)[i]),
    decreases bytes.len(),
{
    if bytes.len() > 0 {
        lemma_hex_lower_shape(bytes.drop_last());
        let h = hex_lower(bytes.drop_last());
        let t = seq![hex_digit(bytes.last() as int / 16), hex_digit(bytes.last() as int % 16)];
        assert forall|n: int| 0 <= n < 16 implies is_lower_hex_digit(#[trigger] hex_digit(n)) by {
            let digits = seq!['0', '1', '2', '3', '4', '5', '6', '7', '8', '9', 'a', 'b', 'c', 'd', 'e', 'f'];
            assert(digits[n] == hex_digit(n));
        }
        assert forall|i: int| 0 <= i < hex_lower(bytes).len() implies is_lower_hex_digit(#[trigger] hex_lower(bytes)[i]) by {
            if i < h.len() {
                assert(hex_lower(bytes)[i] == h[i]);
            } else {
                assert(hex_lower(bytes)[i] == t[i - h.len()]);
            }
        }
    }
}

/// The value of a lower-case hexadecimal digit.
pub open spec fn hex_value(c: char) -> int {
    if '0' <= c && c <= '9' {
        c as int - '0' as int
    } else {
        c as int - 'a' as int + 10
    }
}

/// The bytes written by pairs of hexadecimal digits, high nibble first.
pub open spec fn hex_decode(s: Seq<char>) -> Seq<u8>
    decreases s.len(),
{
    if s.len() < 2 {
        Seq::<u8>::empty()
    } else {
        hex_decode(s.subrange(0, s.len() - 2)).push(
            (hex_value(s[s.len() - 2]) * 16 + hex_value(s[s.len() - 1])) as u8,
        )
    }
}

/// Each hexadecimal digit reads back as the value it was written for.
proof fn lemma_hex_digit_value(n: int)
    requires
        0 <= n < 16,
    ensures
        hex_value(hex_digit(n)) == n,
{
    let digits = seq!['0', '1', '2', '3', '4', '5', '6', '7', '8', '9', 'a', 'b', 'c', 'd', 'e', 'f'];
    assert(hex_digit(n) == digits[n]);
    if n == 0 { assert(digits[0] == '0'); }
    else if n == 1 { assert(digits[1] == '1'); }
    else if n == 2 { assert(digits[2] == '2'); }
    else if n == 3 { assert(digits[3] == '3'); }
    else if n == 4 { assert(digits[4] == '4'); }
    else if n == 5 { assert(digits[5] == '5'); }
    else if n == 6 { assert(digits[6] == '6'); }
    else if n == 7 { assert(digits[7] == '7'); }
    else if n == 8 { assert(digits[8] == '8'); }
    else if n == 9 { assert(digits[9] == '9'); }
    else if n == 10 { assert(digits[10] == 'a'); }
    else if n == 11 { assert(digits[11] == 'b'); }
    else if n == 12 { assert(digits[12] == 'c'); }
    else if n == 13 { assert(digits[13] == 'd'); }
    else if n == 14 { assert(digits[14] == 'e'); }
    else { assert(digits[15] == 'f'); }
}

/// Lower-case hex text decodes back to the bytes it was written from: no byte
/// is lost or altered.
pub proof fn lemma_hex_round_trip(bytes: Seq<u8>)
    ensures
        hex_decode(hex_lower(bytes)) == bytes,
    decreases bytes.len(),
{
    if bytes.len() > 0 {
        let init = bytes.drop_last();
        lemma_hex_round_trip(init);
        lemma_hex_lower_shape(init);
        let b = bytes.last();
        let h = hex_lower(bytes);
        assert(h.subrange(0, h.len() - 2) == hex_lower(init));
        lemma_hex_digit_value(b as int / 16);
        lemma_hex_digit_value(b as int % 16);
        assert(h[h.len() - 2] == hex_digit(b as int / 16));
        assert(h[h.len() - 1] == hex_digit(b as int % 16));
        assert((b as int / 16) * 16 + b as int % 16 == b as int);
        assert(init.push(b) == bytes);
    }
}

/// The device id carries the SHA-1 of the whole name: decoding it gives back
/// exactly the digest of all of the name's UTF-8 bytes, so names whose digests
/// differ get different ids.
pub proof fn lemma_device_id_is_full_digest(a: Seq<char>, b: Seq<char>)
    ensures
        hex_decode(device_id_spec(a)) == sha1_digest(encode_utf8(a)),
        device_id_spec(a) == device_id_spec(b) <==> sha1_digest(encode_utf8(a)) == sha1_digest(
            encode_utf8(b),
        ),
{
    lemma_hex_round_trip(sha1_digest(encode_utf8(a)));
    lemma_hex_round_trip(sha1_digest(encode_utf8(b)));
}

} // verus!
