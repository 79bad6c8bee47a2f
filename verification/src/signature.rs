//! Webhook payload authentication: the expected HMAC-SHA-256 signature
//! string for a payload, and its constant-time comparison against the
//! signature a request carries.

use vstd::prelude::*;
use vstd::string::StringSliceAdditionalSpecFns;
use vstd::utf8::is_ascii_chars;

verus! {

/// What HMAC-SHA-256 computes for a key and a message; a function of the two
/// arguments alone.
pub uninterp spec fn hmac_sha256_of(key: Seq<u8>, msg: Seq<u8>) -> Seq<u8>;

/// Relies on hmac's `Hmac<Sha256>` (new_from_slice, update, finalize): the
/// 32-byte HMAC-SHA-256 tag of the message under the key; HMAC accepts keys
/// of any length, so key setup cannot fail.
#[verifier::external_body]
fn hmac_sha256(key: &[u8], msg: &[u8]) -> (r: Vec<u8>)
    ensures
        r@ == hmac_sha256_of(key@, msg@),
        r@.len() == 32,
{
    let mut mac = <hmac::Hmac<sha2::Sha256> as hmac::KeyInit>::new_from_slice(key).expect(
        "HMAC accepts keys of any length",
    );
    hmac::Mac::update(&mut mac, msg);
    hmac::Mac::finalize(mac).into_bytes().to_vec()
}

/// The lowercase hexadecimal digit for a value below 16.
pub open spec fn hex_digit(n: int) -> char {
    if n == 0 {
        '0'
    } else if n == 1 {
        '1'
    } else if n == 2 {
        '2'
    } else if n == 3 {
        '3'
    } else if n == 4 {
        '4'
    } else if n == 5 {
        '5'
    } else if n == 6 {
        '6'
    } else if n == 7 {
        '7'
    } else if n == 8 {
        '8'
    } else if n == 9 {
        '9'
    } else if n == 10 {
        'a'
    } else if n == 11 {
        'b'
    } else if n == 12 {
        'c'
    } else if n == 13 {
        'd'
    } else if n == 14 {
        'e'
    } else {
        'f'
    }
}

/// The lowercase hexadecimal digit character for a value below 16.
pub(crate) fn hex_digit_char(n: u32) -> (c: char)
    requires
        n < 16,
    ensures
        c == hex_digit(n as int),
{
    match n {
        0 => '0',
        1 => '1',
        2 => '2',
        3 => '3',
        4 => '4',
        5 => '5',
        6 => '6',
        7 => '7',
        8 => '8',
        9 => '9',
        10 => 'a',
        11 => 'b',
        12 => 'c',
        13 => 'd',
        14 => 'e',
        _ => 'f',
    }
}

/// The lowercase hexadecimal encoding of a byte sequence, two digits per byte
/// in order.
pub open spec fn hex_of(b: Seq<u8>) -> Seq<char>
    decreases b.len(),
{
    if b.len() == 0 {
        Seq::empty()
    } else {
        seq![hex_digit(b[0] as int / 16), hex_digit(b[0] as int % 16)] + hex_of(b.drop_first())
    }
}

/// Relies on hex::encode: the lowercase hexadecimal encoding of the bytes,
/// two digits per byte in order.
#[verifier::external_body]
fn hex_encode(b: &[u8]) -> (r: String)
    ensures
        r@ == hex_of(b@),
{
    hex::encode(b)
}

/// Relies on subtle's ConstantTimeEq for byte slices: true exactly when the
/// slices are equal; for slices of one length the comparison runs in constant
/// time.
#[verifier::external_body]
fn bytes_ct_eq(a: &[u8], b: &[u8]) -> (r: bool)
    ensures
        r == (a@ == b@),
{
    subtle::ConstantTimeEq::ct_eq(a, b).into()
}

/// Hexadecimal encodings hold ASCII characters only, two per byte.
pub proof fn lemma_hex_of_ascii(b: Seq<u8>)
    ensures
        is_ascii_chars(hex_of(b)),
        hex_of(b).len() == 2 * b.len(),
    decreases b.len(),
{
    assert(forall|n: int| '\0' <= #[trigger] hex_digit(n) <= '\u{7f}');
    if b.len() == 0 {
    } else {
        lemma_hex_of_ascii(b.drop_first());
        let rest = hex_of(b.drop_first());
        assert forall|i: int| 0 <= i < hex_of(b).len() implies '\0' <= #[trigger] hex_of(b)[i]
            <= '\u{7f}' by {
            if i >= 2 {
                assert(hex_of(b)[i] == rest[i - 2]);
            }
        }
    }
}

/// The characters as bytes, for an ASCII character sequence.
pub open spec fn ascii_bytes(s: Seq<char>) -> Seq<u8> {
    Seq::new(s.len(), |i: int| s[i] as u8)
}

/// The signature string expected for a payload under a verification token:
/// the fixed scheme prefix followed by the hexadecimal HMAC-SHA-256 tag.
pub open spec fn expected_signature_spec(token: Seq<u8>, body: Seq<u8>) -> Seq<char> {
    "sha256="@ + hex_of(hmac_sha256_of(token, body))
}

/// Builds the signature string expected for a payload under a token.
pub fn expected_signature(token: &[u8], body: &[u8]) -> (r: String)
    ensures
        r@ == expected_signature_spec(token@, body@),
        is_ascii_chars(r@),
{
    let mac = hmac_sha256(token, body);
    let hex = hex_encode(mac.as_slice());
    let mut r = String::from_str("sha256=");
    r.append(hex.as_str());
    proof {
        reveal_strlit("sha256=");
        lemma_hex_of_ascii(mac@);
        assert forall|i: int| 0 <= i < r@.len() implies '\0' <= #[trigger] r@[i] <= '\u{7f}' by {
            if i >= 7 {
                assert(r@[i] == hex_of(mac@)[i - 7]);
            }
        }
    }
    r
}

/// Whether a request's signature matches the one expected for the payload
/// bytes under the verification token, compared byte for byte in constant
/// time.
pub fn verify_payload(body_bytes: &[u8], request_signature: &str, verification_token: &[u8]) -> (r:
    bool)
    ensures
        r == (request_signature.spec_bytes() == ascii_bytes(
            expected_signature_spec(verification_token@, body_bytes@),
        )),
{
    let expected = expected_signature(verification_token, body_bytes);
    let es = expected.as_str();
    let r = bytes_ct_eq(es.as_bytes(), request_signature.as_bytes());
    proof {
        broadcast use vstd::string::is_ascii_spec_bytes;

        assert(vstd::string::is_ascii(es));
        assert(es.spec_bytes() =~= ascii_bytes(expected@));
    }
    r
}

} // verus!
