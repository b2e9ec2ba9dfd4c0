use base64::Engine;
use ed25519_dalek::Verifier;
use sha2::Digest;
use vstd::prelude::*;

verus! {

/// The SHA-256 digest of the UTF-8 bytes of a text.
pub uninterp spec fn sha256_of(s: Seq<char>) -> Seq<u8>;

/// The standard, padded base64 text of some bytes.
pub uninterp spec fn base64_of(b: Seq<u8>) -> Seq<char>;

/// The bytes that a standard, padded base64 text decodes to, if it is well formed.
pub uninterp spec fn base64_decoded(s: Seq<char>) -> Option<Seq<u8>>;

/// The value of one hexadecimal digit, of either case.
pub open spec fn hex_digit(c: char) -> Option<u8> {
    if '0' <= c && c <= '9' {
        Some(((c as u32) - ('0' as u32)) as u8)
    } else if 'a' <= c && c <= 'f' {
        Some(((c as u32) - ('a' as u32) + 10) as u8)
    } else if 'A' <= c && c <= 'F' {
        Some(((c as u32) - ('A' as u32) + 10) as u8)
    } else {
        None
    }
}

/// The bytes that a hexadecimal text decodes to: an even number of digits, two digits per
/// byte, the first one high; `None` for any other text.
pub open spec fn hex_decoded(s: Seq<char>) -> Option<Seq<u8>> {
    if s.len() % 2 == 0 && forall|i: int| 0 <= i < s.len() ==> (#[trigger] hex_digit(s[i])) is Some {
        Some(
            Seq::new(
                (s.len() / 2) as nat,
                |i: int| (16 * hex_digit(s[2 * i])->Some_0 + hex_digit(s[2 * i + 1])->Some_0) as u8,
            ),
        )
    } else {
        None
    }
}

/// Whether 32 bytes are the encoding of a usable Ed25519 verifying key.
pub uninterp spec fn ed25519_key_ok(key: Seq<u8>) -> bool;

/// Whether an Ed25519 signature over the UTF-8 bytes of `msg` is accepted under `key`.
pub uninterp spec fn ed25519_accepts(key: Seq<u8>, msg: Seq<char>, sig: Seq<u8>) -> bool;

/// The Unix time, in seconds, of an RFC 2822 date, if the text is one.
pub uninterp spec fn rfc2822_seconds(s: Seq<char>) -> Option<i64>;

/// Whether a text is a well-formed JSON document.
pub uninterp spec fn json_parses(s: Seq<char>) -> bool;

#[verifier::external_type_specification]
#[verifier::external_body]
pub struct ExJsonValue(serde_json::Value);

/// Relies on `sha2::Sha256::digest` over `s.as_bytes()`: a 32-byte digest.
#[verifier::external_body]
pub(crate) fn sha256(s: &str) -> (r: Vec<u8>)
    ensures
        r@ == sha256_of(s@),
        r@.len() == 32,
{
    sha2::Sha256::digest(s.as_bytes()).to_vec()
}

/// Relies on base64's `STANDARD` engine `encode`.
#[verifier::external_body]
pub(crate) fn base64_encode(b: &Vec<u8>) -> (r: String)
    ensures
        r@ == base64_of(b@),
{
    base64::engine::general_purpose::STANDARD.encode(b)
}

/// Relies on base64's `STANDARD` engine `decode`; any decode error gives `None`.
#[verifier::external_body]
pub(crate) fn base64_decode(s: &str) -> (r: Option<Vec<u8>>)
    ensures
        match r {
            Some(v) => base64_decoded(s@) == Some(v@),
            None => base64_decoded(s@) is None,
        },
{
    base64::engine::general_purpose::STANDARD.decode(s).ok()
}

/// Relies on `hex::decode`: an odd length or a character that is not a hexadecimal digit
/// is an error, which gives `None`; otherwise each two digits give one byte.
#[verifier::external_body]
pub(crate) fn hex_decode(s: &str) -> (r: Option<Vec<u8>>)
    ensures
        match r {
            Some(v) => hex_decoded(s@) == Some(v@),
            None => hex_decoded(s@) is None,
        },
{
    hex::decode(s).ok()
}

/// Relies on `ed25519_dalek::VerifyingKey::from_bytes`: whether it accepts the bytes.
#[verifier::external_body]
pub(crate) fn verifying_key_ok(key: &Vec<u8>) -> (r: bool)
    requires
        key@.len() == 32,
    ensures
        r == ed25519_key_ok(key@),
{
    let bytes: [u8; 32] = key.as_slice().try_into().unwrap();
    ed25519_dalek::VerifyingKey::from_bytes(&bytes).is_ok()
}

/// Relies on `ed25519_dalek::VerifyingKey::verify` over `msg.as_bytes()`.
#[verifier::external_body]
pub(crate) fn ed25519_verify(key: &Vec<u8>, msg: &str, sig: &Vec<u8>) -> (r: bool)
    requires
        key@.len() == 32,
        sig@.len() == 64,
        ed25519_key_ok(key@),
    ensures
        r == ed25519_accepts(key@, msg@, sig@),
{
    let k: [u8; 32] = key.as_slice().try_into().unwrap();
    let s: [u8; 64] = sig.as_slice().try_into().unwrap();
    let vk = ed25519_dalek::VerifyingKey::from_bytes(&k).unwrap();
    vk.verify(msg.as_bytes(), &ed25519_dalek::Signature::from_bytes(&s)).is_ok()
}

/// Relies on `chrono::DateTime::parse_from_rfc2822`, read back as a Unix timestamp.
#[verifier::external_body]
pub(crate) fn parse_rfc2822(s: &str) -> (r: Option<i64>)
    ensures
        r == rfc2822_seconds(s@),
{
    chrono::DateTime::parse_from_rfc2822(s).ok().map(|d| d.timestamp())
}

/// Relies on `serde_json::from_str` into a `Value`; any error gives `None`.
#[verifier::external_body]
pub(crate) fn parse_json(s: &str) -> (r: Option<serde_json::Value>)
    ensures
        r is Some == json_parses(s@),
{
    serde_json::from_str::<serde_json::Value>(s).ok()
}

} // verus!
