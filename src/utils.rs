use vstd::prelude::*;
use vstd::string::*;

verus! {

/// An ASCII hexadecimal digit of either case.
pub open spec fn is_hex_digit(c: u8) -> bool {
    (0x30 <= c && c <= 0x39) || (0x41 <= c && c <= 0x46) || (0x61 <= c && c <= 0x66)
}

/// The value of a hexadecimal digit.
pub open spec fn hex_value(c: u8) -> int {
    if 0x30 <= c && c <= 0x39 {
        c - 0x30
    } else if 0x41 <= c && c <= 0x46 {
        c - 0x41 + 10
    } else {
        c - 0x61 + 10
    }
}

/// `text` is exactly `2 * n` hexadecimal digits.
pub open spec fn is_hex_of_len(text: Seq<u8>, n: nat) -> bool {
    &&& text.len() == 2 * n
    &&& forall|i: int| 0 <= i < text.len() ==> is_hex_digit(#[trigger] text[i])
}

/// The bytes that a string of hexadecimal digits spells, two digits per byte,
/// high digit first.
pub open spec fn hex_decoded(text: Seq<u8>) -> Seq<u8> {
    Seq::new(
        text.len() / 2,
        |i: int| (hex_value(text[2 * i]) * 16 + hex_value(text[2 * i + 1])) as u8,
    )
}

/// Whether Ed25519 strict verification accepts `signature` over `message`
/// under `public_key`.
pub uninterp spec fn ed25519_strict_accepts(
    public_key: Seq<u8>,
    message: Seq<u8>,
    signature: Seq<u8>,
) -> bool;

/// Whether a hex-encoded public key and signature are well formed (32 and 64
/// bytes) and the signature verifies strictly over `message`.
pub open spec fn signature_valid(public_key: Seq<u8>, message: Seq<u8>, signature: Seq<u8>) -> bool {
    &&& is_hex_of_len(public_key, 32)
    &&& is_hex_of_len(signature, 64)
    &&& ed25519_strict_accepts(hex_decoded(public_key), message, hex_decoded(signature))
}

/// Relies on hex's `FromHex` for `[u8; 32]`: it accepts exactly 64 hex digits
/// of either case and decodes two digits per byte, high digit first.
#[verifier::external_body]
pub(crate) fn decode_hex_32(text: &str) -> (r: Option<[u8; 32]>)
    ensures
        r is Some <==> is_hex_of_len(text.spec_bytes(), 32),
        r is Some ==> r->0@ == hex_decoded(text.spec_bytes()),
{
    <[u8; 32] as hex::FromHex>::from_hex(text).ok()
}

/// Relies on hex's `FromHex` for `[u8; 64]`: it accepts exactly 128 hex
/// digits of either case and decodes two digits per byte, high digit first.
#[verifier::external_body]
pub(crate) fn decode_hex_64(text: &str) -> (r: Option<[u8; 64]>)
    ensures
        r is Some <==> is_hex_of_len(text.spec_bytes(), 64),
        r is Some ==> r->0@ == hex_decoded(text.spec_bytes()),
{
    <[u8; 64] as hex::FromHex>::from_hex(text).ok()
}

/// Relies on ed25519_dalek's `VerifyingKey::from_bytes` and `verify_strict`
/// (with `Signature::from_bytes`): a key that does not decompress is refused,
/// and the outcome depends on the three byte strings alone.
#[verifier::external_body]
fn verify_strict_bytes(public_key: &[u8; 32], message: &[u8], signature: &[u8; 64]) -> (r: bool)
    ensures
        r == ed25519_strict_accepts(public_key@, message@, signature@),
{
    match ed25519_dalek::VerifyingKey::from_bytes(public_key) {
        Ok(key) => key.verify_strict(message, &ed25519_dalek::Signature::from_bytes(signature)).is_ok(),
        Err(_) => false,
    }
}

/// Relies on std's `SystemTime::now` and `duration_since(UNIX_EPOCH)`: whole
/// seconds since the Unix epoch, or `None` while the clock reads earlier.
#[verifier::external_body]
fn seconds_since_epoch() -> (r: Option<u64>) {
    std::time::SystemTime::now().duration_since(std::time::UNIX_EPOCH).ok().map(|d| d.as_secs())
}

/// The server's write time in seconds since the Unix epoch; a clock set
/// before the epoch reads as zero.
pub fn get_timestamp() -> (r: u64) {
    match seconds_since_epoch() {
        Some(seconds) => seconds,
        None => 0,
    }
}

/// Checks a detached signature given as hex over `message` under a hex
/// public key. Malformed hex, a wrong length, a key that is not a curve point
/// and a failed strict check all give `false`.
pub fn verify(public_key: &str, message: &[u8], signature: &str) -> (r: bool)
    ensures
        r == signature_valid(public_key.spec_bytes(), message@, signature.spec_bytes()),
{
    let key = decode_hex_32(public_key);
    let sig = decode_hex_64(signature);
    match (key, sig) {
        (Some(k), Some(s)) => verify_strict_bytes(&k, message, &s),
        _ => false,
    }
}

/// Verification is a function of its inputs: two checks of the same key,
/// message and signature agree.
pub proof fn lemma_verify_deterministic(
    public_key: Seq<u8>,
    message: Seq<u8>,
    signature: Seq<u8>,
    first: bool,
    second: bool,
)
    requires
        first == signature_valid(public_key, message, signature),
        second == signature_valid(public_key, message, signature),
    ensures
        first == second,
{
}

} // verus!
