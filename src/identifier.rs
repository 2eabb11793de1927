use vstd::prelude::*;
use vstd::string::*;

verus! {

/// Number of characters of the base58 public key that name a signer.
pub const PREFIX_LEN: usize = 32;

/// The base58 text (Bitcoin alphabet) of a byte string.
pub uninterp spec fn base58_of(bytes: Seq<u8>) -> Seq<char>;

/// The signer's namespace: the first `PREFIX_LEN` characters of the base58
/// key, or the whole text where it is shorter.
pub open spec fn signer_prefix(encoded: Seq<char>) -> Seq<char> {
    if encoded.len() <= PREFIX_LEN {
        encoded
    } else {
        encoded.take(PREFIX_LEN as int)
    }
}

/// The storage key of a write: `<signer prefix>-<hash>`.
pub open spec fn derived_identifier(public_key: Seq<u8>, hash: Seq<char>) -> Seq<char> {
    signer_prefix(base58_of(public_key)) + seq!['-'] + hash
}

/// Relies on `bs58::encode(..).into_string()` with the default alphabet; the
/// text depends on the bytes alone, and is handed back as its characters.
#[verifier::external_body]
fn base58_chars(bytes: &[u8]) -> (r: Vec<char>)
    ensures
        r@ == base58_of(bytes@),
{
    bs58::encode(bytes).into_string().chars().collect()
}

/// Relies on std's `String::push`: appends one character.
#[verifier::external_body]
fn push_char(text: &mut String, c: char)
    ensures
        final(text)@ == old(text)@.push(c),
{
    text.push(c)
}

/// The text of the first `n` characters.
fn string_of(chars: &Vec<char>, n: usize) -> (r: String)
    requires
        n <= chars@.len(),
    ensures
        r@ == chars@.take(n as int),
{
    let mut out = String::new();
    let mut i: usize = 0;
    while i < n
        invariant
            n <= chars@.len(),
            i <= n,
            out@ == chars@.take(i as int),
        decreases n - i,
    {
        push_char(&mut out, chars[i]);
        assert(chars@.take(i as int).push(chars@[i as int]) =~= chars@.take(i + 1));
        i = i + 1;
    }
    out
}

/// The base58 text of a byte string.
pub fn base58(bytes: &[u8]) -> (r: String)
    ensures
        r@ == base58_of(bytes@),
{
    let chars = base58_chars(bytes);
    let r = string_of(&chars, chars.len());
    assert(chars@.take(chars@.len() as int) =~= chars@);
    r
}

/// Derives the storage key for a write of `hash` by the signer of the raw
/// `public_key`, and the base58 texts of the key and of the raw `signature`.
pub fn derive_identifier(public_key: &[u8], signature: &[u8], hash: &str) -> (r: (
    String,
    String,
    String,
))
    ensures
        r.0@ == derived_identifier(public_key@, hash@),
        r.1@ == base58_of(public_key@),
        r.2@ == base58_of(signature@),
{
    let key_chars = base58_chars(public_key);
    let n = if key_chars.len() <= PREFIX_LEN {
        key_chars.len()
    } else {
        PREFIX_LEN
    };
    let mut identifier = string_of(&key_chars, n);
    assert(key_chars@.take(key_chars@.len() as int) =~= key_chars@);
    push_char(&mut identifier, '-');
    identifier.append(hash);
    let encoded_key = string_of(&key_chars, key_chars.len());
    let encoded_signature = base58(signature);
    (identifier, encoded_key, encoded_signature)
}

/// Writes by one signer under one hash always land on the same key.
pub proof fn lemma_same_signer_same_identifier(
    key1: Seq<u8>,
    key2: Seq<u8>,
    hash1: Seq<char>,
    hash2: Seq<char>,
)
    requires
        key1 == key2,
        hash1 == hash2,
    ensures
        derived_identifier(key1, hash1) == derived_identifier(key2, hash2),
{
}

/// Two signers whose base58 prefixes have the same length but differ never
/// share a key, whatever hash each of them writes under.
pub proof fn lemma_distinct_prefixes_isolate(
    key1: Seq<u8>,
    key2: Seq<u8>,
    hash1: Seq<char>,
    hash2: Seq<char>,
)
    requires
        signer_prefix(base58_of(key1)) != signer_prefix(base58_of(key2)),
        signer_prefix(base58_of(key1)).len() == signer_prefix(base58_of(key2)).len(),
    ensures
        derived_identifier(key1, hash1) != derived_identifier(key2, hash2),
{
    let p1 = signer_prefix(base58_of(key1));
    let p2 = signer_prefix(base58_of(key2));
    let n = p1.len() as int;
    if derived_identifier(key1, hash1) == derived_identifier(key2, hash2) {
        assert((p1 + seq!['-'] + hash1).take(n) =~= p1);
        assert((p2 + seq!['-'] + hash2).take(n) =~= p2);
    }
}

} // verus!
