use vstd::prelude::*;
use vstd::string::*;
use vstd::utf8::*;

use crate::identifier::{base58_of, derive_identifier, derived_identifier};
use crate::models::{FinalResponse, Response, SocketMessage};
use crate::utils::{decode_hex_32, decode_hex_64, hex_decoded, signature_valid, verify};

verus! {

/// sled's database handle, carried through opaquely; it is shared by every
/// connection.
#[verifier::external_type_specification]
#[verifier::external_body]
pub struct ExDb(sled::Db);

/// Relies on sled's `Tree::get`, reached through `Db`: the value stored
/// under the key, if any, or the store's error as text. What comes back
/// depends on the store's contents on disk.
#[verifier::external_body]
fn store_get(db: &sled::Db, key: &[u8]) -> (r: Result<Option<Vec<u8>>, String>) {
    match db.get(key) {
        Ok(found) => Ok(found.map(|v| v.to_vec())),
        Err(e) => Err(e.to_string()),
    }
}

/// Relies on sled's `Tree::insert`, reached through `Db`: stores the value
/// under the key, replacing any earlier value, or hands back the store's
/// error as text.
#[verifier::external_body]
fn store_insert(db: &sled::Db, key: &[u8], value: &[u8]) -> (r: Result<(), String>) {
    match db.insert(key, value) {
        Ok(_) => Ok(()),
        Err(e) => Err(e.to_string()),
    }
}

/// Relies on std's `String::from_utf8`: it accepts exactly the valid UTF-8
/// byte strings and keeps their text; otherwise the error's text.
#[verifier::external_body]
fn utf8_text(bytes: Vec<u8>) -> (r: Result<String, String>)
    ensures
        r is Ok <==> valid_utf8(bytes@),
        r is Ok ==> r->Ok_0@ == decode_utf8(bytes@),
{
    String::from_utf8(bytes).map_err(|e| e.to_string())
}

/// What a GET leads to: a reply that is ready, or the stored record's text,
/// still to be read as a record.
pub enum GetOutcome {
    Reply(FinalResponse),
    Stored(String),
}

/// All four fields that a PUT needs are present.
pub open spec fn has_put_fields(m: SocketMessage) -> bool {
    &&& m.identifier is Some
    &&& m.data is Some
    &&& m.public_key is Some
    &&& m.signature is Some
}

/// The PUT's signature verifies over its data under its public key.
pub open spec fn put_signature_valid(m: SocketMessage) -> bool {
    signature_valid(
        encode_utf8(m.public_key->0@),
        encode_utf8(m.data->0@),
        encode_utf8(m.signature->0@),
    )
}

/// `r` is the record that a verified PUT `m` writes at time `timestamp`:
/// keyed by the signer's prefix and the client's hash, with the client's
/// data and the base58 texts of the raw key and signature.
pub open spec fn is_record_for(r: Response, m: SocketMessage, timestamp: u64) -> bool {
    let key = hex_decoded(encode_utf8(m.public_key->0@));
    let sig = hex_decoded(encode_utf8(m.signature->0@));
    &&& r.identifier@ == derived_identifier(key, m.identifier->0@)
    &&& r.data@ == m.data->0@
    &&& r.public_key@ == base58_of(key)
    &&& r.signature@ == base58_of(sig)
    &&& r.timestamp == timestamp
}

/// Builds the record that a PUT writes, or the error that it answers with.
/// Nothing is stored here.
pub fn put_record(message: &SocketMessage, timestamp: u64) -> (r: Result<Response, String>)
    ensures
        !has_put_fields(*message) ==> r is Err && r->Err_0@
            == "Missing identifier or data in message"@,
        has_put_fields(*message) && !put_signature_valid(*message) ==> r is Err && r->Err_0@
            == "Failed to verify data"@,
        has_put_fields(*message) && put_signature_valid(*message) ==> r is Ok && is_record_for(
            r->Ok_0,
            *message,
            timestamp,
        ),
{
    match (&message.identifier, &message.data, &message.public_key, &message.signature) {
        (Some(hash), Some(data), Some(public_key), Some(signature)) => {
            if !verify(public_key.as_str(), data.as_str().as_bytes(), signature.as_str()) {
                return Err(String::from_str("Failed to verify data"));
            }
            let key = decode_hex_32(public_key.as_str());
            let sig = decode_hex_64(signature.as_str());
            match (key, sig) {
                (Some(k), Some(s)) => {
                    let (identifier, public_key_bs58, signature_bs58) = derive_identifier(
                        k.as_slice(),
                        s.as_slice(),
                        hash.as_str(),
                    );
                    Ok(
                        Response {
                            identifier,
                            data: data.clone(),
                            public_key: public_key_bs58,
                            signature: signature_bs58,
                            timestamp,
                        },
                    )
                },
                _ => Err(String::from_str("Failed to verify data")),
            }
        },
        _ => Err(String::from_str("Missing identifier or data in message")),
    }
}

/// Writes a verified record, given as its serialized text, under its
/// identifier, and answers with the record or the store's error.
pub fn put(db: &sled::Db, record: Response, encoded: &str) -> (r: FinalResponse)
    ensures
        r.well_formed(),
        r.data is Some ==> r.data == Some(record),
{
    let written = store_insert(db, record.identifier.as_str().as_bytes(), encoded.as_bytes());
    match written {
        Ok(()) => FinalResponse::success(record),
        Err(e) => FinalResponse::failure(e),
    }
}

/// What a lookup's result leads to: the store's error, `404` where nothing
/// is stored, a decoding error, or the stored text.
pub fn lookup_outcome(found: Result<Option<Vec<u8>>, String>) -> (r: GetOutcome)
    ensures
        found is Err ==> r is Reply && r->Reply_0.is_error(found->Err_0@),
        found == Ok::<Option<Vec<u8>>, String>(None) ==> r is Reply && r->Reply_0.is_error(
            "404"@,
        ),
        found is Ok && found->Ok_0 is Some && valid_utf8(found->Ok_0->0@) ==> r is Stored
            && r->Stored_0@ == decode_utf8(found->Ok_0->0@),
        found is Ok && found->Ok_0 is Some && !valid_utf8(found->Ok_0->0@) ==> r is Reply
            && r->Reply_0.is_failure(),
{
    match found {
        Err(e) => GetOutcome::Reply(FinalResponse::failure(e)),
        Ok(None) => GetOutcome::Reply(FinalResponse::failure(String::from_str("404"))),
        Ok(Some(bytes)) => match utf8_text(bytes) {
            Ok(text) => GetOutcome::Stored(text),
            Err(e) => GetOutcome::Reply(FinalResponse::failure(e)),
        },
    }
}

/// Looks up the record that a GET names. A GET without an identifier is
/// answered with an error and reads nothing.
pub fn get(db: &sled::Db, message: &SocketMessage) -> (r: GetOutcome)
    ensures
        message.identifier is None ==> r is Reply && r->Reply_0.is_error(
            "Missing identifier in message"@,
        ),
        r is Reply ==> r->Reply_0.is_failure(),
{
    match &message.identifier {
        Some(key) => {
            let found = store_get(db, key.as_str().as_bytes());
            lookup_outcome(found)
        },
        None => GetOutcome::Reply(
            FinalResponse::failure(String::from_str("Missing identifier in message")),
        ),
    }
}

/// Two verified PUTs by the same public key under the same hash build records
/// with the same identifier, so the later write replaces the earlier one.
pub proof fn lemma_overwrite_same_identifier(
    first: SocketMessage,
    second: SocketMessage,
    first_time: u64,
    second_time: u64,
    first_record: Response,
    second_record: Response,
)
    requires
        has_put_fields(first),
        has_put_fields(second),
        first.public_key->0@ == second.public_key->0@,
        first.identifier->0@ == second.identifier->0@,
        is_record_for(first_record, first, first_time),
        is_record_for(second_record, second, second_time),
    ensures
        first_record.identifier@ == second_record.identifier@,
        first_record.public_key@ == second_record.public_key@,
{
}

/// The reply to a request whose event is not recognised: none is sent.
pub fn invalid() -> (r: Option<FinalResponse>)
    ensures
        r is None,
{
    None
}

} // verus!
