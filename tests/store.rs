use ed25519_dalek::{Signer, SigningKey};
use signed_store::events::{get, invalid, lookup_outcome, put, put_record, GetOutcome};
use signed_store::identifier::{base58, derive_identifier};
use signed_store::models::{Event, FinalResponse, Response, SocketMessage};
use signed_store::utils::{get_timestamp, verify};

fn signer(seed: u8) -> SigningKey {
    SigningKey::from_bytes(&[seed; 32])
}

fn key_hex(key: &SigningKey) -> String {
    hex::encode(key.verifying_key().to_bytes())
}

fn sign_hex(key: &SigningKey, data: &str) -> String {
    hex::encode(key.sign(data.as_bytes()).to_bytes())
}

fn put_message(key: &SigningKey, hash: &str, data: &str) -> SocketMessage {
    SocketMessage {
        event: "PUT".to_string(),
        public_key: Some(key_hex(key)),
        identifier: Some(hash.to_string()),
        signature: Some(sign_hex(key, data)),
        data: Some(data.to_string()),
    }
}

fn get_message(identifier: Option<&str>) -> SocketMessage {
    SocketMessage {
        event: "GET".to_string(),
        public_key: None,
        identifier: identifier.map(|s| s.to_string()),
        signature: None,
        data: None,
    }
}

fn prefix_of(key: &SigningKey) -> String {
    let encoded = bs58::encode(key.verifying_key().to_bytes()).into_string();
    encoded.chars().take(32).collect()
}

fn temporary_db() -> sled::Db {
    sled::Config::new().temporary(true).open().unwrap()
}

fn encode(record: &Response) -> String {
    format!(
        "{{\"identifier\":\"{}\",\"data\":\"{}\",\"public_key\":\"{}\",\"signature\":\"{}\",\"timestamp\":{}}}",
        record.identifier, record.data, record.public_key, record.signature, record.timestamp
    )
}

fn stored_text(outcome: GetOutcome) -> String {
    match outcome {
        GetOutcome::Stored(text) => text,
        GetOutcome::Reply(reply) => panic!("expected a stored record, got {:?}", reply.error),
    }
}

fn error_text(reply: &FinalResponse) -> String {
    assert!(reply.data.is_none());
    reply.error.clone().expect("an error")
}

fn reply_error(outcome: GetOutcome) -> String {
    match outcome {
        GetOutcome::Reply(reply) => error_text(&reply),
        GetOutcome::Stored(text) => panic!("expected an error, got {}", text),
    }
}

#[test]
fn event_tags_are_matched_exactly() {
    assert_eq!(Event::from_str("GET"), Ok(Event::GET));
    assert_eq!(Event::from_str("PUT"), Ok(Event::PUT));
    assert_eq!(Event::from_str("get"), Ok(Event::INVALID));
    assert_eq!(Event::from_str(""), Ok(Event::INVALID));
    assert_eq!(Event::from_str("DELETE"), Ok(Event::INVALID));
}

#[test]
fn invalid_event_has_no_reply() {
    assert!(invalid().is_none());
}

#[test]
fn verify_accepts_a_valid_signature() {
    let key = signer(7);
    assert!(verify(&key_hex(&key), b"hello", &sign_hex(&key, "hello")));
}

#[test]
fn verify_accepts_upper_case_hex() {
    let key = signer(7);
    let pk = key_hex(&key).to_uppercase();
    let sig = sign_hex(&key, "hello").to_uppercase();
    assert!(verify(&pk, b"hello", &sig));
}

#[test]
fn verify_rejects_other_data() {
    let key = signer(7);
    assert!(!verify(&key_hex(&key), b"hellO", &sign_hex(&key, "hello")));
}

#[test]
fn verify_rejects_another_signer() {
    let key = signer(7);
    let other = signer(8);
    assert!(!verify(&key_hex(&other), b"hello", &sign_hex(&key, "hello")));
}

#[test]
fn verify_rejects_malformed_hex() {
    let key = signer(7);
    let sig = sign_hex(&key, "hello");
    assert!(!verify("zz", b"hello", &sig));
    assert!(!verify(&key_hex(&key)[..62], b"hello", &sig));
    assert!(!verify(&key_hex(&key), b"hello", &sig[..126]));
    let mut bad = key_hex(&key);
    bad.replace_range(0..1, "g");
    assert!(!verify(&bad, b"hello", &sig));
}

#[test]
fn verify_gives_the_same_answer_twice() {
    let key = signer(3);
    let pk = key_hex(&key);
    let sig = sign_hex(&key, "data");
    assert_eq!(verify(&pk, b"data", &sig), verify(&pk, b"data", &sig));
    assert_eq!(verify(&pk, b"atad", &sig), verify(&pk, b"atad", &sig));
}

#[test]
fn base58_matches_known_values() {
    assert_eq!(base58(b"hello world"), "StV1DL6CwTryKyV");
    assert_eq!(base58(&[0u8, 0, 0]), "111");
    assert_eq!(base58(&[]), "");
}

#[test]
fn identifier_is_prefix_dash_hash() {
    let key = signer(7);
    let pk = key.verifying_key().to_bytes();
    let sig = key.sign(b"x").to_bytes();
    let (identifier, encoded_key, encoded_sig) = derive_identifier(&pk, &sig, "abc");
    assert_eq!(identifier, format!("{}-abc", prefix_of(&key)));
    assert_eq!(encoded_key, bs58::encode(pk).into_string());
    assert_eq!(encoded_sig, bs58::encode(sig).into_string());
    assert_eq!(identifier.len(), 32 + 1 + 3);
}

#[test]
fn identifier_of_all_zero_key() {
    let (identifier, encoded_key, _) = derive_identifier(&[0u8; 32], &[0u8; 64], "h");
    assert_eq!(encoded_key, "1".repeat(32));
    assert_eq!(identifier, format!("{}-h", "1".repeat(32)));
}

#[test]
fn put_record_builds_the_record() {
    let key = signer(7);
    let record = put_record(&put_message(&key, "abc", "hello"), 1234).ok().unwrap();
    assert_eq!(record.identifier, format!("{}-abc", prefix_of(&key)));
    assert_eq!(record.data, "hello");
    assert_eq!(record.public_key, bs58::encode(key.verifying_key().to_bytes()).into_string());
    assert_eq!(record.signature, bs58::encode(key.sign(b"hello").to_bytes()).into_string());
    assert_eq!(record.timestamp, 1234);
}

#[test]
fn put_record_rejects_a_bad_signature() {
    let key = signer(7);
    let mut message = put_message(&key, "abc", "hello");
    message.data = Some("goodbye".to_string());
    assert_eq!(put_record(&message, 1).err().unwrap(), "Failed to verify data");
}

#[test]
fn put_record_rejects_malformed_hex_as_unverified() {
    let key = signer(7);
    let mut message = put_message(&key, "abc", "hello");
    message.public_key = Some("not hex".to_string());
    assert_eq!(put_record(&message, 1).err().unwrap(), "Failed to verify data");
}

#[test]
fn put_record_needs_every_field() {
    let key = signer(7);
    for field in 0..4 {
        let mut message = put_message(&key, "abc", "hello");
        match field {
            0 => message.identifier = None,
            1 => message.data = None,
            2 => message.public_key = None,
            _ => message.signature = None,
        }
        assert_eq!(
            put_record(&message, 1).err().unwrap(),
            "Missing identifier or data in message"
        );
    }
}

#[test]
fn get_without_identifier_is_an_error() {
    let db = temporary_db();
    assert_eq!(reply_error(get(&db, &get_message(None))), "Missing identifier in message");
}

#[test]
fn get_of_unknown_key_is_not_found() {
    let db = temporary_db();
    assert_eq!(reply_error(get(&db, &get_message(Some("nobody-abc")))), "404");
}

#[test]
fn lookup_outcome_maps_each_result() {
    assert_eq!(reply_error(lookup_outcome(Err("disk failed".to_string()))), "disk failed");
    assert_eq!(reply_error(lookup_outcome(Ok(None))), "404");
    assert!(!reply_error(lookup_outcome(Ok(Some(vec![0xff, 0xfe])))).is_empty());
    assert_eq!(stored_text(lookup_outcome(Ok(Some(b"{\"a\":1}".to_vec())))), "{\"a\":1}");
}

#[test]
fn put_then_get_returns_the_same_record() {
    let db = temporary_db();
    let key = signer(7);
    let record = put_record(&put_message(&key, "abc", "hello"), 99).ok().unwrap();
    let text = encode(&record);
    let identifier = record.identifier.clone();
    let reply = put(&db, record, &text);
    assert!(reply.error.is_none());
    let stored = reply.data.unwrap();
    assert_eq!(stored.identifier, format!("{}-abc", prefix_of(&key)));
    assert_eq!(stored.data, "hello");
    let fetched = stored_text(get(&db, &get_message(Some(&identifier))));
    assert_eq!(fetched, text);
    assert_eq!(fetched, encode(&stored));
}

#[test]
fn second_put_overwrites_the_first() {
    let db = temporary_db();
    let key = signer(5);
    let first = put_record(&put_message(&key, "k", "one"), 1).ok().unwrap();
    let second = put_record(&put_message(&key, "k", "two"), 2).ok().unwrap();
    assert_eq!(first.identifier, second.identifier);
    let first_text = encode(&first);
    let second_text = encode(&second);
    let identifier = second.identifier.clone();
    assert!(put(&db, first, &first_text).error.is_none());
    assert!(put(&db, second, &second_text).error.is_none());
    assert_eq!(stored_text(get(&db, &get_message(Some(&identifier)))), second_text);
}

#[test]
fn different_signers_do_not_collide() {
    let a = signer(1);
    let b = signer(2);
    let ra = put_record(&put_message(&a, "same", "x"), 1).ok().unwrap();
    let rb = put_record(&put_message(&b, "same", "x"), 1).ok().unwrap();
    assert_ne!(ra.identifier, rb.identifier);
}

#[test]
fn rejected_put_writes_nothing() {
    let key = signer(7);
    let mut message = put_message(&key, "abc", "hello");
    message.signature = Some(sign_hex(&key, "other"));
    assert_eq!(put_record(&message, 1).err().unwrap(), "Failed to verify data");
    let db = temporary_db();
    let identifier = format!("{}-abc", prefix_of(&key));
    assert_eq!(reply_error(get(&db, &get_message(Some(&identifier)))), "404");
}

#[test]
fn timestamp_is_after_the_epoch() {
    assert!(get_timestamp() > 1_500_000_000);
}
