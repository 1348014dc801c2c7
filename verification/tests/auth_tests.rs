use base64::Engine;
use nostr::event::{EventBuilder, FinalizeEvent, Kind, Tag};
use nostr::key::Keys;
use nostr::types::Timestamp;
use route96::auth::{authenticate, AuthError, BlossomAuth};

const NOW: u64 = 1_700_000_000;

fn keys() -> Keys {
    Keys::generate()
}

fn signed_event_json(keys: &Keys, kind: u16, created_at: u64, tags: Vec<Tag>) -> String {
    let ev = EventBuilder::new(Kind::Custom(kind), "")
        .tags(tags)
        .custom_created_at(Timestamp::from_secs(created_at))
        .finalize(keys)
        .unwrap();
    ev.as_json()
}

fn header_of(json: &str) -> Vec<u8> {
    let b64 = base64::engine::general_purpose::STANDARD.encode(json.as_bytes());
    let mut h = b"Nostr ".to_vec();
    h.extend_from_slice(b64.as_bytes());
    h
}

fn upload_tags(expiration: u64) -> Vec<Tag> {
    vec![
        Tag::parse(["t", "upload"]).unwrap(),
        Tag::expiration(Timestamp::from_secs(expiration)),
    ]
}

fn expect_err(header: &[u8], expected: AuthError) {
    match authenticate(header, NOW) {
        Ok(_) => panic!("assertion was accepted but {:?} was expected", expected),
        Err(e) => assert_eq!(e, expected),
    }
}

#[test]
fn valid_assertion_is_accepted() {
    let k = keys();
    let json = signed_event_json(&k, 24242, NOW - 5, upload_tags(NOW + 300));
    let auth = match authenticate(&header_of(&json), NOW) {
        Ok(a) => a,
        Err(e) => panic!("valid assertion rejected: {:?}", e),
    };
    assert_eq!(auth.pubkey, k.public_key().to_bytes().to_vec());
    assert_eq!(auth.kind, 24242);
    assert_eq!(auth.created_at, NOW - 5);
}

#[test]
fn blossom_auth_spells_the_issuer_key_in_hex() {
    let k = keys();
    let json = signed_event_json(&k, 24242, NOW - 5, upload_tags(NOW + 300));
    let auth = authenticate(&header_of(&json), NOW).ok().expect("valid assertion");
    let wrapped = BlossomAuth::new(auth);
    assert_eq!(wrapped.pubkey, hex::encode(k.public_key().to_bytes()));
    assert_eq!(wrapped.event.kind, 24242);
}

#[test]
fn missing_scheme_is_rejected() {
    expect_err(b"Bearer abcdef", AuthError::WrongScheme);
    expect_err(b"", AuthError::WrongScheme);
    expect_err(b"Nost", AuthError::WrongScheme);
}

#[test]
fn invalid_base64_is_rejected() {
    expect_err(b"Nostr !!!not-base64!!!", AuthError::InvalidEncoding);
}

#[test]
fn non_event_payload_is_rejected() {
    let b64 = base64::engine::general_purpose::STANDARD.encode(b"{\"hello\":1}");
    let mut h = b"Nostr ".to_vec();
    h.extend_from_slice(b64.as_bytes());
    expect_err(&h, AuthError::InvalidEvent);
}

#[test]
fn wrong_kind_is_rejected() {
    let k = keys();
    let json = signed_event_json(&k, 1, NOW - 5, upload_tags(NOW + 300));
    expect_err(&header_of(&json), AuthError::WrongKind);
}

#[test]
fn created_in_future_is_rejected() {
    let k = keys();
    let json = signed_event_json(&k, 24242, NOW + 1, upload_tags(NOW + 300));
    expect_err(&header_of(&json), AuthError::CreatedInFuture);
}

#[test]
fn missing_expiration_is_rejected() {
    let k = keys();
    let tags = vec![Tag::parse(["t", "upload"]).unwrap()];
    let json = signed_event_json(&k, 24242, NOW - 5, tags);
    expect_err(&header_of(&json), AuthError::MissingExpiration);
}

#[test]
fn expiration_at_now_is_rejected() {
    let k = keys();
    let json = signed_event_json(&k, 24242, NOW - 5, upload_tags(NOW));
    expect_err(&header_of(&json), AuthError::Expired);
}

#[test]
fn expiration_in_past_is_rejected() {
    let k = keys();
    let json = signed_event_json(&k, 24242, NOW - 5, upload_tags(NOW - 100));
    expect_err(&header_of(&json), AuthError::Expired);
}

#[test]
fn tampered_signature_is_rejected() {
    let k = keys();
    let json = signed_event_json(&k, 24242, NOW - 5, upload_tags(NOW + 300));
    let sig_pos = json.find("\"sig\":\"").expect("sig field") + 7;
    let mut bytes = json.into_bytes();
    bytes[sig_pos + 3] = if bytes[sig_pos + 3] == b'a' { b'b' } else { b'a' };
    let tampered = String::from_utf8(bytes).unwrap();
    expect_err(&header_of(&tampered), AuthError::BadSignature);
}

#[test]
fn any_single_byte_flip_invalidates_the_assertion() {
    let k = keys();
    let json = signed_event_json(&k, 24242, NOW - 5, upload_tags(NOW + 300));
    assert!(authenticate(&header_of(&json), NOW).is_ok());
    let payload = json.as_bytes();
    for i in 0..payload.len() {
        let mut flipped = payload.to_vec();
        flipped[i] ^= 0x01;
        let b64 = base64::engine::general_purpose::STANDARD.encode(&flipped);
        let mut h = b"Nostr ".to_vec();
        h.extend_from_slice(b64.as_bytes());
        assert!(
            authenticate(&h, NOW).is_err(),
            "flipping payload byte {} was not rejected",
            i
        );
    }
}

#[test]
fn malformed_expiration_counts_as_missing() {
    let k = keys();
    let tags = vec![
        Tag::parse(["t", "upload"]).unwrap(),
        Tag::parse(["expiration", "not-a-number"]).unwrap(),
    ];
    let json = signed_event_json(&k, 24242, NOW - 5, tags);
    expect_err(&header_of(&json), AuthError::MissingExpiration);
}
