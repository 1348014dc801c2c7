//! Verification of signed, time-bounded authorization assertions.
//!
//! Every mutating request carries one assertion in its authorization
//! header: `Nostr <base64(signed event)>`.  `authenticate` runs the strict,
//! short-circuiting validation sequence over it — scheme, encoding, event
//! shape, kind, timestamps, expiration tag, signature — and returns the
//! parsed assertion on success.  Decoding, JSON parsing and signature
//! verification are done by the `base64` and `nostr` crates; their results
//! are named by the spec functions below and everything that follows from
//! them is proved.

use vstd::prelude::*;
use crate::tags::expiration_of;
use crate::tags::find_expiration;

verus! {

/// The event kind reserved for storage authorization assertions.
pub const STORAGE_AUTH_KIND: u16 = 24242;

/// The fields of a signed assertion, as plain values.
pub ghost struct EventView {
    pub id: Seq<u8>,
    pub pubkey: Seq<u8>,
    pub created_at: u64,
    pub kind: u16,
    pub tags: Seq<Seq<Seq<char>>>,
    pub content: Seq<char>,
    pub sig: Seq<u8>,
}

#[verifier::external_type_specification]
#[verifier::external_body]
pub struct ExEvent(nostr::event::Event);

/// What the standard base64 decoder returns for a byte string: a function
/// of the input alone.
pub uninterp spec fn b64_decoded(s: Seq<u8>) -> Option<Seq<u8>>;

/// What nostr's JSON event parser returns for a byte string: a function of
/// the input alone.
pub uninterp spec fn parsed_event(b: Seq<u8>) -> Option<EventView>;

/// The fields a parsed nostr event holds.
pub uninterp spec fn event_view(e: nostr::event::Event) -> EventView;

/// Whether an event's id and signature check out: a function of the
/// event's fields alone.
pub uninterp spec fn sig_valid(v: EventView) -> bool;

/// Relies on base64's standard-alphabet, padded engine: decoding succeeds
/// or fails, and yields the same bytes, purely as a function of the input.
#[verifier::external_body]
fn decode_base64(s: &[u8]) -> (r: Option<Vec<u8>>)
    ensures
        r matches Some(v) ==> b64_decoded(s@) == Some(v@),
        r is None ==> b64_decoded(s@) is None,
{
    base64::Engine::decode(&base64::engine::general_purpose::STANDARD, s).ok()
}

/// A verified assertion: the parsed fields as plain values, plus the
/// underlying event for signature checking.
pub struct AuthEvent {
    /// The underlying parsed event, used for signature checking.
    pub inner: nostr::event::Event,
    pub pubkey: Vec<u8>,
    pub created_at: u64,
    pub kind: u16,
    pub tags: Vec<Vec<String>>,
}

/// Relies on nostr's Event::from_json: whether the bytes parse, and every
/// field of the parsed event, depend on the bytes alone.  The plain fields
/// of the result are copies of the parsed event's fields.
#[verifier::external_body]
fn parse_event(b: &Vec<u8>) -> (r: Option<AuthEvent>)
    ensures
        r matches Some(a) ==> parsed_event(b@) matches Some(v) && event_view(a.inner) == v
            && a.pubkey@ == v.pubkey && a.created_at == v.created_at && a.kind == v.kind
            && a.tags.deep_view() == v.tags,
        r is None ==> parsed_event(b@) is None,
{
    let ev = match nostr::event::Event::from_json(b.as_slice()) {
        Ok(e) => e,
        Err(_) => return None,
    };
    let pubkey = ev.pubkey.to_bytes().to_vec();
    let created_at = ev.created_at.as_secs();
    let kind = ev.kind.as_u16();
    let tags: Vec<Vec<String>> = ev.tags.iter().map(|t| t.as_slice().to_vec()).collect();
    Some(AuthEvent { inner: ev, pubkey, created_at, kind, tags })
}

/// Relies on nostr's Event::verify: id recomputation plus Schnorr
/// signature verification, a function of the event's fields alone.
#[verifier::external_body]
fn verify_event(e: &nostr::event::Event) -> (r: bool)
    ensures
        r == sig_valid(event_view(*e)),
{
    e.verify().is_ok()
}

/// Why an assertion was rejected.
#[derive(Clone, Copy, Debug, PartialEq, Eq, Structural)]
pub enum AuthError {
    /// The authorization header does not start with the `Nostr ` scheme.
    WrongScheme,
    /// The remainder of the header is not valid base64.
    InvalidEncoding,
    /// The decoded bytes are not a canonical signed event.
    InvalidEvent,
    /// The event kind is not the storage-authorization kind.
    WrongKind,
    /// The event claims to have been created in the future.
    CreatedInFuture,
    /// No usable expiration tag is present.
    MissingExpiration,
    /// The expiration is at or before the current time.
    Expired,
    /// The signature does not verify against the issuer key.
    BadSignature,
}

/// The bytes of the `Nostr ` scheme prefix.
pub open spec fn scheme_prefix() -> Seq<u8> {
    seq![78u8, 111u8, 115u8, 116u8, 114u8, 32u8]
}

/// The whole validation sequence, in its fixed order: scheme, base64,
/// event shape, kind, created-at not in the future, mandatory expiration
/// strictly in the future, signature.
pub open spec fn auth_spec(header: Seq<u8>, now: u64) -> Result<EventView, AuthError> {
    if !(header.len() >= 6 && header.subrange(0, 6) == scheme_prefix()) {
        Err(AuthError::WrongScheme)
    } else {
        match b64_decoded(header.skip(6)) {
            None => Err(AuthError::InvalidEncoding),
            Some(j) => match parsed_event(j) {
                None => Err(AuthError::InvalidEvent),
                Some(v) => if v.kind != STORAGE_AUTH_KIND {
                    Err(AuthError::WrongKind)
                } else if v.created_at > now {
                    Err(AuthError::CreatedInFuture)
                } else {
                    match expiration_of(v.tags) {
                        None => Err(AuthError::MissingExpiration),
                        Some(e) => if e <= now {
                            Err(AuthError::Expired)
                        } else if !sig_valid(v) {
                            Err(AuthError::BadSignature)
                        } else {
                            Ok(v)
                        },
                    }
                },
            },
        }
    }
}

/// Verify the assertion carried by an authorization header against the
/// current time.  Returns the assertion's fields on success, and the first
/// failing check otherwise.
pub fn authenticate(header: &[u8], now: u64) -> (r: Result<AuthEvent, AuthError>)
    ensures
        r matches Ok(a) ==> auth_spec(header@, now) matches Ok(v) && a.pubkey@ == v.pubkey
            && a.created_at == v.created_at && a.kind == v.kind && a.tags.deep_view() == v.tags,
        r matches Err(e) ==> auth_spec(header@, now) == Err::<EventView, AuthError>(e),
{
    if header.len() < 6 {
        return Err(AuthError::WrongScheme);
    }
    proof {
        assert(forall|k: int| 0 <= k < 6 ==> header@.subrange(0, 6)[k] == header@[k]);
    }
    if header[0] != 78 || header[1] != 111 || header[2] != 115 || header[3] != 116 || header[4]
        != 114 || header[5] != 32 {
        return Err(AuthError::WrongScheme);
    }
    proof {
        assert(header@.subrange(0, 6) =~= scheme_prefix());
    }
    let mut payload: Vec<u8> = Vec::new();
    let mut i: usize = 6;
    while i < header.len()
        invariant
            6 <= i <= header@.len(),
            payload@ == header@.subrange(6, i as int),
        decreases header@.len() - i,
    {
        payload.push(header[i]);
        i = i + 1;
        proof {
            assert(payload@ =~= header@.subrange(6, i as int));
        }
    }
    proof {
        assert(payload@ =~= header@.skip(6));
    }
    let decoded = match decode_base64(payload.as_slice()) {
        Some(d) => d,
        None => return Err(AuthError::InvalidEncoding),
    };
    let a = match parse_event(&decoded) {
        Some(a) => a,
        None => return Err(AuthError::InvalidEvent),
    };
    if a.kind != STORAGE_AUTH_KIND {
        return Err(AuthError::WrongKind);
    }
    if a.created_at > now {
        return Err(AuthError::CreatedInFuture);
    }
    let exp = match find_expiration(&a.tags) {
        Some(e) => e,
        None => return Err(AuthError::MissingExpiration),
    };
    if exp <= now {
        return Err(AuthError::Expired);
    }
    if !verify_event(&a.inner) {
        return Err(AuthError::BadSignature);
    }
    Ok(a)
}

/// A verified assertion together with its issuer key spelled in hex, the
/// shape the request handlers work with.
pub struct BlossomAuth {
    pub pubkey: String,
    pub event: AuthEvent,
}

impl BlossomAuth {
    /// Wrap a verified assertion, spelling out its issuer key.
    pub fn new(event: AuthEvent) -> (r: Self)
        ensures
            r.pubkey@ == crate::hexcodec::hex_of(event.pubkey@),
            r.event == event,
    {
        let pubkey = crate::hexcodec::hex_encode(event.pubkey.as_slice());
        BlossomAuth { pubkey, event }
    }
}

/// An assertion whose expiration is at or before the current time is never
/// accepted, whatever its signature: acceptance requires an expiration tag
/// strictly in the future.
pub proof fn lemma_expiry_enforced(header: Seq<u8>, now: u64)
    ensures
        auth_spec(header, now) matches Ok(v) ==> expiration_of(v.tags) matches Some(e) && e
            > now,
{
}

/// An assertion created strictly in the future is never accepted, whatever
/// its signature.
pub proof fn lemma_future_created_rejected(header: Seq<u8>, now: u64)
    ensures
        auth_spec(header, now) matches Ok(v) ==> v.created_at <= now,
{
}

/// Nothing is accepted without a verifying signature.
pub proof fn lemma_signature_enforced(header: Seq<u8>, now: u64)
    ensures
        auth_spec(header, now) matches Ok(v) ==> sig_valid(v),
{
}

} // verus!
