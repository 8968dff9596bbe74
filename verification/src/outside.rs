//! Declarations and wrappers for the outside functions the library leans on.
//! Each wrapper's contract states only what the function's source or
//! documentation promises; everything built on top of them is verified.

use vstd::prelude::*;

verus! {

/// Relies on String::push, which appends the given character to the string.
#[verifier::external_body]
pub(crate) fn push_char(s: &mut String, c: char)
    ensures
        final(s)@ == old(s)@.push(c),
{
    s.push(c);
}

/// Relies on std::time::SystemTime::now; the result is converted to whole
/// seconds since the Unix epoch, or 0 should the clock read earlier than
/// the epoch. Nothing is promised of the value: callers must hold for every
/// reading.
#[verifier::external_body]
pub(crate) fn now_unix_secs() -> u64 {
    match std::time::SystemTime::now().duration_since(std::time::UNIX_EPOCH) {
        Ok(d) => d.as_secs(),
        Err(_) => 0,
    }
}

/// Relies on uuid::Uuid::new_v4, rendered in the simple format: 32
/// lowercase hexadecimal digits. The value is random; nothing more is
/// promised.
#[verifier::external_body]
pub(crate) fn new_guid() -> (r: String)
    ensures
        r@.len() == 32,
{
    uuid::Uuid::new_v4().as_simple().to_string()
}

#[verifier::external_type_specification]
#[verifier::external_body]
#[verifier::reject_recursive_types(T)]
pub struct ExUnboundedSender<T>(tokio::sync::mpsc::UnboundedSender<T>);

#[verifier::external_type_specification]
#[verifier::external_body]
#[verifier::reject_recursive_types(T)]
pub struct ExSendError<T>(tokio::sync::mpsc::error::SendError<T>);

#[verifier::external_type_specification]
#[verifier::external_body]
pub struct ExWsMessage(warp::filters::ws::Message);

#[verifier::external_type_specification]
#[verifier::external_body]
pub struct ExWarpError(warp::Error);

#[verifier::external_type_specification]
#[verifier::external_body]
pub struct ExDecodingKey(jsonwebtoken::DecodingKey);

// Relies on tokio's UnboundedSender::send: hands the message to the
// channel, failing only when the receiver is gone. Delivery is outside
// this model, so nothing is stated.
pub assume_specification<T>[ tokio::sync::mpsc::UnboundedSender::<T>::send ](
    s: &tokio::sync::mpsc::UnboundedSender<T>,
    message: T,
) -> Result<(), tokio::sync::mpsc::error::SendError<T>>;

// Relies on Clone for tokio's UnboundedSender: another handle to the same
// channel. Which channel a handle feeds is outside this model.
pub assume_specification<T>[ <tokio::sync::mpsc::UnboundedSender<T> as Clone>::clone ](
    s: &tokio::sync::mpsc::UnboundedSender<T>,
) -> tokio::sync::mpsc::UnboundedSender<T>;

// Relies on warp's Message::text, which makes a text frame carrying the
// given string.
pub assume_specification<S: Into<String>>[ warp::filters::ws::Message::text ](
    s: S,
) -> warp::filters::ws::Message;

/// Whether these characters are a PEM-encoded EC key that the token
/// library accepts: what DecodingKey::from_ec_pem decides, a function of
/// the bytes alone.
pub uninterp spec fn is_ec_pem(pem: Seq<char>) -> bool;

/// Relies on jsonwebtoken::DecodingKey::from_ec_pem: reads a PEM-encoded
/// EC key, and fails exactly on bytes that are not one.
#[verifier::external_body]
pub(crate) fn decoding_key_from_ec_pem(pem: &str) -> (r: Option<jsonwebtoken::DecodingKey>)
    ensures
        r is Some <==> is_ec_pem(pem@),
{
    jsonwebtoken::DecodingKey::from_ec_pem(pem.as_bytes()).ok()
}

/// The key id a token's header carries, if the token decodes and names
/// one. jsonwebtoken::decode_header reads it without any verification, so
/// it is a function of the token text alone.
pub uninterp spec fn jwt_header_kid(token: Seq<char>) -> Option<Seq<char>>;

/// Relies on jsonwebtoken::decode_header: reads the token's header without
/// verifying anything.
#[verifier::external_body]
pub(crate) fn decode_header_kid(token: &str) -> (r: Option<String>)
    ensures
        r.deep_view() == jwt_header_kid(token@),
{
    match jsonwebtoken::decode_header(token) {
        Ok(h) => h.kid,
        Err(_) => None,
    }
}

/// The subject, presentation id and expiry a token's claims carry: what
/// decoding yields when it succeeds, a function of the token text alone.
pub uninterp spec fn jwt_claims_of(token: Seq<char>) -> (Seq<char>, Seq<char>, nat);

/// Relies on jsonwebtoken::decode under ES256: on success the signature
/// verified against `key`, the token is unexpired, and the returned
/// subject, presentation id and expiry are read from the token's claims.
/// Success also depends on the key, the clock and the claims, so it is not
/// promised.
#[verifier::external_body]
pub(crate) fn decode_jwt_es256(token: &str, key: &jsonwebtoken::DecodingKey) -> (r: Option<
    (String, String, u64),
>)
    ensures
        match r {
            Some(c) => (c.0@, c.1@, c.2 as nat) == jwt_claims_of(token@),
            None => true,
        },
{
    let validation = jsonwebtoken::Validation::new(jsonwebtoken::Algorithm::ES256);
    let data = jsonwebtoken::decode::<serde_json::Value>(token, key, &validation).ok()?;
    let sub = data.claims.get("sub")?.as_str()?.to_string();
    let pid = data.claims.get("pid")?.as_str()?.to_string();
    let exp = data.claims.get("exp")?.as_u64()?;
    Some((sub, pid, exp))
}

} // verus!
