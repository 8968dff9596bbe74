//! Verification of join and create tokens. The signature checks themselves
//! are jsonwebtoken's; everything around them — which key is consulted,
//! which claims are required, when a request is refused — is decided here.

use vstd::prelude::*;
use vstd::string::StringExecFns;

use crate::kv::{contains_key, kv_get, lookup};
use crate::outside::{
    decode_header_kid, decode_jwt_es256, decoding_key_from_ec_pem, is_ec_pem, jwt_claims_of,
    jwt_header_kid,
};
use crate::presentation::{Presentation, Presentations};
use crate::{ClientJoinPresentationData, JwtClaims};

verus! {

/// Why a create or join request was refused. At the boundary every one of
/// these is surfaced as an opaque not-found answer.
#[derive(Clone, Copy, Debug, PartialEq)]
pub enum AuthError {
    /// A required form field is absent.
    MissingField,
    /// The token did not decode, did not verify, lacked a claim, or its
    /// claims disagree with the header.
    InvalidToken,
    /// The key id names no registered presentation.
    UnknownPresentation,
    /// The offered authorization public key is not an EC PEM.
    InvalidKey,
    /// A presentation with this id already stands, and ids are never
    /// reused.
    PresentationExists,
}

/// Validates a join token: the header's key id names the presentation,
/// whose installed key must verify the signature, and the claims' `pid`
/// must agree with the key id. On success the verified claims come back;
/// whether verification succeeds is the token library's to decide.
pub fn join_presentation(token: &String, presentations: &Presentations) -> (r: Result<
    ClientJoinPresentationData,
    AuthError,
>)
    ensures
        jwt_header_kid(token@) is None ==> r == Err::<ClientJoinPresentationData, AuthError>(
            AuthError::InvalidToken,
        ),
        // a key id that names no presentation is always answered so
        (jwt_header_kid(token@) matches Some(k) && !contains_key(
            presentations.presentations@,
            k,
        )) ==> r == Err::<ClientJoinPresentationData, AuthError>(AuthError::UnknownPresentation),
        // claims whose pid disagrees with the key id never pass
        (jwt_header_kid(token@) matches Some(k) && contains_key(presentations.presentations@, k)
            && jwt_claims_of(token@).1 != k) ==> r == Err::<
            ClientJoinPresentationData,
            AuthError,
        >(AuthError::InvalidToken),
        match r {
            Ok(d) => {
                &&& jwt_header_kid(token@) matches Some(k) && d.presentation@ == k
                &&& contains_key(presentations.presentations@, d.presentation@)
                &&& d.claims.sub@ == jwt_claims_of(token@).0
                &&& d.claims.pid@ == jwt_claims_of(token@).1
                &&& d.claims.exp == jwt_claims_of(token@).2 as usize
                &&& d.claims.pid@ == d.presentation@
            },
            Err(e) => match e {
                AuthError::InvalidToken => true,
                AuthError::UnknownPresentation => jwt_header_kid(token@) matches Some(k)
                    && !contains_key(presentations.presentations@, k),
                _ => false,
            },
        },
{
    let kid = match decode_header_kid(token.as_str()) {
        Some(k) => k,
        None => {
            return Err(AuthError::InvalidToken);
        },
    };
    let presentation = match kv_get(&presentations.presentations, &kid) {
        Some(p) => p,
        None => {
            return Err(AuthError::UnknownPresentation);
        },
    };
    let claims = match decode_jwt_es256(token.as_str(), &presentation.authentication_key) {
        Some(c) => c,
        None => {
            return Err(AuthError::InvalidToken);
        },
    };
    let (sub, pid, exp) = claims;
    if !(pid == kid) {
        return Err(AuthError::InvalidToken);
    }
    Ok(
        ClientJoinPresentationData {
            presentation: kid,
            claims: JwtClaims { sub, pid, exp: exp as usize },
        },
    )
}

/// The fresh presentation a create request yields on success: built from
/// the request's fields, under the id the verified token named, fresh in
/// every part and carrying the default 15-second limiter.
pub open spec fn fresh_presentation(
    p: Presentation,
    request: Seq<(String, String)>,
    presentations: Presentations,
    pid: Seq<char>,
) -> bool {
    &&& p.wf()
    &&& p.id@ == pid
    &&& !contains_key(presentations.presentations@, pid)
    &&& lookup(request, "authorization_public_key"@) matches Some(k) && is_ec_pem(k@)
    &&& lookup(request, "presenter_identity"@) matches Some(pi) && p.presenter_identity@ == pi@
    &&& lookup(request, "title"@) matches Some(t) && p.presentation_data.title@ == t@
    &&& p.encrypted == (match lookup(request, "encrypted"@) {
        Some(v) => v@ == "on"@,
        None => false,
    })
    &&& p.slide_settings is None
    &&& p.users.client_mapping@.len() == 0
    &&& p.users.guid_mapping@.len() == 0
    &&& p.presenters@.len() == 0
    &&& p.presentation_data.polls.polls@.len() == 0
    &&& p.ratelimiter.limiters@.len() == 1
    &&& p.ratelimiter.limiters@[0].0@ == "15s"@
    &&& p.ratelimiter.limiter_data@.len() == 0
    &&& p.ratelimiter.global_data@.len() == 0
}

/// Whether the three form fields a create request needs beyond the token
/// are all present.
pub open spec fn create_fields_present(request: Seq<(String, String)>) -> bool {
    &&& lookup(request, "authorization_public_key"@) is Some
    &&& lookup(request, "presenter_identity"@) is Some
    &&& lookup(request, "title"@) is Some
}

/// The half of creating a presentation that is decided entirely by the
/// request and the standing presentations, once the registration token
/// has been verified and has named the id: field checks, the offered
/// key's parse, the id-conflict rule, and the fresh aggregate. The
/// outcome is fixed case by case: a missing field, a key that is no EC
/// PEM, a standing id, or the fresh presentation.
pub fn create_presentation(
    presentation_id: String,
    request: &Vec<(String, String)>,
    presentations: &Presentations,
) -> (r: Result<Presentation, AuthError>)
    ensures
        !create_fields_present(request@) ==> r == Err::<Presentation, AuthError>(
            AuthError::MissingField,
        ),
        (create_fields_present(request@) && (lookup(request@, "authorization_public_key"@)
            matches Some(k) && !is_ec_pem(k@))) ==> r == Err::<Presentation, AuthError>(
            AuthError::InvalidKey,
        ),
        (create_fields_present(request@) && (lookup(request@, "authorization_public_key"@)
            matches Some(k) && is_ec_pem(k@)) && contains_key(
            presentations.presentations@,
            presentation_id@,
        )) ==> r == Err::<Presentation, AuthError>(AuthError::PresentationExists),
        (create_fields_present(request@) && (lookup(request@, "authorization_public_key"@)
            matches Some(k) && is_ec_pem(k@)) && !contains_key(
            presentations.presentations@,
            presentation_id@,
        )) ==> (r matches Ok(p) && fresh_presentation(
            p,
            request@,
            *presentations,
            presentation_id@,
        )),
{
    let key_field = "authorization_public_key".to_owned();
    let user_authorization_key = match kv_get(request, &key_field) {
        Some(k) => k,
        None => {
            return Err(AuthError::MissingField);
        },
    };
    let identity_field = "presenter_identity".to_owned();
    let presenter_identity = match kv_get(request, &identity_field) {
        Some(p) => p.clone(),
        None => {
            return Err(AuthError::MissingField);
        },
    };
    let encrypted_field = "encrypted".to_owned();
    let on_value = "on".to_owned();
    let encrypted = match kv_get(request, &encrypted_field) {
        Some(v) => *v == on_value,
        None => false,
    };
    let title_field = "title".to_owned();
    let title = match kv_get(request, &title_field) {
        Some(t) => t.clone(),
        None => {
            return Err(AuthError::MissingField);
        },
    };
    let authentication_key = match decoding_key_from_ec_pem(user_authorization_key.as_str()) {
        Some(k) => k,
        None => {
            return Err(AuthError::InvalidKey);
        },
    };
    if presentations.contains(&presentation_id) {
        return Err(AuthError::PresentationExists);
    }
    Ok(Presentation::new(presentation_id, presenter_identity, encrypted, authentication_key, title))
}

/// Validates a create request: the registration token must verify against
/// the service's create key; the token's `pid` names the presentation;
/// everything after the decode — field checks, the offered key's parse,
/// the id-conflict rule, the fresh aggregate — is `create_presentation`'s
/// case-by-case outcome at that id. Only the decode itself is the token
/// library's to decide.
pub fn new_presentation(
    new_presentation_signing_key: &jsonwebtoken::DecodingKey,
    request: &Vec<(String, String)>,
    presentations: &Presentations,
) -> (r: Result<Presentation, AuthError>)
    ensures
        lookup(request@, "registration_key"@) is None ==> r == Err::<Presentation, AuthError>(
            AuthError::MissingField,
        ),
        match r {
            Ok(p) => {
                &&& lookup(request@, "registration_key"@) matches Some(tok) && p.id@
                    == jwt_claims_of(tok@).1
                &&& fresh_presentation(p, request@, *presentations, p.id@)
            },
            Err(e) => match e {
                AuthError::MissingField => lookup(request@, "registration_key"@) is None
                    || !create_fields_present(request@),
                AuthError::InvalidToken => lookup(request@, "registration_key"@) is Some,
                AuthError::InvalidKey => lookup(request@, "authorization_public_key"@)
                    matches Some(k) && !is_ec_pem(k@),
                AuthError::PresentationExists => lookup(request@, "registration_key"@)
                    matches Some(tok) && contains_key(
                    presentations.presentations@,
                    jwt_claims_of(tok@).1,
                ),
                AuthError::UnknownPresentation => false,
            },
        },
{
    let reg_field = "registration_key".to_owned();
    let token = match kv_get(request, &reg_field) {
        Some(t) => t,
        None => {
            return Err(AuthError::MissingField);
        },
    };
    let claims = match decode_jwt_es256(token.as_str(), new_presentation_signing_key) {
        Some(c) => c,
        None => {
            return Err(AuthError::InvalidToken);
        },
    };
    let (_sub, pid, _exp) = claims;
    create_presentation(pid, request, presentations)
}

} // verus!
