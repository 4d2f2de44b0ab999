//! Token service: issues and validates signed, time-bounded session tokens.
//!
//! A token is a compact HS256-signed JSON Web Token whose payload holds the
//! claims `sub`, `exp` and `iat`. Signing and verification are done by
//! `jsonwebtoken`; what that crate returns is named by [`hs256_token`] and
//! [`hs256_payload`], and everything around the two calls is verified here.

use vstd::prelude::*;
use crate::clock::{unix_now, CLOCK_LIMIT};
use crate::structs::{Claims, ClaimsView};

verus! {

/// Lifetime of a session token in seconds.
pub const SESSION_SECONDS: i64 = 600;

/// Why a token was not accepted by [`validate`].
#[derive(Clone, Copy, Debug, PartialEq, Eq, Structural)]
pub enum TokenError {
    /// The token does not have the shape of a session token.
    Malformed,
    /// The signature does not match the token under the secret.
    InvalidSignature,
}

/// Why no token was issued.
#[derive(Clone, Copy, Debug, PartialEq, Eq, Structural)]
pub enum IssueError {
    /// No signing secret is configured.
    ConfigError,
    /// The signer refused the claims.
    Signing,
}

/// The members of a verified payload that a session token is read from.
/// A member is `None` when it is absent or not of the expected JSON type.
#[derive(Clone, Debug, PartialEq, Eq)]
pub struct Payload {
    pub sub: Option<String>,
    pub exp: Option<i64>,
    pub iat: Option<i64>,
}

/// Mathematical content of a [`Payload`].
pub struct PayloadView {
    pub sub: Option<Seq<char>>,
    pub exp: Option<i64>,
    pub iat: Option<i64>,
}

impl View for Payload {
    type V = PayloadView;

    open spec fn view(&self) -> PayloadView {
        PayloadView {
            sub: match self.sub {
                Some(s) => Some(s@),
                None => None,
            },
            exp: self.exp,
            iat: self.iat,
        }
    }
}

/// `jsonwebtoken::errors::Error`, carried through as it is.
#[verifier::external_type_specification]
#[verifier::external_body]
pub struct ExSigningError(jsonwebtoken::errors::Error);

/// The compact token that `jsonwebtoken::encode` produces for the claims
/// `sub`, `exp`, `iat` under the HS256 secret `secret`; `None` where it
/// reports an error.
pub uninterp spec fn hs256_token(sub: Seq<char>, exp: i64, iat: i64, secret: Seq<char>) -> Option<
    Seq<char>,
>;

/// What `jsonwebtoken::decode` reads from `token` under the HS256 secret
/// `secret` when it checks the shape and the signature only: the three
/// claim members, or the reason for refusing the token.
pub uninterp spec fn hs256_payload(token: Seq<char>, secret: Seq<char>) -> Result<
    PayloadView,
    TokenError,
>;

/// The payload that holds exactly the three given claims.
pub open spec fn payload_of(sub: Seq<char>, exp: i64, iat: i64) -> PayloadView {
    PayloadView { sub: Some(sub), exp: Some(exp), iat: Some(iat) }
}

/// Signs `claims` with `jsonwebtoken::encode`, under the default header
/// (HS256) and the key `EncodingKey::from_secret`. The claims are handed
/// over as a JSON object with the members `sub`, `exp` and `iat`.
///
/// Trusted. The contract names the result, and states the one fact about
/// the codec that the session logic rests on: a token signed here, read
/// back by `jsonwebtoken::decode` under the same secret as [`read_hs256`]
/// calls it, yields the claims that were signed.
#[verifier::external_body]
fn sign_hs256(claims: &Claims, secret: &str) -> (r: Result<String, jsonwebtoken::errors::Error>)
    ensures
        r is Ok <==> hs256_token(claims.sub@, claims.exp, claims.iat, secret@) is Some,
        r matches Ok(t) ==> hs256_token(claims.sub@, claims.exp, claims.iat, secret@) == Some(t@),
        r matches Ok(t) ==> (hs256_payload(t@, secret@) matches Ok(p) && p == payload_of(
            claims.sub@,
            claims.exp,
            claims.iat,
        )),
{
    let members = std::collections::BTreeMap::from(
        [
            ("sub", serde_json::Value::from(claims.sub.as_str())),
            ("exp", serde_json::Value::from(claims.exp)),
            ("iat", serde_json::Value::from(claims.iat)),
        ],
    );
    let key = jsonwebtoken::EncodingKey::from_secret(secret.as_bytes());
    jsonwebtoken::encode(&jsonwebtoken::Header::default(), &members, &key)
}

/// Verifies and reads a token with `jsonwebtoken::decode`, under the key
/// `DecodingKey::from_secret` and `Validation::default()` (HS256 only) with
/// `validate_exp` switched off and no claim required: the decoder checks the
/// shape and the signature, and neither the clock nor the claims.
///
/// Trusted. The payload is read as a `serde_json::Value`; its member `sub`
/// is taken with `Value::as_str`, `exp` and `iat` with `Value::as_i64`, a
/// member that is missing counting as JSON `null`. Of the decoder's errors
/// only `InvalidSignature` is told apart.
#[verifier::external_body]
fn read_hs256(token: &str, secret: &str) -> (r: Result<Payload, TokenError>)
    ensures
        r matches Ok(p) ==> (hs256_payload(token@, secret@) matches Ok(q) && q == p@),
        r matches Err(e) ==> (hs256_payload(token@, secret@) matches Err(f) && f == e),
{
    let mut rules = jsonwebtoken::Validation::default();
    rules.validate_exp = false;
    rules.required_spec_claims.clear();
    let key = jsonwebtoken::DecodingKey::from_secret(secret.as_bytes());
    match jsonwebtoken::decode::<serde_json::Value>(token, &key, &rules) {
        Ok(data) => Ok(Payload {
            sub: data.claims["sub"].as_str().map(String::from),
            exp: data.claims["exp"].as_i64(),
            iat: data.claims["iat"].as_i64(),
        }),
        Err(e) => match e.kind() {
            jsonwebtoken::errors::ErrorKind::InvalidSignature => Err(TokenError::InvalidSignature),
            _ => Err(TokenError::Malformed),
        },
    }
}

/// The claims in a payload: all three members must be there.
pub open spec fn claims_of(payload: PayloadView) -> Option<ClaimsView> {
    if payload.sub is Some && payload.exp is Some && payload.iat is Some {
        Some(ClaimsView { sub: payload.sub->0, exp: payload.exp->0, iat: payload.iat->0 })
    } else {
        None
    }
}

/// What [`validate`] returns for `token` under `secret`.
pub open spec fn spec_validate(token: Seq<char>, secret: Seq<char>) -> Result<
    ClaimsView,
    TokenError,
> {
    match hs256_payload(token, secret) {
        Ok(payload) => match claims_of(payload) {
            Some(claims) => Ok(claims),
            None => Err(TokenError::Malformed),
        },
        Err(e) => Err(e),
    }
}

/// The claims of a session for `subject` that starts at `now`.
pub open spec fn session_claims(subject: Seq<char>, now: i64) -> ClaimsView
    recommends
        now + SESSION_SECONDS <= i64::MAX,
{
    ClaimsView { sub: subject, exp: (now + SESSION_SECONDS) as i64, iat: now }
}

/// What [`issue_at`] returns for `subject` at time `now`.
pub open spec fn spec_issue(subject: Seq<char>, secret: Option<Seq<char>>, now: i64) -> Result<
    Seq<char>,
    IssueError,
> {
    match secret {
        None => Err(IssueError::ConfigError),
        Some(secret) => match hs256_token(
            subject,
            session_claims(subject, now).exp,
            now,
            secret,
        ) {
            Some(token) => Ok(token),
            None => Err(IssueError::Signing),
        },
    }
}

/// View of an optional secret.
pub open spec fn secret_view(secret: Option<&str>) -> Option<Seq<char>> {
    match secret {
        Some(s) => Some(s@),
        None => None,
    }
}

/// View of the result of [`validate`].
pub open spec fn validated_view(r: Result<Claims, TokenError>) -> Result<ClaimsView, TokenError> {
    match r {
        Ok(c) => Ok(c@),
        Err(e) => Err(e),
    }
}

/// View of the result of [`issue_at`].
pub open spec fn issued_view(r: Result<String, IssueError>) -> Result<Seq<char>, IssueError> {
    match r {
        Ok(t) => Ok(t@),
        Err(e) => Err(e),
    }
}

/// What [`issue_at`] promises of its result: it is the token that the
/// signer produces for the session's claims, and that token validates
/// under the same secret to those claims.
pub open spec fn issued(
    subject: Seq<char>,
    secret: Option<Seq<char>>,
    now: i64,
    r: Result<Seq<char>, IssueError>,
) -> bool {
    &&& r == spec_issue(subject, secret, now)
    &&& r matches Ok(token) ==> spec_validate(token, secret->0) == Ok::<ClaimsView, TokenError>(
        session_claims(subject, now),
    )
}

/// The claims of a session for `subject` that starts at `now` and lasts
/// [`SESSION_SECONDS`].
pub fn new_session(subject: &str, now: i64) -> (claims: Claims)
    requires
        now + SESSION_SECONDS <= i64::MAX,
    ensures
        claims@ == session_claims(subject@, now),
{
    Claims { sub: String::from_str(subject), exp: now + SESSION_SECONDS, iat: now }
}

/// Reads the claims from a verified payload. The payload is malformed
/// exactly when one of the three members is missing.
pub fn read_claims(payload: Payload) -> (r: Result<Claims, TokenError>)
    ensures
        validated_view(r) == match claims_of(payload@) {
            Some(claims) => Ok::<ClaimsView, TokenError>(claims),
            None => Err::<ClaimsView, TokenError>(TokenError::Malformed),
        },
{
    match (payload.sub, payload.exp, payload.iat) {
        (Some(sub), Some(exp), Some(iat)) => Ok(Claims { sub, exp, iat }),
        _ => Err(TokenError::Malformed),
    }
}

/// Verifies the signature and the structure of `token` and returns its
/// claims. Expiry is not looked at: the caller compares `exp` with its own
/// clock.
pub fn validate(token: &str, secret: &str) -> (r: Result<Claims, TokenError>)
    ensures
        validated_view(r) == spec_validate(token@, secret@),
{
    match read_hs256(token, secret) {
        Err(e) => Err(e),
        Ok(payload) => read_claims(payload),
    }
}

/// Issues a token for `subject` that is valid from `now` for
/// [`SESSION_SECONDS`].
///
/// Fails with `ConfigError` exactly when no secret is given, and with
/// `Signing` exactly when the signer refuses.
pub fn issue_at(subject: &str, secret: Option<&str>, now: i64) -> (r: Result<String, IssueError>)
    requires
        now + SESSION_SECONDS <= i64::MAX,
    ensures
        issued(subject@, secret_view(secret), now, issued_view(r)),
{
    match secret {
        None => Err(IssueError::ConfigError),
        Some(secret) => match sign_hs256(&new_session(subject, now), secret) {
            Ok(token) => Ok(token),
            Err(_) => Err(IssueError::Signing),
        },
    }
}

/// Issues a token for `user_id` that is valid for [`SESSION_SECONDS`] from
/// the present moment.
pub fn generate_token(user_id: &str, secret: Option<&str>) -> (r: Result<String, IssueError>)
    ensures
        exists|now: i64|
            -CLOCK_LIMIT < now < CLOCK_LIMIT && #[trigger] issued(
                user_id@,
                secret_view(secret),
                now,
                issued_view(r),
            ),
        secret is None <==> r == Err::<String, IssueError>(IssueError::ConfigError),
{
    let now = unix_now();
    issue_at(user_id, secret, now)
}

/// Validating what was issued gives the claims back: a token issued for
/// `subject` at `now`, validated under the same secret, has that subject
/// and expires [`SESSION_SECONDS`] after `now`.
pub proof fn law_validate_reads_what_was_issued(
    subject: Seq<char>,
    secret: Seq<char>,
    now: i64,
    token: Seq<char>,
)
    requires
        now + SESSION_SECONDS <= i64::MAX,
        issued(subject, Some(secret), now, Ok(token)),
    ensures
        spec_validate(token, secret) is Ok,
        spec_validate(token, secret)->Ok_0.sub == subject,
        spec_validate(token, secret)->Ok_0.exp == now + SESSION_SECONDS,
        spec_validate(token, secret)->Ok_0.iat == now,
{
}

/// Claims issued here describe a session: expiry comes after issue, by
/// exactly [`SESSION_SECONDS`].
pub proof fn law_session_lasts_ten_minutes(subject: Seq<char>, now: i64)
    requires
        now + SESSION_SECONDS <= i64::MAX,
    ensures
        session_claims(subject, now).exp > session_claims(subject, now).iat,
        session_claims(subject, now).exp - session_claims(subject, now).iat == 600,
{
}

} // verus!
