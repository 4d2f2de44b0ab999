//! Auth guard: decides, from the session cookie of a request, whether the
//! request is authenticated, and refreshes the session when it is.
//!
//! The guard reads no request and sets no cookie. It is handed the value of
//! the cookie named [`SESSION_COOKIE`], if the request has one, and hands
//! back the identity together with the value the cookie is to be replaced
//! by, or the reason for turning the request away.

use vstd::prelude::*;
use crate::clock::{unix_now, CLOCK_LIMIT};
use crate::structs::{AuthenticatedUser, ClaimsView};
use crate::structs::Claims;
use crate::token::{
    issue_at, issued_view, session_claims, spec_issue, spec_validate, validate, validated_view,
    IssueError, TokenError, SESSION_SECONDS,
};

verus! {

/// Name of the session cookie.
pub const SESSION_COOKIE: &'static str = "token";

/// HTTP status every rejected request is answered with.
pub const UNAUTHORIZED: u16 = 401;

/// Why a request was turned away. The cause is for the log only: the client
/// sees the same status for each.
#[derive(Clone, Copy, Debug, PartialEq, Eq, Structural)]
pub enum Rejection {
    /// The request carries no session cookie.
    NoCookie,
    /// The cookie does not hold a session token.
    Malformed,
    /// The token's signature does not match.
    BadSignature,
    /// The token expired before the request arrived.
    Expired,
    /// The token was in order, but no new one could be issued.
    RefreshFailed,
}

impl Rejection {
    /// The status the client is answered with: [`UNAUTHORIZED`], whatever
    /// the cause.
    pub fn status(&self) -> (code: u16)
        ensures
            code == UNAUTHORIZED,
    {
        UNAUTHORIZED
    }
}

/// An authenticated request: who it comes from, and the new value of the
/// session cookie.
#[derive(Clone, Debug, PartialEq, Eq)]
pub struct Session {
    pub user: AuthenticatedUser,
    pub cookie: String,
}

/// Mathematical content of a [`Session`].
pub struct SessionView {
    pub user_id: Seq<char>,
    pub cookie: Seq<char>,
}

impl View for Session {
    type V = SessionView;

    open spec fn view(&self) -> SessionView {
        SessionView { user_id: self.user@, cookie: self.cookie@ }
    }
}

/// View of an optional cookie value.
pub open spec fn cookie_view(cookie: Option<&str>) -> Option<Seq<char>> {
    match cookie {
        Some(value) => Some(value@),
        None => None,
    }
}

/// View of the guard's decision.
pub open spec fn decision_view(r: Result<Session, Rejection>) -> Result<SessionView, Rejection> {
    match r {
        Ok(session) => Ok(session@),
        Err(cause) => Err(cause),
    }
}

/// Whether a validated token lets a request pass at time `now`.
pub open spec fn spec_screen(validated: Result<ClaimsView, TokenError>, now: i64) -> Result<
    ClaimsView,
    Rejection,
> {
    match validated {
        Err(TokenError::Malformed) => Err(Rejection::Malformed),
        Err(TokenError::InvalidSignature) => Err(Rejection::BadSignature),
        Ok(claims) => if claims.exp < now {
            Err(Rejection::Expired)
        } else {
            Ok(claims)
        },
    }
}

/// The guard's decision on a request that arrives at time `now` with the
/// session cookie `cookie`.
pub open spec fn spec_authorize(cookie: Option<Seq<char>>, secret: Seq<char>, now: i64) -> Result<
    SessionView,
    Rejection,
> {
    match cookie {
        None => Err(Rejection::NoCookie),
        Some(token) => match spec_screen(spec_validate(token, secret), now) {
            Err(cause) => Err(cause),
            Ok(claims) => match spec_issue(claims.sub, Some(secret), now) {
                Err(_) => Err(Rejection::RefreshFailed),
                Ok(fresh) => Ok(SessionView { user_id: claims.sub, cookie: fresh }),
            },
        },
    }
}

/// View of the result of [`screen`].
pub open spec fn screened_view(r: Result<Claims, Rejection>) -> Result<ClaimsView, Rejection> {
    match r {
        Ok(claims) => Ok(claims@),
        Err(cause) => Err(cause),
    }
}

/// Decides whether the outcome of validating a token lets a request pass at
/// time `now`: a token that did not validate does not, nor does one that
/// expired strictly before `now`.
pub fn screen(validated: Result<Claims, TokenError>, now: i64) -> (r: Result<Claims, Rejection>)
    ensures
        screened_view(r) == spec_screen(validated_view(validated), now),
{
    match validated {
        Err(TokenError::Malformed) => Err(Rejection::Malformed),
        Err(TokenError::InvalidSignature) => Err(Rejection::BadSignature),
        Ok(claims) => if claims.exp < now {
            Err(Rejection::Expired)
        } else {
            Ok(claims)
        },
    }
}

/// Concludes a request that passed the screening from the outcome of the refresh: with a
/// new token the request is authenticated as the old token's subject,
/// without one it is rejected.
pub fn conclude(claims: Claims, refreshed: Result<String, IssueError>) -> (r: Result<
    Session,
    Rejection,
>)
    ensures
        decision_view(r) == match issued_view(refreshed) {
            Ok(fresh) => Ok::<SessionView, Rejection>(
                SessionView { user_id: claims.sub@, cookie: fresh },
            ),
            Err(_) => Err::<SessionView, Rejection>(Rejection::RefreshFailed),
        },
{
    match refreshed {
        Ok(fresh) => Ok(Session { user: AuthenticatedUser { user_id: claims.sub }, cookie: fresh }),
        Err(_) => Err(Rejection::RefreshFailed),
    }
}

/// What [`authorize_at`] promises of its decision `r`: it is the decision
/// of [`spec_authorize`], and the new cookie of an authenticated request
/// validates to the claims of the new session.
pub open spec fn authorized(
    cookie: Option<Seq<char>>,
    secret: Seq<char>,
    now: i64,
    r: Result<SessionView, Rejection>,
) -> bool {
    &&& r == spec_authorize(cookie, secret, now)
    &&& r matches Ok(session) ==> spec_validate(session.cookie, secret) == Ok::<
        ClaimsView,
        TokenError,
    >(session_claims(session.user_id, now))
}

/// Decides on a request that arrives at time `now`.
///
/// Without a cookie the request is rejected. A cookie that does not
/// validate is rejected, and so is one whose token expired strictly before
/// `now`. Otherwise a token for the same subject is issued for the
/// [`SESSION_SECONDS`] from `now`, on every such request, and the request
/// is authenticated as that subject.
pub fn authorize_at(cookie: Option<&str>, secret: &str, now: i64) -> (r: Result<Session, Rejection>)
    requires
        now + SESSION_SECONDS <= i64::MAX,
    ensures
        authorized(cookie_view(cookie), secret@, now, decision_view(r)),
{
    let token = match cookie {
        Some(token) => token,
        None => { return Err(Rejection::NoCookie); },
    };
    let claims = match screen(validate(token, secret), now) {
        Ok(claims) => claims,
        Err(cause) => { return Err(cause); },
    };
    let refreshed = issue_at(claims.sub.as_str(), Some(secret), now);
    conclude(claims, refreshed)
}

/// Decides on a request that arrives now.
pub fn authorize(cookie: Option<&str>, secret: &str) -> (r: Result<Session, Rejection>)
    ensures
        exists|now: i64|
            -CLOCK_LIMIT < now < CLOCK_LIMIT && #[trigger] authorized(
                cookie_view(cookie),
                secret@,
                now,
                decision_view(r),
            ),
        cookie is None ==> r == Err::<Session, Rejection>(Rejection::NoCookie),
{
    let now = unix_now();
    authorize_at(cookie, secret, now)
}

/// A token that expired before the request is rejected as expired, though
/// it validates.
pub proof fn law_expired_token_is_rejected(token: Seq<char>, secret: Seq<char>, now: i64)
    requires
        spec_validate(token, secret) is Ok,
        spec_validate(token, secret)->Ok_0.exp < now,
    ensures
        spec_authorize(Some(token), secret, now) == Err::<SessionView, Rejection>(
            Rejection::Expired,
        ),
{
}

/// A request is authenticated only on a token that validates and has not
/// expired, and then as the token's subject.
pub proof fn law_authenticated_means_valid_and_live(
    cookie: Option<Seq<char>>,
    secret: Seq<char>,
    now: i64,
)
    requires
        spec_authorize(cookie, secret, now) is Ok,
    ensures
        cookie is Some,
        spec_validate(cookie->0, secret) is Ok,
        now <= spec_validate(cookie->0, secret)->Ok_0.exp,
        spec_authorize(cookie, secret, now)->Ok_0.user_id == spec_validate(
            cookie->0,
            secret,
        )->Ok_0.sub,
{
}

/// Refresh on success: the new cookie of an authenticated request
/// validates to the new session, which ends [`SESSION_SECONDS`] after the
/// request. It is not the cookie that was presented unless that cookie
/// already held the very claims of the new session, and its expiry is
/// strictly later than the presented one whenever the presented token ends
/// before the new session does.
///
/// A request that arrives in the very second its token was issued presents
/// the claims of the new session: it gets the same cookie back, with the
/// same expiry.
pub proof fn law_refresh_changes_cookie(
    token: Seq<char>,
    secret: Seq<char>,
    now: i64,
    session: SessionView,
)
    requires
        now + SESSION_SECONDS <= i64::MAX,
        authorized(Some(token), secret, now, Ok(session)),
    ensures
        spec_validate(token, secret) is Ok,
        spec_validate(session.cookie, secret) == Ok::<ClaimsView, TokenError>(
            session_claims(session.user_id, now),
        ),
        spec_validate(token, secret)->Ok_0 != session_claims(session.user_id, now)
            ==> session.cookie != token,
        spec_validate(token, secret)->Ok_0.exp < now + SESSION_SECONDS ==> session.cookie != token
            && spec_validate(session.cookie, secret)->Ok_0.exp > spec_validate(
            token,
            secret,
        )->Ok_0.exp,
{
}

} // verus!
