//! Signing in and changing the stored credential: the two forms that end
//! with a new session cookie.

use vstd::prelude::*;
use crate::clock::{unix_now, CLOCK_LIMIT};
use crate::credential::{
    authenticate, credential_refused, credential_stored, login_checked, login_unhashable,
    set_credential, CredentialError,
};
use crate::store::{lookup, lookup_text, settled, SettingsStore, StoreError, SALT_KEY};
use crate::structs::{LoginInput, LoginInputView};
use crate::token::{issue_at, issued, secret_view, IssueError, SESSION_SECONDS};

verus! {

/// Why a form could not be answered.
#[derive(Clone, Copy, Debug, PartialEq, Eq, Structural)]
pub enum LoginError {
    /// The login could not be checked, or the credential not stored.
    Credential(CredentialError),
    /// The login was in order, but no token could be issued.
    Token(IssueError),
}

/// What [`auth_at`] promises of its answer `r`, of the store before and
/// after the call.
///
/// A login that is refused is answered with `None`. A login that is
/// granted is answered with the token issued for the user name at `now`,
/// or with the reason why none was issued. Either way, what the check wrote
/// is durable. Where the login could not be checked, the promises of the
/// check's own errors hold.
pub open spec fn signed_in(
    before: SettingsStore,
    after: SettingsStore,
    input: LoginInputView,
    secret: Option<Seq<char>>,
    now: i64,
    r: Result<Option<Seq<char>>, LoginError>,
) -> bool {
    match r {
        Ok(None) => {
            &&& login_checked(before@, after@, input.username, input.password, false)
            &&& settled(before, after)
        },
        Ok(Some(token)) => {
            &&& login_checked(before@, after@, input.username, input.password, true)
            &&& settled(before, after)
            &&& issued(input.username, secret, now, Ok(token))
        },
        Err(LoginError::Token(e)) => {
            &&& login_checked(before@, after@, input.username, input.password, true)
            &&& settled(before, after)
            &&& issued(input.username, secret, now, Err(e))
        },
        Err(LoginError::Credential(CredentialError::Hashing)) => login_unhashable(
            before@,
            after@,
            input.username,
            input.password,
        ),
        Err(LoginError::Credential(CredentialError::Entropy)) => after@ == before@ && lookup(
            before@,
            SALT_KEY@,
        ) is None,
        Err(LoginError::Credential(CredentialError::Store(StoreError::Encoding))) => after@
            == before@ && lookup_text(before@, SALT_KEY@) is Err,
        Err(LoginError::Credential(CredentialError::Store(StoreError::Backend))) => true,
    }
}

/// View of the answer to a login.
pub open spec fn answer_view(r: Result<Option<String>, LoginError>) -> Result<
    Option<Seq<char>>,
    LoginError,
> {
    match r {
        Ok(Some(token)) => Ok(Some(token@)),
        Ok(None) => Ok(None),
        Err(e) => Err(e),
    }
}

/// Answers the login form at time `now`: the login is checked as
/// [`authenticate`] does, and a login that is granted gets a session token
/// for its user name. A refused login gets `None` and changes nothing but
/// what the check itself writes.
pub fn auth_at(
    store: &mut SettingsStore,
    input: &LoginInput,
    secret: Option<&str>,
    now: i64,
) -> (r: Result<Option<String>, LoginError>)
    requires
        now + SESSION_SECONDS <= i64::MAX,
    ensures
        signed_in(*old(store), *final(store), input@, secret_view(secret), now, answer_view(r)),
{
    match authenticate(store, input.username.as_str(), input.password.as_str()) {
        Err(e) => Err(LoginError::Credential(e)),
        Ok(false) => Ok(None),
        Ok(true) => match issue_at(input.username.as_str(), secret, now) {
            Ok(token) => Ok(Some(token)),
            Err(e) => Err(LoginError::Token(e)),
        },
    }
}

/// Answers the login form now.
pub fn auth(store: &mut SettingsStore, input: &LoginInput, secret: Option<&str>) -> (r: Result<
    Option<String>,
    LoginError,
>)
    ensures
        exists|now: i64|
            -CLOCK_LIMIT < now < CLOCK_LIMIT && #[trigger] signed_in(
                *old(store),
                *final(store),
                input@,
                secret_view(secret),
                now,
                answer_view(r),
            ),
{
    let now = unix_now();
    auth_at(store, input, secret, now)
}

/// What [`save_credential_at`] promises of its answer `r`, of the store
/// before and after the call.
///
/// With a token, or with the reason why none was issued, the credential is
/// stored and durable: the record of the form's user name is the hash of
/// the form's password under the store's salt. The hasher's refusal comes
/// exactly where the password is not hashable under the salt, and leaves
/// every record as it was.
pub open spec fn credential_saved(
    before: SettingsStore,
    after: SettingsStore,
    input: LoginInputView,
    secret: Option<Seq<char>>,
    now: i64,
    r: Result<Seq<char>, LoginError>,
) -> bool {
    match r {
        Ok(token) => {
            &&& exists|salt: Seq<char>|
                #[trigger] credential_stored(
                    before@,
                    after@,
                    input.username,
                    input.password,
                    salt,
                )
            &&& after.durable() == after@
            &&& issued(input.username, secret, now, Ok(token))
        },
        Err(LoginError::Token(e)) => {
            &&& exists|salt: Seq<char>|
                #[trigger] credential_stored(
                    before@,
                    after@,
                    input.username,
                    input.password,
                    salt,
                )
            &&& after.durable() == after@
            &&& issued(input.username, secret, now, Err(e))
        },
        Err(LoginError::Credential(CredentialError::Hashing)) => {
            &&& exists|salt: Seq<char>|
                #[trigger] credential_refused(before@, after@, input.password, salt)
            &&& settled(before, after)
        },
        Err(LoginError::Credential(CredentialError::Entropy)) => after@ == before@ && lookup(
            before@,
            SALT_KEY@,
        ) is None,
        Err(LoginError::Credential(CredentialError::Store(StoreError::Encoding))) => after@
            == before@ && lookup_text(before@, SALT_KEY@) is Err,
        Err(LoginError::Credential(CredentialError::Store(StoreError::Backend))) => true,
    }
}

/// View of the answer to a credential form.
pub open spec fn saved_view(r: Result<String, LoginError>) -> Result<Seq<char>, LoginError> {
    match r {
        Ok(token) => Ok(token@),
        Err(e) => Err(e),
    }
}

/// Answers the credential form at time `now`: the form's user name gets the
/// form's password, stored as [`set_credential`] stores it, and a session
/// token is issued for the user name.
pub fn save_credential_at(
    store: &mut SettingsStore,
    input: &LoginInput,
    secret: Option<&str>,
    now: i64,
) -> (r: Result<String, LoginError>)
    requires
        now + SESSION_SECONDS <= i64::MAX,
    ensures
        credential_saved(
            *old(store),
            *final(store),
            input@,
            secret_view(secret),
            now,
            saved_view(r),
        ),
{
    match set_credential(store, input.username.as_str(), input.password.as_str()) {
        Ok(()) => {
            proof {
                let salt = choose|salt: Seq<char>|
                    credential_stored(
                        old(store)@,
                        store@,
                        input.username@,
                        input.password@,
                        salt,
                    );
                assert(credential_stored(
                    old(store)@,
                    store@,
                    input@.username,
                    input@.password,
                    salt,
                ));
            }
        },
        Err(e) => {
            proof {
                if e == CredentialError::Hashing {
                    let salt = choose|salt: Seq<char>|
                        credential_refused(old(store)@, store@, input.password@, salt);
                    assert(credential_refused(old(store)@, store@, input@.password, salt));
                }
            }
            return Err(LoginError::Credential(e));
        },
    }
    match issue_at(input.username.as_str(), secret, now) {
        Ok(token) => Ok(token),
        Err(e) => Err(LoginError::Token(e)),
    }
}

/// Answers the credential form now.
pub fn save_credential(store: &mut SettingsStore, input: &LoginInput, secret: Option<&str>) -> (r:
    Result<String, LoginError>)
    ensures
        exists|now: i64|
            -CLOCK_LIMIT < now < CLOCK_LIMIT && #[trigger] credential_saved(
                *old(store),
                *final(store),
                input@,
                secret_view(secret),
                now,
                saved_view(r),
            ),
{
    let now = unix_now();
    save_credential_at(store, input, secret, now)
}

} // verus!
