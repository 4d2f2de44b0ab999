//! Plain data carried between the web layer and the services.

use vstd::prelude::*;

verus! {

/// Payload of a session token.
#[derive(Clone, Debug, PartialEq, Eq)]
pub struct Claims {
    /// Subject: the user the session belongs to.
    pub sub: String,
    /// Expiry, in seconds since the Unix epoch.
    pub exp: i64,
    /// Time of issue, in seconds since the Unix epoch.
    pub iat: i64,
}

/// Mathematical content of a [`Claims`].
pub struct ClaimsView {
    pub sub: Seq<char>,
    pub exp: i64,
    pub iat: i64,
}

impl View for Claims {
    type V = ClaimsView;

    open spec fn view(&self) -> ClaimsView {
        ClaimsView { sub: self.sub@, exp: self.exp, iat: self.iat }
    }
}

/// Identity established by the guard for the lifetime of one request.
#[derive(Clone, Debug, PartialEq, Eq)]
pub struct AuthenticatedUser {
    pub user_id: String,
}

impl View for AuthenticatedUser {
    type V = Seq<char>;

    open spec fn view(&self) -> Seq<char> {
        self.user_id@
    }
}

/// Fields of the login form and of the credential form.
#[derive(Clone, Debug, PartialEq, Eq)]
pub struct LoginInput {
    pub username: String,
    pub password: String,
}

/// Mathematical content of a [`LoginInput`].
pub struct LoginInputView {
    pub username: Seq<char>,
    pub password: Seq<char>,
}

impl View for LoginInput {
    type V = LoginInputView;

    open spec fn view(&self) -> LoginInputView {
        LoginInputView { username: self.username@, password: self.password@ }
    }
}

/// Fields of the wireless settings form: the upstream network to join,
/// which is not stored, and the access point to run, which is.
#[derive(Clone, Debug, PartialEq, Eq)]
pub struct WirelessInput {
    pub source_ssid: String,
    pub source_password: String,
    pub ap_ssid: String,
    pub ap_password: String,
    pub ap_interface: String,
}

/// Mathematical content of a [`WirelessInput`].
pub struct WirelessInputView {
    pub source_ssid: Seq<char>,
    pub source_password: Seq<char>,
    pub ap_ssid: Seq<char>,
    pub ap_password: Seq<char>,
    pub ap_interface: Seq<char>,
}

impl View for WirelessInput {
    type V = WirelessInputView;

    open spec fn view(&self) -> WirelessInputView {
        WirelessInputView {
            source_ssid: self.source_ssid@,
            source_password: self.source_password@,
            ap_ssid: self.ap_ssid@,
            ap_password: self.ap_password@,
            ap_interface: self.ap_interface@,
        }
    }
}

/// A freshly issued token, as handed to a client.
#[derive(Clone, Debug, PartialEq, Eq)]
pub struct TokenResponse {
    token: String,
}

impl TokenResponse {
    pub closed spec fn spec_token(&self) -> Seq<char> {
        self.token@
    }

    pub fn new(token: String) -> (r: Self)
        ensures
            r.spec_token() == token@,
    {
        TokenResponse { token }
    }

    pub fn token(&self) -> (t: &str)
        ensures
            t@ == self.spec_token(),
    {
        self.token.as_str()
    }
}

} // verus!
