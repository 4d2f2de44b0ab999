//! Credential service: the per-store salt, password hashing, the check of
//! a login against the stored record, and the storing of a new password.
//!
//! Hashing is done by `hsh` with Argon2i; the digest it computes is named by
//! [`argon2i_digest`]. A stored record is the text `salt:hex`, the digest in
//! lower-case hexadecimal.

use vstd::prelude::*;
use vstd::utf8::encode_utf8;
use crate::store::{
    key_bytes, lookup, lookup_text, settled, SettingsStore, StoreError, SALT_KEY,
};

verus! {

broadcast use {
    vstd::utf8::encode_utf8_valid_utf8,
    vstd::utf8::encode_utf8_decode_utf8,
    vstd::utf8::decode_utf8_encode_utf8,
};

/// Name of the account that is created on first use.
pub const DEFAULT_USERNAME: &'static str = "admin";

/// Password of the account that is created on first use.
pub const DEFAULT_PASSWORD: &'static str = "changeme";

/// Tag of the hashing algorithm.
pub const HASH_ALGORITHM: &'static str = "argon2i";

/// Number of characters of a new salt.
pub const SALT_LENGTH: usize = 10;

/// Why a credential operation gave no answer.
#[derive(Clone, Copy, Debug, PartialEq, Eq, Structural)]
pub enum CredentialError {
    /// The settings store failed, or holds a salt that is not text.
    Store(StoreError),
    /// No random salt could be drawn.
    Entropy,
    /// The hasher refused the password or the salt.
    Hashing,
}

/// `hsh::Error`, carried through as it is.
#[verifier::external_type_specification]
#[verifier::external_body]
pub struct ExHashError(hsh::Error);

/// The digest that `hsh` computes for `password` and `salt` with Argon2i,
/// where it accepts them.
pub uninterp spec fn argon2i_digest(password: Seq<char>, salt: Seq<char>) -> Seq<u8>;

/// Fewest bytes of a password, and of a salt, that the hasher accepts.
pub const MIN_HASH_INPUT: usize = 8;

/// Most bytes of a password, and of a salt, that the hasher accepts.
pub const MAX_HASH_INPUT: usize = 0xFFFF_FFFF;

/// Whether the hasher accepts `password` under `salt`: each of them, as
/// UTF-8, has at least [`MIN_HASH_INPUT`] and at most [`MAX_HASH_INPUT`]
/// bytes.
pub open spec fn hashable(password: Seq<char>, salt: Seq<char>) -> bool {
    &&& MIN_HASH_INPUT <= encode_utf8(password).len() <= MAX_HASH_INPUT
    &&& MIN_HASH_INPUT <= encode_utf8(salt).len() <= MAX_HASH_INPUT
}

/// The lower-case hexadecimal digits, in order.
pub open spec fn hex_digits() -> Seq<char> {
    seq!['0', '1', '2', '3', '4', '5', '6', '7', '8', '9', 'a', 'b', 'c', 'd', 'e', 'f']
}

/// The lower-case hexadecimal digit for `n`, which is below 16.
pub open spec fn hex_digit(n: int) -> char
    recommends
        0 <= n < 16,
{
    hex_digits()[n]
}

/// Two lower-case hexadecimal digits for each byte, the high one first.
pub open spec fn hex_lower(bytes: Seq<u8>) -> Seq<char> {
    Seq::new(
        2 * bytes.len(),
        |i: int|
            if i % 2 == 0 {
                hex_digit(bytes[i / 2] as int / 16)
            } else {
                hex_digit(bytes[i / 2] as int % 16)
            },
    )
}

/// The text of a record: the salt, a colon, the digest in hexadecimal.
pub open spec fn record_text(salt: Seq<char>, digest: Seq<u8>) -> Seq<char> {
    salt + seq![':'] + hex_lower(digest)
}

/// `hsh::models::hash::Hash::new` with the tag of Argon2i, followed by
/// `Hash::to_string_representation`.
///
/// Trusted, for that tag alone. The hasher answers exactly where
/// [`hashable`] holds: `Hash::new` refuses a password of fewer than eight
/// bytes, Argon2 a salt of fewer than eight and either of more than
/// `0xFFFFFFFF`, and with the fixed parameters nothing else fails. The text
/// is then the salt as given, a colon, and the digest in lower-case
/// hexadecimal.
#[verifier::external_body]
fn salted_hash(password: &str, salt: &str, algo: &str) -> (r: Result<String, hsh::Error>)
    requires
        algo@ == HASH_ALGORITHM@,
    ensures
        r is Ok <==> hashable(password@, salt@),
        r matches Ok(text) ==> text@ == record_text(salt@, argon2i_digest(password@, salt@)),
{
    match hsh::models::hash::Hash::new(password, salt, algo) {
        Ok(hash) => Ok(hash.to_string_representation()),
        Err(e) => Err(e),
    }
}

/// An ASCII letter or digit.
pub open spec fn is_alphanumeric(c: char) -> bool {
    ('a' <= c && c <= 'z') || ('A' <= c && c <= 'Z') || ('0' <= c && c <= '9')
}

/// A text of `len` ASCII letters and digits.
pub open spec fn is_salt_shaped(s: Seq<char>, len: int) -> bool {
    s.len() == len && forall|i: int| 0 <= i < s.len() ==> is_alphanumeric(#[trigger] s[i])
}

/// `hsh::models::hash::Hash::generate_random_string`.
///
/// Trusted. Which text comes back is left open; when one does, it has `len`
/// characters, each an ASCII letter or digit.
#[verifier::external_body]
fn random_alphanumeric(len: usize) -> (r: Result<String, hsh::Error>)
    ensures
        r matches Ok(s) ==> is_salt_shaped(s@, len as int),
{
    hsh::models::hash::Hash::generate_random_string(len)
}

/// What [`hash_password`] returns: the record text for `password` under
/// `salt`, or `None` where the hasher refuses them.
pub open spec fn spec_hash_password(password: Seq<char>, salt: Seq<char>) -> Option<Seq<char>> {
    if hashable(password, salt) {
        Some(record_text(salt, argon2i_digest(password, salt)))
    } else {
        None
    }
}

/// View of the result of [`hash_password`].
pub open spec fn hashed_view(r: Result<String, CredentialError>) -> Option<Seq<char>> {
    match r {
        Ok(text) => Some(text@),
        Err(_) => None,
    }
}

/// Hashes `password` under `salt` with Argon2i. The hasher refuses exactly
/// the passwords and salts that are not [`hashable`].
pub fn hash_password(password: &str, salt: &str) -> (r: Result<String, CredentialError>)
    ensures
        hashed_view(r) == spec_hash_password(password@, salt@),
        r matches Err(e) ==> e == CredentialError::Hashing,
{
    match salted_hash(password, salt, HASH_ALGORITHM) {
        Ok(text) => Ok(text),
        Err(_) => Err(CredentialError::Hashing),
    }
}

/// The entries once a salt is in place: as they are where they hold one,
/// else with `salt` stored under the salt key.
pub open spec fn salted(entries: Map<Seq<u8>, Seq<u8>>, salt: Seq<char>) -> Map<Seq<u8>, Seq<u8>> {
    if lookup(entries, SALT_KEY@) is Some {
        entries
    } else {
        entries.insert(key_bytes(SALT_KEY@), encode_utf8(salt))
    }
}

/// The salt that the entries hold, where they hold one that is text.
pub open spec fn salt_in_force(entries: Map<Seq<u8>, Seq<u8>>) -> Option<Seq<char>> {
    match lookup_text(entries, SALT_KEY@) {
        Ok(Some(salt)) => Some(salt),
        _ => None,
    }
}

/// What [`get_salt`] promises when it returns `salt`: the salt was there
/// and nothing changed, or it is new, of [`SALT_LENGTH`] letters and
/// digits, and now stored.
pub open spec fn salt_obtained(
    before: Map<Seq<u8>, Seq<u8>>,
    after: Map<Seq<u8>, Seq<u8>>,
    salt: Seq<char>,
) -> bool {
    &&& after == salted(before, salt)
    &&& salt_in_force(after) == Some(salt)
    &&& lookup(before, SALT_KEY@) is None ==> is_salt_shaped(salt, SALT_LENGTH as int)
}

/// Returns the store's salt. A store without one gets a new random salt,
/// which is written and flushed before it is returned: a new salt is handed
/// out only once it is durable.
///
/// On `Entropy` and on `Store(Encoding)` the store is unchanged; the first
/// comes only where there is no salt, the second only where the salt record
/// is not text.
pub fn get_salt(store: &mut SettingsStore) -> (r: Result<String, CredentialError>)
    ensures
        r matches Ok(salt) ==> salt_obtained(old(store)@, final(store)@, salt@) && settled(
            *old(store),
            *final(store),
        ),
        r matches Err(e) ==> e != CredentialError::Hashing,
        r matches Err(e) ==> e == CredentialError::Entropy ==> final(store)@ == old(store)@
            && lookup(old(store)@, SALT_KEY@) is None,
        r matches Err(e) ==> e == CredentialError::Store(StoreError::Encoding) ==> final(store)@
            == old(store)@ && lookup_text(old(store)@, SALT_KEY@) is Err,
{
    match store.get_text(SALT_KEY) {
        Err(e) => Err(CredentialError::Store(e)),
        Ok(Some(salt)) => Ok(salt),
        Ok(None) => match random_alphanumeric(SALT_LENGTH) {
            Err(_) => Err(CredentialError::Entropy),
            Ok(salt) => match store.insert(SALT_KEY, salt.as_str().as_bytes()) {
                Err(e) => Err(CredentialError::Store(e)),
                Ok(()) => match store.flush() {
                    Err(e) => Err(CredentialError::Store(e)),
                    Ok(()) => Ok(salt),
                },
            },
        },
    }
}

/// Asking for the salt twice gives the same salt, and the second answer
/// changes nothing.
pub proof fn law_get_salt_is_idempotent(
    before: Map<Seq<u8>, Seq<u8>>,
    between: Map<Seq<u8>, Seq<u8>>,
    after: Map<Seq<u8>, Seq<u8>>,
    first: Seq<char>,
    second: Seq<char>,
)
    requires
        salt_obtained(before, between, first),
        salt_obtained(between, after, second),
    ensures
        second == first,
        after == between,
{
}

/// The bytes of the default account's record under `salt`.
pub open spec fn default_record(salt: Seq<char>) -> Seq<u8> {
    encode_utf8(spec_hash_password(DEFAULT_PASSWORD@, salt)->0)
}

/// The entries once a login of `username` has been prepared: as they are
/// where `username` has a record, else with the default account's record
/// written under [`DEFAULT_USERNAME`].
pub open spec fn bootstrapped(
    entries: Map<Seq<u8>, Seq<u8>>,
    salt: Seq<char>,
    username: Seq<char>,
) -> Map<Seq<u8>, Seq<u8>> {
    if lookup(entries, username) is Some {
        entries
    } else {
        entries.insert(key_bytes(DEFAULT_USERNAME@), default_record(salt))
    }
}

/// Whether the record of `username` is the hash of `password` under `salt`.
pub open spec fn password_matches(
    entries: Map<Seq<u8>, Seq<u8>>,
    salt: Seq<char>,
    username: Seq<char>,
    password: Seq<char>,
) -> bool {
    &&& lookup(entries, username) is Some
    &&& spec_hash_password(password, salt) is Some
    &&& lookup(entries, username)->0 == encode_utf8(spec_hash_password(password, salt)->0)
}

/// What [`authenticate`] promises when it answers `granted`, of the entries
/// before and after the call: a salt is in force; the store was given that
/// salt where it had none, and the default account where `username` had no
/// record, and nothing else changed; every hash that was needed could be
/// computed; and `granted` says whether the record of `username` is the
/// hash of `password`.
pub open spec fn login_checked(
    before: Map<Seq<u8>, Seq<u8>>,
    after: Map<Seq<u8>, Seq<u8>>,
    username: Seq<char>,
    password: Seq<char>,
    granted: bool,
) -> bool {
    salt_in_force(after) matches Some(salt) && {
        let with_salt = salted(before, salt);
        &&& salt_obtained(before, with_salt, salt)
        &&& after == bootstrapped(with_salt, salt, username)
        &&& lookup(with_salt, username) is None ==> spec_hash_password(DEFAULT_PASSWORD@, salt)
            is Some
        &&& lookup(after, username) is Some ==> spec_hash_password(password, salt) is Some
        &&& granted == password_matches(after, salt, username, password)
    }
}

/// What [`authenticate`] promises when the hasher refuses: the salt is in
/// place, and either the default account could not be hashed and was not
/// written, or the login was prepared and the given password was refused.
pub open spec fn login_unhashable(
    before: Map<Seq<u8>, Seq<u8>>,
    after: Map<Seq<u8>, Seq<u8>>,
    username: Seq<char>,
    password: Seq<char>,
) -> bool {
    salt_in_force(after) matches Some(salt) && {
        let with_salt = salted(before, salt);
        ||| {
            &&& after == with_salt
            &&& lookup(after, username) is None
            &&& spec_hash_password(DEFAULT_PASSWORD@, salt) is None
        }
        ||| {
            &&& after == bootstrapped(with_salt, salt, username)
            &&& lookup(after, username) is Some
            &&& spec_hash_password(password, salt) is None
        }
    }
}

/// Whether the stored record `stored` is the hash text `hash`, byte for
/// byte.
pub fn record_matches(stored: &[u8], hash: &str) -> (same: bool)
    ensures
        same == (stored@ == encode_utf8(hash@)),
{
    let expected = hash.as_bytes();
    if stored.len() != expected.len() {
        return false;
    }
    let mut i: usize = 0;
    while i < stored.len()
        invariant
            i <= stored.len(),
            stored.len() == expected.len(),
            expected@ == encode_utf8(hash@),
            forall|j: int| 0 <= j < i ==> stored@[j] == expected@[j],
        decreases stored.len() - i,
    {
        if stored[i] != expected[i] {
            return false;
        }
        i += 1;
    }
    assert(stored@ =~= expected@);
    true
}

/// The salt key and the default account's key are different keys.
proof fn lemma_reserved_keys_differ()
    ensures
        key_bytes(DEFAULT_USERNAME@) != key_bytes(SALT_KEY@),
{
    reveal_strlit("admin");
    reveal_strlit("keys::SALT");
    assert(DEFAULT_USERNAME@.len() != SALT_KEY@.len());
    crate::store::lemma_key_bytes_injective(DEFAULT_USERNAME@, SALT_KEY@);
}

/// Checks a login against the stored record of `username`.
///
/// A store without a salt gets one first. What is written on the way is
/// flushed before the answer is given. Where `username` has no record,
/// the default account is written under [`DEFAULT_USERNAME`], with the hash
/// of [`DEFAULT_PASSWORD`], whatever the unknown name is; the login is then
/// checked against the record of `username`, and refused where there still
/// is none. The answer is `true` exactly when that record is the hash of
/// `password` under the store's salt.
pub fn authenticate(store: &mut SettingsStore, username: &str, password: &str) -> (r: Result<
    bool,
    CredentialError,
>)
    ensures
        r matches Ok(granted) ==> login_checked(
            old(store)@,
            final(store)@,
            username@,
            password@,
            granted,
        ) && settled(*old(store), *final(store)),
        r matches Err(e) ==> e == CredentialError::Hashing ==> login_unhashable(
            old(store)@,
            final(store)@,
            username@,
            password@,
        ),
        r matches Err(e) ==> e == CredentialError::Entropy ==> final(store)@ == old(store)@
            && lookup(old(store)@, SALT_KEY@) is None,
        r matches Err(e) ==> e == CredentialError::Store(StoreError::Encoding) ==> final(store)@
            == old(store)@ && lookup_text(old(store)@, SALT_KEY@) is Err,
{
    let salt = match get_salt(store) {
        Ok(salt) => salt,
        Err(e) => { return Err(e); },
    };
    let ghost with_salt = store@;
    proof {
        lemma_reserved_keys_differ();
    }
    let known = match store.contains_key(username) {
        Ok(known) => known,
        Err(e) => { return Err(CredentialError::Store(e)); },
    };
    if !known {
        let default = match hash_password(DEFAULT_PASSWORD, salt.as_str()) {
            Ok(text) => text,
            Err(e) => { return Err(e); },
        };
        match store.insert(DEFAULT_USERNAME, default.as_str().as_bytes()) {
            Ok(()) => {},
            Err(e) => { return Err(CredentialError::Store(e)); },
        }
        match store.flush() {
            Ok(()) => {},
            Err(e) => { return Err(CredentialError::Store(e)); },
        }
    }
    assert(store@ == bootstrapped(with_salt, salt@, username@));
    assert(salt_in_force(store@) == Some(salt@));
    let stored = match store.get(username) {
        Ok(Some(stored)) => stored,
        Ok(None) => { return Ok(false); },
        Err(e) => { return Err(CredentialError::Store(e)); },
    };
    let hash = match hash_password(password, salt.as_str()) {
        Ok(text) => text,
        Err(e) => { return Err(e); },
    };
    Ok(record_matches(stored.as_slice(), hash.as_str()))
}

/// The first login as the default account: in a store that has no record
/// for [`DEFAULT_USERNAME`], a login with [`DEFAULT_USERNAME`] and
/// [`DEFAULT_PASSWORD`] that is answered is granted, and the record is
/// there afterwards.
pub proof fn law_first_default_login_is_granted(
    before: Map<Seq<u8>, Seq<u8>>,
    after: Map<Seq<u8>, Seq<u8>>,
    granted: bool,
)
    requires
        lookup(before, DEFAULT_USERNAME@) is None,
        login_checked(before, after, DEFAULT_USERNAME@, DEFAULT_PASSWORD@, granted),
    ensures
        granted,
        salt_in_force(after) is Some,
        lookup(after, DEFAULT_USERNAME@) == Some(default_record(salt_in_force(after)->0)),
{
    lemma_reserved_keys_differ();
}

/// A login of a name that has a record, in a store that has a salt, leaves
/// every entry as it is, whatever the password and the answer.
pub proof fn law_login_of_known_name_changes_nothing(
    before: Map<Seq<u8>, Seq<u8>>,
    after: Map<Seq<u8>, Seq<u8>>,
    username: Seq<char>,
    password: Seq<char>,
    granted: bool,
)
    requires
        lookup(before, SALT_KEY@) is Some,
        lookup(before, username) is Some,
        login_checked(before, after, username, password, granted),
    ensures
        after == before,
{
}

/// Any login of a name without a record leaves the default account's
/// record under [`DEFAULT_USERNAME`], not under the name that was given.
pub proof fn law_unknown_name_bootstraps_default_account(
    before: Map<Seq<u8>, Seq<u8>>,
    after: Map<Seq<u8>, Seq<u8>>,
    username: Seq<char>,
    password: Seq<char>,
    granted: bool,
)
    requires
        lookup(before, username) is None,
        username != SALT_KEY@,
        login_checked(before, after, username, password, granted),
    ensures
        lookup(after, DEFAULT_USERNAME@) == Some(default_record(salt_in_force(after)->0)),
        username != DEFAULT_USERNAME@ ==> !granted && lookup(after, username) is None,
{
    lemma_reserved_keys_differ();
    crate::store::lemma_key_bytes_injective(username, SALT_KEY@);
    crate::store::lemma_key_bytes_injective(username, DEFAULT_USERNAME@);
}

/// The entries once `username` has the hash of `password` under `salt` as
/// its record.
pub open spec fn recorded(
    entries: Map<Seq<u8>, Seq<u8>>,
    salt: Seq<char>,
    username: Seq<char>,
    password: Seq<char>,
) -> Map<Seq<u8>, Seq<u8>> {
    entries.insert(key_bytes(username), encode_utf8(spec_hash_password(password, salt)->0))
}

/// What [`set_credential`] promises when it succeeds, of the entries before
/// and after the call and of the salt in force: the store was given that
/// salt where it had none, the hasher accepted the password, and the record
/// of `username` is now the hash of `password` under the salt. Nothing else
/// changed.
pub open spec fn credential_stored(
    before: Map<Seq<u8>, Seq<u8>>,
    after: Map<Seq<u8>, Seq<u8>>,
    username: Seq<char>,
    password: Seq<char>,
    salt: Seq<char>,
) -> bool {
    &&& salt_obtained(before, salted(before, salt), salt)
    &&& hashable(password, salt)
    &&& after == recorded(salted(before, salt), salt, username, password)
}

/// What [`set_credential`] promises when the hasher refuses: the salt is in
/// place, nothing else changed, and the password is not [`hashable`] under
/// the salt.
pub open spec fn credential_refused(
    before: Map<Seq<u8>, Seq<u8>>,
    after: Map<Seq<u8>, Seq<u8>>,
    password: Seq<char>,
    salt: Seq<char>,
) -> bool {
    &&& salt_obtained(before, after, salt)
    &&& !hashable(password, salt)
}

/// Gives `username` the password `password`: the record of `username`
/// becomes the hash of `password` under the store's salt, and is flushed.
/// A store without a salt gets one first. The password itself is not
/// written.
///
/// The hasher's refusal is returned exactly when the password is not
/// [`hashable`] under the salt; the record of `username` is then as it was.
pub fn set_credential(store: &mut SettingsStore, username: &str, password: &str) -> (r: Result<
    (),
    CredentialError,
>)
    ensures
        r is Ok ==> final(store).durable() == final(store)@ && exists|salt: Seq<char>|
            #[trigger] credential_stored(old(store)@, final(store)@, username@, password@, salt),
        r matches Err(e) ==> e == CredentialError::Hashing ==> settled(
            *old(store),
            *final(store),
        ) && exists|salt: Seq<char>|
            #[trigger] credential_refused(old(store)@, final(store)@, password@, salt),
        r matches Err(e) ==> e == CredentialError::Entropy ==> final(store)@ == old(store)@
            && lookup(old(store)@, SALT_KEY@) is None,
        r matches Err(e) ==> e == CredentialError::Store(StoreError::Encoding) ==> final(store)@
            == old(store)@ && lookup_text(old(store)@, SALT_KEY@) is Err,
{
    let salt = match get_salt(store) {
        Ok(salt) => salt,
        Err(e) => { return Err(e); },
    };
    let record = match hash_password(password, salt.as_str()) {
        Ok(text) => text,
        Err(e) => {
            assert(credential_refused(old(store)@, store@, password@, salt@));
            return Err(e);
        },
    };
    match store.insert(username, record.as_str().as_bytes()) {
        Ok(()) => {},
        Err(e) => { return Err(CredentialError::Store(e)); },
    }
    match store.flush() {
        Ok(()) => {},
        Err(e) => { return Err(CredentialError::Store(e)); },
    }
    assert(credential_stored(old(store)@, store@, username@, password@, salt@));
    Ok(())
}

/// What was stored is what a login is checked against: once a credential
/// is stored under a name other than the salt's key, a login with that name
/// and password is granted, and changes nothing.
pub proof fn law_stored_credential_signs_in(
    before: Map<Seq<u8>, Seq<u8>>,
    after: Map<Seq<u8>, Seq<u8>>,
    username: Seq<char>,
    password: Seq<char>,
    salt: Seq<char>,
)
    requires
        credential_stored(before, after, username, password, salt),
        username != SALT_KEY@,
    ensures
        salt_in_force(after) == Some(salt),
        lookup(after, username) == Some(encode_utf8(spec_hash_password(password, salt)->0)),
        password_matches(after, salt, username, password),
        login_checked(after, after, username, password, true),
{
    crate::store::lemma_key_bytes_injective(username, SALT_KEY@);
}

/// Storing a credential writes the record of the user name and, where
/// there was none, the salt: every other entry is as it was, so the
/// password is written nowhere.
pub proof fn law_set_credential_writes_one_record(
    before: Map<Seq<u8>, Seq<u8>>,
    after: Map<Seq<u8>, Seq<u8>>,
    username: Seq<char>,
    password: Seq<char>,
    salt: Seq<char>,
    key: Seq<u8>,
)
    requires
        credential_stored(before, after, username, password, salt),
        key != key_bytes(username),
        key != key_bytes(SALT_KEY@),
    ensures
        after.contains_key(key) == before.contains_key(key),
        before.contains_key(key) ==> after[key] == before[key],
        after[key_bytes(username)] == encode_utf8(record_text(salt, argon2i_digest(password, salt))),
{
}

/// The default account can always be set up under a new salt: the hasher
/// accepts the default password under every salt of [`SALT_LENGTH`] letters
/// and digits.
pub proof fn law_default_account_is_hashable(salt: Seq<char>)
    requires
        is_salt_shaped(salt, SALT_LENGTH as int),
    ensures
        hashable(DEFAULT_PASSWORD@, salt),
        spec_hash_password(DEFAULT_PASSWORD@, salt) is Some,
{
    reveal_strlit("changeme");
    assert(vstd::utf8::is_ascii_chars(DEFAULT_PASSWORD@));
    assert(vstd::utf8::is_ascii_chars(salt)) by {
        assert forall|i: int| 0 <= i < salt.len() implies '\0' <= #[trigger] salt[i] <= '\u{7f}' by {
            assert(is_alphanumeric(salt[i]));
        }
    }
    vstd::utf8::is_ascii_chars_encode_utf8(DEFAULT_PASSWORD@);
    vstd::utf8::is_ascii_chars_encode_utf8(salt);
}

/// No hexadecimal text holds a colon.
pub proof fn lemma_hex_has_no_colon(bytes: Seq<u8>, i: int)
    requires
        0 <= i < hex_lower(bytes).len(),
    ensures
        hex_lower(bytes)[i] != ':',
{
    let high = bytes[i / 2] as int / 16;
    let low = bytes[i / 2] as int % 16;
    assert(forall|n: int| 0 <= n < 16 ==> hex_digits()[n] != ':');
    assert(0 <= high < 16 && 0 <= low < 16);
}

/// A record text tells its salt: records of different salts differ.
pub proof fn lemma_record_text_tells_salt(s1: Seq<char>, d1: Seq<u8>, s2: Seq<char>, d2: Seq<u8>)
    requires
        s1 != s2,
    ensures
        record_text(s1, d1) != record_text(s2, d2),
{
    let t1 = record_text(s1, d1);
    let t2 = record_text(s2, d2);
    assert(t1.len() == s1.len() + 1 + hex_lower(d1).len());
    assert(t2.len() == s2.len() + 1 + hex_lower(d2).len());
    if t1 == t2 {
        if s1.len() == s2.len() {
            assert(s1 =~= t1.subrange(0, s1.len() as int));
            assert(s2 =~= t2.subrange(0, s2.len() as int));
        } else if s1.len() < s2.len() {
            // The colon that ends `s2` would lie in the digits after `s1`.
            let k = s2.len() - s1.len() - 1;
            assert(t2[s2.len() as int] == ':');
            assert(t1[s2.len() as int] == hex_lower(d1)[k]);
            lemma_hex_has_no_colon(d1, k);
        } else {
            let k = s1.len() - s2.len() - 1;
            assert(t1[s1.len() as int] == ':');
            assert(t2[s1.len() as int] == hex_lower(d2)[k]);
            lemma_hex_has_no_colon(d2, k);
        }
    }
}

/// Hashing is a function of the password and the salt, and the hash tells
/// the salt: under two different salts one password never has the same
/// hash.
pub proof fn law_hash_password_is_pure(
    password: Seq<char>,
    salt: Seq<char>,
    other_salt: Seq<char>,
    first: Result<String, CredentialError>,
    second: Result<String, CredentialError>,
)
    requires
        hashed_view(first) == spec_hash_password(password, salt),
    ensures
        hashed_view(second) == spec_hash_password(password, salt) ==> hashed_view(first)
            == hashed_view(second),
        salt != other_salt && hashed_view(first) is Some && hashed_view(second)
            == spec_hash_password(password, other_salt) ==> hashed_view(first) != hashed_view(
            second,
        ),
{
    if salt != other_salt && hashed_view(first) is Some && hashed_view(second)
        == spec_hash_password(password, other_salt) && hashed_view(second) is Some {
        lemma_record_text_tells_salt(
            salt,
            argon2i_digest(password, salt),
            other_salt,
            argon2i_digest(password, other_salt),
        );
    }
}

} // verus!
