//! Settings store: the persistent mapping from keys to byte values that
//! holds the credentials and the wireless parameters.
//!
//! The mapping lives in a `sled` database. The store owns its handle, and
//! its contracts read the database as a mathematical map that only this
//! handle writes to. Beside the entries stand the durable entries: what the
//! database would hold again after a crash. A write changes the entries; a
//! flush that the database confirms makes them durable.

use vstd::prelude::*;
use vstd::utf8::{decode_utf8, encode_utf8, valid_utf8};

verus! {

broadcast use {
    vstd::utf8::encode_utf8_valid_utf8,
    vstd::utf8::encode_utf8_decode_utf8,
    vstd::utf8::decode_utf8_encode_utf8,
};

/// Key of the salt record.
pub const SALT_KEY: &'static str = "keys::SALT";

/// Key of the upstream network's SSID.
pub const SOURCE_SSID_KEY: &'static str = "source_ssid";

/// Key of the upstream network's password.
pub const SOURCE_PASSWORD_KEY: &'static str = "source_password";

/// Key of the access point's SSID.
pub const AP_SSID_KEY: &'static str = "ap_ssid";

/// Key of the access point's password.
pub const AP_PASSWORD_KEY: &'static str = "ap_password";

/// Key of the interface the access point runs on.
pub const AP_INTERFACE_KEY: &'static str = "ap_interface";

/// Why a store operation gave no answer.
#[derive(Clone, Copy, Debug, PartialEq, Eq, Structural)]
pub enum StoreError {
    /// The database reported a failure.
    Backend,
    /// A value that has to be text is not UTF-8.
    Encoding,
}

/// `sled::Db`, the handle on an open database. What it holds is read
/// through [`db_entries`].
#[verifier::external_type_specification]
#[verifier::external_body]
pub struct ExDb(sled::Db);

/// `sled::Error`, carried through as it is.
#[verifier::external_type_specification]
#[verifier::external_body]
pub struct ExDbError(sled::Error);

/// The entries of a database's default tree: each key with its value.
pub uninterp spec fn db_entries(db: sled::Db) -> Map<Seq<u8>, Seq<u8>>;

/// The durable entries of a database: those it is known to recover after a
/// crash. Only a confirmed flush says what they are.
pub uninterp spec fn db_durable(db: sled::Db) -> Map<Seq<u8>, Seq<u8>>;

/// `sled::Tree::get`, the value copied out of the database's buffer.
///
/// Trusted: an answer is the entry under `key`, or `None` where there is no
/// such entry. Nothing is claimed when the database reports a failure.
#[verifier::external_body]
fn db_get(db: &sled::Db, key: &[u8]) -> (r: Result<Option<Vec<u8>>, sled::Error>)
    ensures
        r matches Ok(Some(v)) ==> db_entries(*db).contains_key(key@) && db_entries(*db)[key@] == v@,
        r matches Ok(None) ==> !db_entries(*db).contains_key(key@),
{
    match db.get(key) {
        Ok(Some(value)) => Ok(Some(value.to_vec())),
        Ok(None) => Ok(None),
        Err(e) => Err(e),
    }
}

/// `sled::Tree::insert`, the previous value dropped.
///
/// Trusted: on success the entry under `key` is `value` and every other
/// entry is as before. Nothing is claimed of the entries after a failure.
#[verifier::external_body]
fn db_insert(db: &mut sled::Db, key: &[u8], value: &[u8]) -> (r: Result<(), sled::Error>)
    ensures
        r is Ok ==> db_entries(*final(db)) == db_entries(*old(db)).insert(key@, value@),
{
    match db.insert(key, value) {
        Ok(_) => Ok(()),
        Err(e) => Err(e),
    }
}

/// The entries after `writes` have been made in order, a later write to a
/// key replacing an earlier one.
pub open spec fn written(entries: Map<Seq<u8>, Seq<u8>>, writes: Seq<(Seq<u8>, Seq<u8>)>) -> Map<
    Seq<u8>,
    Seq<u8>,
>
    decreases writes.len(),
{
    if writes.len() == 0 {
        entries
    } else {
        written(entries, writes.drop_last()).insert(writes.last().0, writes.last().1)
    }
}

/// The byte view of a list of writes.
pub open spec fn writes_view(writes: Seq<(Vec<u8>, Vec<u8>)>) -> Seq<(Seq<u8>, Seq<u8>)> {
    Seq::new(writes.len(), |i: int| (writes[i].0@, writes[i].1@))
}

/// `sled::Batch::insert` for each write in order, then
/// `sled::Tree::apply_batch`.
///
/// Trusted: on success all writes are in the database, a later write to a
/// key replacing an earlier one, and every other entry is as before.
/// Nothing is claimed of the entries after a failure.
#[verifier::external_body]
fn db_apply(db: &mut sled::Db, writes: &Vec<(Vec<u8>, Vec<u8>)>) -> (r: Result<(), sled::Error>)
    ensures
        r is Ok ==> db_entries(*final(db)) == written(db_entries(*old(db)), writes_view(writes@)),
{
    let mut batch = sled::Batch::default();
    for (key, value) in writes.iter() {
        batch.insert(key.as_slice(), value.as_slice());
    }
    db.apply_batch(batch)
}

/// Whether `key` begins with `prefix`.
pub open spec fn has_prefix(key: Seq<u8>, prefix: Seq<u8>) -> bool {
    prefix.len() <= key.len() && key.subrange(0, prefix.len() as int) == prefix
}

/// Whether `a` comes strictly before `b` in the order of the database's
/// keys: byte by byte, a proper prefix before what it is a prefix of.
pub open spec fn precedes(a: Seq<u8>, b: Seq<u8>) -> bool
    decreases a.len(),
{
    if b.len() == 0 {
        false
    } else if a.len() == 0 {
        true
    } else if a[0] != b[0] {
        a[0] < b[0]
    } else {
        precedes(a.drop_first(), b.drop_first())
    }
}

/// Whether `found` lists the entries whose key begins with `prefix`: each
/// of them, nothing else, in ascending order of the keys.
pub open spec fn lists_prefix(
    entries: Map<Seq<u8>, Seq<u8>>,
    prefix: Seq<u8>,
    found: Seq<(Seq<u8>, Seq<u8>)>,
) -> bool {
    &&& forall|i: int|
        0 <= i < found.len() ==> has_prefix((#[trigger] found[i]).0, prefix)
            && entries.contains_key(found[i].0) && entries[found[i].0] == found[i].1
    &&& forall|key: Seq<u8>|
        #[trigger] entries.contains_key(key) && has_prefix(key, prefix) ==> exists|i: int|
            0 <= i < found.len() && (#[trigger] found[i]).0 == key
    &&& forall|i: int, j: int|
        0 <= i < j < found.len() ==> precedes((#[trigger] found[i]).0, (#[trigger] found[j]).0)
}

/// `sled::Tree::scan_prefix`, each item copied out of the database's
/// buffer, up to the first item that the iterator reports as failed.
///
/// Trusted: an answer lists the entries whose key begins with `prefix`, all
/// of them, in ascending order of the keys. Nothing is claimed when the
/// database reports a failure.
#[verifier::external_body]
fn db_scan(db: &sled::Db, prefix: &[u8]) -> (r: Result<Vec<(Vec<u8>, Vec<u8>)>, sled::Error>)
    ensures
        r matches Ok(found) ==> lists_prefix(db_entries(*db), prefix@, writes_view(found@)),
{
    db.scan_prefix(prefix).map(|item| item.map(|(key, value)| (key.to_vec(), value.to_vec()))).collect()
}

/// `sled::Tree::flush`, the byte count dropped.
///
/// Trusted: flushing leaves the entries as they are, and when it succeeds
/// all writes before it will be recovered after a crash, so the durable
/// entries are then the entries. Nothing is claimed of the durable entries
/// after a failure.
#[verifier::external_body]
fn db_flush(db: &mut sled::Db) -> (r: Result<(), sled::Error>)
    ensures
        db_entries(*final(db)) == db_entries(*old(db)),
        r is Ok ==> db_durable(*final(db)) == db_entries(*final(db)),
{
    match db.flush() {
        Ok(_) => Ok(()),
        Err(e) => Err(e),
    }
}

/// `String::from_utf8`.
///
/// Trusted: the bytes are text exactly when they are valid UTF-8, and the
/// text is then what they decode to.
#[verifier::external_body]
fn text_from_utf8(bytes: Vec<u8>) -> (r: Option<String>)
    ensures
        r is Some <==> valid_utf8(bytes@),
        r matches Some(s) ==> s@ == decode_utf8(bytes@),
{
    match String::from_utf8(bytes) {
        Ok(s) => Some(s),
        Err(_) => None,
    }
}

/// The bytes under which the text `key` is stored.
pub open spec fn key_bytes(key: Seq<char>) -> Seq<u8> {
    encode_utf8(key)
}

/// The value stored under the text key `key`, if there is one.
pub open spec fn lookup(entries: Map<Seq<u8>, Seq<u8>>, key: Seq<char>) -> Option<Seq<u8>> {
    if entries.contains_key(key_bytes(key)) {
        Some(entries[key_bytes(key)])
    } else {
        None
    }
}

/// The text stored under `key`: `Ok(None)` where there is no entry,
/// `Err(Encoding)` where the entry is not UTF-8.
pub open spec fn lookup_text(entries: Map<Seq<u8>, Seq<u8>>, key: Seq<char>) -> Result<
    Option<Seq<char>>,
    StoreError,
> {
    match lookup(entries, key) {
        None => Ok(None),
        Some(bytes) => if valid_utf8(bytes) {
            Ok(Some(decode_utf8(bytes)))
        } else {
            Err(StoreError::Encoding)
        },
    }
}

/// The text that `bytes` hold, where they are UTF-8.
pub fn text_of(bytes: Vec<u8>) -> (r: Result<String, StoreError>)
    ensures
        r matches Ok(text) ==> valid_utf8(bytes@) && text@ == decode_utf8(bytes@) && encode_utf8(
            text@,
        ) == bytes@,
        r matches Err(e) ==> e == StoreError::Encoding && !valid_utf8(bytes@),
{
    match text_from_utf8(bytes) {
        Some(text) => Ok(text),
        None => Err(StoreError::Encoding),
    }
}

/// View of an optional text.
pub open spec fn text_view(text: Option<String>) -> Option<Seq<char>> {
    match text {
        Some(s) => Some(s@),
        None => None,
    }
}

/// Different text keys are stored under different bytes.
pub proof fn lemma_key_bytes_injective(a: Seq<char>, b: Seq<char>)
    ensures
        key_bytes(a) == key_bytes(b) <==> a == b,
{
    if key_bytes(a) == key_bytes(b) {
        assert(decode_utf8(encode_utf8(a)) == a);
        assert(decode_utf8(encode_utf8(b)) == b);
    }
}

/// Handle on the settings database.
pub struct SettingsStore {
    db: sled::Db,
}

/// Whether the store is settled after an operation that flushes what it
/// writes: the entries are durable as they now stand, or nothing was
/// written and what is durable is as before. Entries that changed are
/// therefore always durable.
pub open spec fn settled(before: SettingsStore, after: SettingsStore) -> bool {
    ||| after.durable() == after@
    ||| after@ == before@ && after.durable() == before.durable()
}

impl View for SettingsStore {
    type V = Map<Seq<u8>, Seq<u8>>;

    closed spec fn view(&self) -> Map<Seq<u8>, Seq<u8>> {
        db_entries(self.db)
    }
}

impl SettingsStore {
    /// The durable entries: what the store would hold again after a crash.
    pub closed spec fn durable(&self) -> Map<Seq<u8>, Seq<u8>> {
        db_durable(self.db)
    }

    /// Takes over an opened database. The handle must not be shared with
    /// another writer.
    pub fn new(db: sled::Db) -> (store: Self)
        ensures
            store@ == db_entries(db),
            store.durable() == db_durable(db),
    {
        SettingsStore { db }
    }

    /// The value stored under `key`.
    pub fn get(&self, key: &str) -> (r: Result<Option<Vec<u8>>, StoreError>)
        ensures
            r matches Ok(found) ==> match found {
                Some(v) => lookup(self@, key@) == Some(v@),
                None => lookup(self@, key@) is None,
            },
            r matches Err(e) ==> e == StoreError::Backend,
    {
        match db_get(&self.db, key.as_bytes()) {
            Ok(found) => Ok(found),
            Err(_) => Err(StoreError::Backend),
        }
    }

    /// The text stored under `key`.
    pub fn get_text(&self, key: &str) -> (r: Result<Option<String>, StoreError>)
        ensures
            r matches Ok(found) ==> (lookup_text(self@, key@) matches Ok(t) && t == text_view(found)),
            r matches Err(e) ==> (e == StoreError::Encoding ==> lookup_text(self@, key@) is Err),
    {
        match self.get(key) {
            Err(e) => Err(e),
            Ok(None) => Ok(None),
            Ok(Some(bytes)) => match text_of(bytes) {
                Ok(text) => Ok(Some(text)),
                Err(e) => Err(e),
            },
        }
    }

    /// Whether there is an entry under `key`.
    pub fn contains_key(&self, key: &str) -> (r: Result<bool, StoreError>)
        ensures
            r matches Ok(b) ==> b == lookup(self@, key@) is Some,
            r matches Err(e) ==> e == StoreError::Backend,
    {
        match self.get(key) {
            Ok(found) => Ok(found.is_some()),
            Err(e) => Err(e),
        }
    }

    /// Stores `value` under `key`, replacing what was there.
    pub fn insert(&mut self, key: &str, value: &[u8]) -> (r: Result<(), StoreError>)
        ensures
            r is Ok ==> final(self)@ == old(self)@.insert(key_bytes(key@), value@),
            r matches Err(e) ==> e == StoreError::Backend,
    {
        match db_insert(&mut self.db, key.as_bytes(), value) {
            Ok(()) => Ok(()),
            Err(_) => Err(StoreError::Backend),
        }
    }

    /// Makes all `writes` at once, in order.
    pub fn apply(&mut self, writes: &Vec<(Vec<u8>, Vec<u8>)>) -> (r: Result<(), StoreError>)
        ensures
            r is Ok ==> final(self)@ == written(old(self)@, writes_view(writes@)),
            r matches Err(e) ==> e == StoreError::Backend,
    {
        match db_apply(&mut self.db, writes) {
            Ok(()) => Ok(()),
            Err(_) => Err(StoreError::Backend),
        }
    }

    /// The entries whose key begins with `prefix`, in ascending order of
    /// the keys.
    pub fn scan_prefix(&self, prefix: &str) -> (r: Result<Vec<(Vec<u8>, Vec<u8>)>, StoreError>)
        ensures
            r matches Ok(found) ==> lists_prefix(self@, key_bytes(prefix@), writes_view(found@)),
            r matches Err(e) ==> e == StoreError::Backend,
    {
        match db_scan(&self.db, prefix.as_bytes()) {
            Ok(found) => Ok(found),
            Err(_) => Err(StoreError::Backend),
        }
    }

    /// Makes the writes so far durable. The entries stay as they are; when
    /// the database confirms the flush, they are durable, and when it does
    /// not, the failure is reported and nothing is known of what is.
    pub fn flush(&mut self) -> (r: Result<(), StoreError>)
        ensures
            final(self)@ == old(self)@,
            r is Ok ==> final(self).durable() == final(self)@,
            r matches Err(e) ==> e == StoreError::Backend,
    {
        match db_flush(&mut self.db) {
            Ok(()) => Ok(()),
            Err(_) => Err(StoreError::Backend),
        }
    }
}

} // verus!
