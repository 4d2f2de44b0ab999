use pi_extender::store::{
    text_of, SettingsStore, StoreError, AP_INTERFACE_KEY, AP_PASSWORD_KEY, AP_SSID_KEY, SALT_KEY,
    SOURCE_PASSWORD_KEY, SOURCE_SSID_KEY,
};

fn empty_store() -> SettingsStore {
    SettingsStore::new(sled::Config::new().temporary(true).open().unwrap())
}

#[test]
fn keys_of_the_schema() {
    assert_eq!(SALT_KEY, "keys::SALT");
    assert_eq!(SOURCE_SSID_KEY, "source_ssid");
    assert_eq!(SOURCE_PASSWORD_KEY, "source_password");
    assert_eq!(AP_SSID_KEY, "ap_ssid");
    assert_eq!(AP_PASSWORD_KEY, "ap_password");
    assert_eq!(AP_INTERFACE_KEY, "ap_interface");
}

#[test]
fn empty_store_holds_nothing() {
    let store = empty_store();
    assert_eq!(store.get("anything").unwrap(), None);
    assert_eq!(store.get("").unwrap(), None);
    assert_eq!(store.get_text("anything").unwrap(), None);
    assert_eq!(store.contains_key("anything").unwrap(), false);
}

#[test]
fn insert_then_get() {
    let mut store = empty_store();
    store.insert("key", b"value").unwrap();
    assert_eq!(store.get("key").unwrap(), Some(b"value".to_vec()));
    assert_eq!(store.get_text("key").unwrap(), Some("value".to_string()));
    assert_eq!(store.contains_key("key").unwrap(), true);
    assert_eq!(store.get("key2").unwrap(), None);
    assert_eq!(store.get("ke").unwrap(), None);
}

#[test]
fn insert_replaces_and_leaves_other_keys() {
    let mut store = empty_store();
    store.insert("a", b"1").unwrap();
    store.insert("b", b"2").unwrap();
    store.insert("a", b"3").unwrap();
    assert_eq!(store.get("a").unwrap(), Some(b"3".to_vec()));
    assert_eq!(store.get("b").unwrap(), Some(b"2".to_vec()));
}

#[test]
fn empty_value_is_a_value() {
    let mut store = empty_store();
    store.insert("empty", b"").unwrap();
    assert_eq!(store.get("empty").unwrap(), Some(Vec::new()));
    assert_eq!(store.get_text("empty").unwrap(), Some(String::new()));
    assert_eq!(store.contains_key("empty").unwrap(), true);
}

#[test]
fn keys_are_stored_as_utf8() {
    let db = sled::Config::new().temporary(true).open().unwrap();
    db.insert("zoë".as_bytes(), b"v".as_ref()).unwrap();
    let store = SettingsStore::new(db);
    assert_eq!(store.get("zoë").unwrap(), Some(b"v".to_vec()));
    assert_eq!(store.get("zoe").unwrap(), None);
}

#[test]
fn value_that_is_not_utf8_is_bytes_but_not_text() {
    let mut store = empty_store();
    store.insert("raw", &[0x80, 0x81]).unwrap();
    assert_eq!(store.get("raw").unwrap(), Some(vec![0x80, 0x81]));
    assert_eq!(store.get_text("raw"), Err(StoreError::Encoding));
    // Overlong and surrogate encodings are not text either.
    store.insert("overlong", &[0xc0, 0xaf]).unwrap();
    assert_eq!(store.get_text("overlong"), Err(StoreError::Encoding));
    store.insert("surrogate", &[0xed, 0xa0, 0x80]).unwrap();
    assert_eq!(store.get_text("surrogate"), Err(StoreError::Encoding));
    store.insert("text", "日本語 é".as_bytes()).unwrap();
    assert_eq!(store.get_text("text").unwrap(), Some("日本語 é".to_string()));
}

#[test]
fn apply_makes_all_writes_the_last_one_winning() {
    let mut store = empty_store();
    store.insert("kept", b"as it was").unwrap();
    store.insert("a", b"old").unwrap();
    let writes = vec![
        (b"a".to_vec(), b"1".to_vec()),
        (b"b".to_vec(), b"2".to_vec()),
        (b"a".to_vec(), b"3".to_vec()),
    ];
    store.apply(&writes).unwrap();
    assert_eq!(store.get("a").unwrap(), Some(b"3".to_vec()));
    assert_eq!(store.get("b").unwrap(), Some(b"2".to_vec()));
    assert_eq!(store.get("kept").unwrap(), Some(b"as it was".to_vec()));
}

#[test]
fn apply_of_nothing_changes_nothing() {
    let mut store = empty_store();
    store.insert("a", b"1").unwrap();
    store.apply(&Vec::new()).unwrap();
    assert_eq!(store.get("a").unwrap(), Some(b"1".to_vec()));
}

#[test]
fn flush_keeps_the_entries() {
    let mut store = empty_store();
    store.insert("a", b"1").unwrap();
    assert_eq!(store.flush(), Ok(()));
    assert_eq!(store.get("a").unwrap(), Some(b"1".to_vec()));
}

#[test]
fn scan_prefix_lists_matching_entries_in_key_order() {
    let mut store = empty_store();
    store.insert("ap_ssid", b"Attic").unwrap();
    store.insert("ap", b"too short").unwrap();
    store.insert("ap_interface", b"wlan1").unwrap();
    store.insert("source_ssid", b"HomeNet").unwrap();
    store.insert("ap_", b"bare prefix").unwrap();
    store.insert("aq", b"after").unwrap();
    store.insert("ap_password", b"pw").unwrap();
    let found = store.scan_prefix("ap_").unwrap();
    assert_eq!(
        found,
        vec![
            (b"ap_".to_vec(), b"bare prefix".to_vec()),
            (b"ap_interface".to_vec(), b"wlan1".to_vec()),
            (b"ap_password".to_vec(), b"pw".to_vec()),
            (b"ap_ssid".to_vec(), b"Attic".to_vec()),
        ]
    );
}

#[test]
fn scan_prefix_of_nothing_and_of_everything() {
    let mut store = empty_store();
    assert_eq!(store.scan_prefix("ap_").unwrap(), Vec::new());
    store.insert("b", b"2").unwrap();
    store.insert("a", b"1").unwrap();
    assert_eq!(store.scan_prefix("c").unwrap(), Vec::new());
    assert_eq!(
        store.scan_prefix("").unwrap(),
        vec![(b"a".to_vec(), b"1".to_vec()), (b"b".to_vec(), b"2".to_vec())]
    );
}

#[test]
fn text_of_decodes_utf8_only() {
    assert_eq!(text_of(b"plain".to_vec()).unwrap(), "plain");
    assert_eq!(text_of("日本語".as_bytes().to_vec()).unwrap(), "日本語");
    assert_eq!(text_of(Vec::new()).unwrap(), "");
    assert_eq!(text_of(vec![0xff]), Err(StoreError::Encoding));
    assert_eq!(text_of(vec![b'a', 0xe2, 0x82]), Err(StoreError::Encoding));
}

#[test]
fn flush_after_writes_and_with_nothing_to_write() {
    let mut store = empty_store();
    assert_eq!(store.flush(), Ok(()));
    store.insert("a", b"1").unwrap();
    store.apply(&vec![(b"b".to_vec(), b"2".to_vec())]).unwrap();
    assert_eq!(store.flush(), Ok(()));
    assert_eq!(store.flush(), Ok(()));
    assert_eq!(store.get("a").unwrap(), Some(b"1".to_vec()));
    assert_eq!(store.get("b").unwrap(), Some(b"2".to_vec()));
}

#[test]
fn flushed_entries_are_there_when_the_database_is_opened_again() {
    let stamp = chrono::Utc::now().timestamp_nanos_opt().unwrap_or(0);
    let path = format!("/tmp/pi_extender_flush_{stamp}");
    {
        let db = sled::Config::new().path(&path).open().unwrap();
        let mut store = SettingsStore::new(db);
        store.insert("kept", b"across").unwrap();
        assert_eq!(store.flush(), Ok(()));
    }
    {
        // Opened as temporary this time, so that the files go when it closes.
        let db = sled::Config::new().path(&path).temporary(true).open().unwrap();
        let store = SettingsStore::new(db);
        assert_eq!(store.get("kept").unwrap(), Some(b"across".to_vec()));
        assert_eq!(store.get("never written").unwrap(), None);
    }
}
