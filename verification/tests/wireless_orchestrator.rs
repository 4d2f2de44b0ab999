use pi_extender::command::Command;
use pi_extender::reconcile::{judge_exit, CommandError, Outcome, Reconciliation};
use pi_extender::store::{SettingsStore, StoreError};
use pi_extender::structs::WirelessInput;
use pi_extender::wireless::{
    access_point_entries, bring_up, connect_upstream, texts_of, get_interfaces, initialize_ap, initialize_wireless,
    read_access_point, read_upstream, resolve_access_point, resolve_upstream, save_wireless,
    settings_change_actions, startup_actions, AccessPoint, Action, Upstream,
    DEFAULT_AP_INTERFACE, DEFAULT_AP_PASSWORD, DEFAULT_AP_SSID,
};

fn empty_store() -> SettingsStore {
    SettingsStore::new(sled::Config::new().temporary(true).open().unwrap())
}

fn strings(words: &[&str]) -> Vec<String> {
    words.iter().map(|w| w.to_string()).collect()
}

fn assert_start(action: &Action, want_ssid: &str, want_password: &str, want_interface: &str) {
    match action {
        Action::StartAccessPoint(ap) => {
            assert_eq!(ap.ssid, want_ssid);
            assert_eq!(ap.password, want_password);
            assert_eq!(ap.interface, want_interface);
        }
        other => panic!("expected the access point to be started, got {other:?}"),
    }
}

fn run_of(action: &Action) -> &Command {
    match action {
        Action::Run(command) => command,
        other => panic!("expected a command to run, got {other:?}"),
    }
}

#[test]
fn defaults() {
    assert_eq!(DEFAULT_AP_SSID, "pi-extender");
    assert_eq!(DEFAULT_AP_PASSWORD, "changeme");
    assert_eq!(DEFAULT_AP_INTERFACE, "wlan0");
}

#[test]
fn empty_store_uses_all_three_defaults() {
    let store = empty_store();
    let ap = read_access_point(&store).unwrap();
    assert_eq!(ap.ssid, "pi-extender");
    assert_eq!(ap.password, "changeme");
    assert_eq!(ap.interface, "wlan0");
}

#[test]
fn store_with_only_the_ssid_uses_the_other_defaults() {
    let mut store = empty_store();
    store.insert("ap_ssid", b"Attic").unwrap();
    let ap = read_access_point(&store).unwrap();
    assert_eq!(ap.ssid, "Attic");
    assert_eq!(ap.password, "changeme");
    assert_eq!(ap.interface, "wlan0");

    let plan = initialize_ap(&store).unwrap();
    assert_eq!(plan.len(), 2);
    assert_start(&plan[0], "Attic", "changeme", "wlan0");
    assert_eq!(run_of(&plan[1]).program, "iwconfig");
    assert_eq!(run_of(&plan[1]).args, strings(&["wlan0", "power", "off"]));
}

#[test]
fn fully_stored_access_point_is_used_as_stored() {
    let mut store = empty_store();
    store.insert("ap_ssid", b"Attic").unwrap();
    store.insert("ap_password", b"under the roof").unwrap();
    store.insert("ap_interface", b"wlan1").unwrap();
    let plan = initialize_ap(&store).unwrap();
    assert_eq!(plan.len(), 2);
    assert_start(&plan[0], "Attic", "under the roof", "wlan1");
    assert_eq!(run_of(&plan[1]).args, strings(&["wlan1", "power", "off"]));
}

#[test]
fn setting_that_is_not_text_is_an_encoding_error() {
    let mut store = empty_store();
    store.insert("ap_password", &[0xc3, 0x28]).unwrap();
    assert_eq!(read_access_point(&store).unwrap_err(), StoreError::Encoding);
    assert_eq!(initialize_ap(&store).unwrap_err(), StoreError::Encoding);
    assert_eq!(initialize_wireless(&store).unwrap_err(), StoreError::Encoding);
}

#[test]
fn upstream_needs_both_settings() {
    let mut store = empty_store();
    assert!(read_upstream(&store).unwrap().is_none());
    store.insert("source_ssid", b"HomeNet").unwrap();
    assert!(read_upstream(&store).unwrap().is_none());
    store.insert("source_password", b"secret1").unwrap();
    let upstream = read_upstream(&store).unwrap().unwrap();
    assert_eq!(upstream.ssid, "HomeNet");
    assert_eq!(upstream.password, "secret1");
}

#[test]
fn connect_upstream_without_a_network_does_nothing() {
    assert!(connect_upstream(None).is_empty());
    let network = Upstream { ssid: "HomeNet".to_string(), password: "secret1".to_string() };
    let plan = connect_upstream(Some(network));
    assert_eq!(plan.len(), 1);
    assert_eq!(
        run_of(&plan[0]).args,
        strings(&["dev", "wifi", "connect", "\"HomeNet\"", "password", "\"secret1\""])
    );
}

#[test]
fn startup_with_upstream_and_no_access_point_settings() {
    let mut store = empty_store();
    store.insert("source_ssid", b"HomeNet").unwrap();
    store.insert("source_password", b"secret1").unwrap();
    let plan = initialize_wireless(&store).unwrap();
    assert_eq!(plan.len(), 3);
    assert_start(&plan[0], "pi-extender", "changeme", "wlan0");
    assert_eq!(run_of(&plan[1]).program, "iwconfig");
    assert_eq!(run_of(&plan[1]).args, strings(&["wlan0", "power", "off"]));
    assert_eq!(run_of(&plan[2]).program, "nmcli");
    assert_eq!(
        run_of(&plan[2]).args,
        strings(&["dev", "wifi", "connect", "\"HomeNet\"", "password", "\"secret1\""])
    );
    let starts = plan.iter().filter(|a| matches!(a, Action::StartAccessPoint(_))).count();
    assert_eq!(starts, 1);
}

#[test]
fn startup_of_an_empty_store_stays_access_point_only() {
    let store = empty_store();
    let plan = initialize_wireless(&store).unwrap();
    assert_eq!(plan.len(), 2);
    assert_start(&plan[0], "pi-extender", "changeme", "wlan0");
    assert_eq!(run_of(&plan[1]).args, strings(&["wlan0", "power", "off"]));
}

#[test]
fn startup_plan_is_the_same_when_made_again() {
    let mut store = empty_store();
    store.insert("ap_interface", b"wlan2").unwrap();
    let first = format!("{:?}", initialize_wireless(&store).unwrap());
    let second = format!("{:?}", initialize_wireless(&store).unwrap());
    assert_eq!(first, second);
}

fn form() -> WirelessInput {
    WirelessInput {
        source_ssid: "HomeNet".to_string(),
        source_password: "secret1".to_string(),
        ap_ssid: "Attic".to_string(),
        ap_password: "under the roof".to_string(),
        ap_interface: "wlan1".to_string(),
    }
}

#[test]
fn save_wireless_stores_the_access_point_only() {
    let mut store = empty_store();
    save_wireless(&mut store, &form()).unwrap();
    assert_eq!(store.get("ap_ssid").unwrap(), Some(b"Attic".to_vec()));
    assert_eq!(store.get("ap_password").unwrap(), Some(b"under the roof".to_vec()));
    assert_eq!(store.get("ap_interface").unwrap(), Some(b"wlan1".to_vec()));
    assert_eq!(store.get("source_ssid").unwrap(), None);
    assert_eq!(store.get("source_password").unwrap(), None);
}

#[test]
fn save_wireless_plans_join_power_and_reboot() {
    let mut store = empty_store();
    let plan = save_wireless(&mut store, &form()).unwrap();
    assert_eq!(plan.len(), 3);
    assert_eq!(run_of(&plan[0]).program, "nmcli");
    assert_eq!(
        run_of(&plan[0]).args,
        strings(&["dev", "wifi", "connect", "\"HomeNet\"", "password", "\"secret1\""])
    );
    assert_eq!(run_of(&plan[1]).program, "iwconfig");
    assert_eq!(run_of(&plan[1]).args, strings(&["wlan1", "power", "off"]));
    match &plan[2] {
        Action::Detach(command) => {
            assert_eq!(command.program, "sh");
            assert_eq!(command.args, strings(&["-c", "sleep 5 ; reboot"]));
        }
        other => panic!("expected the reboot to be detached, got {other:?}"),
    }
}

#[test]
fn saved_settings_are_what_the_next_startup_uses() {
    let mut store = empty_store();
    store.insert("ap_ssid", b"Old").unwrap();
    save_wireless(&mut store, &form()).unwrap();
    let plan = initialize_wireless(&store).unwrap();
    assert_eq!(plan.len(), 2);
    assert_start(&plan[0], "Attic", "under the roof", "wlan1");
    assert_eq!(run_of(&plan[1]).args, strings(&["wlan1", "power", "off"]));
}

#[test]
fn get_interfaces_lists_what_was_found_or_nothing() {
    assert_eq!(
        get_interfaces(Ok(strings(&["wlan0", "wlan1"]))),
        strings(&["wlan0", "wlan1"])
    );
    assert_eq!(get_interfaces(Ok(Vec::new())), Vec::<String>::new());
    assert_eq!(get_interfaces(Err("nmcli: not found".to_string())), Vec::<String>::new());
}

#[test]
fn reconciliation_issues_every_action_when_all_succeed() {
    let mut store = empty_store();
    store.insert("source_ssid", b"HomeNet").unwrap();
    store.insert("source_password", b"secret1").unwrap();
    let mut run = Reconciliation::new(initialize_wireless(&store).unwrap());
    let mut issued = Vec::new();
    while let Some(action) = run.next_action() {
        issued.push(format!("{action:?}"));
        run.record(Outcome::Succeeded);
    }
    assert_eq!(issued.len(), 3);
    assert!(run.is_done());
    assert!(run.failures().is_empty());
}

#[test]
fn reconciliation_goes_on_after_failures() {
    let mut store = empty_store();
    store.insert("source_ssid", b"HomeNet").unwrap();
    store.insert("source_password", b"secret1").unwrap();
    let plan = initialize_wireless(&store).unwrap();
    let expected: Vec<String> = plan.iter().map(|a| format!("{a:?}")).collect();
    let mut run = Reconciliation::new(plan);
    let mut issued = Vec::new();
    let mut step = 0;
    while let Some(action) = run.next_action() {
        issued.push(format!("{action:?}"));
        if step == 1 {
            run.record(Outcome::Succeeded);
        } else if step == 0 {
            run.record(Outcome::Failed(CommandError::Refused("no such device".to_string())));
        } else {
            run.record(judge_exit(Some(10)));
        }
        step += 1;
    }
    assert_eq!(issued, expected);
    assert!(run.is_done());
    let failures = run.failures();
    assert_eq!(failures.len(), 2);
    assert_eq!(failures[0].step, 0);
    assert!(matches!(&failures[0].error, CommandError::Refused(reason) if reason == "no such device"));
    assert_eq!(failures[1].step, 2);
    assert!(matches!(failures[1].error, CommandError::ExitCode(10)));
}

#[test]
fn finished_reconciliation_ignores_further_reports() {
    let mut run = Reconciliation::new(Vec::new());
    assert!(run.is_done());
    assert!(run.next_action().is_none());
    run.record(Outcome::Failed(CommandError::Spawn("late".to_string())));
    assert!(run.is_done());
    assert!(run.failures().is_empty());
}

#[test]
fn resolve_access_point_defaults_each_setting_by_itself() {
    let all = resolve_access_point(None, None, None);
    assert_eq!((all.ssid.as_str(), all.password.as_str(), all.interface.as_str()), ("pi-extender", "changeme", "wlan0"));

    let ssid_only = resolve_access_point(Some("Attic".to_string()), None, None);
    assert_eq!(
        (ssid_only.ssid.as_str(), ssid_only.password.as_str(), ssid_only.interface.as_str()),
        ("Attic", "changeme", "wlan0")
    );

    let password_only = resolve_access_point(None, Some("pw".to_string()), None);
    assert_eq!(
        (
            password_only.ssid.as_str(),
            password_only.password.as_str(),
            password_only.interface.as_str()
        ),
        ("pi-extender", "pw", "wlan0")
    );

    let interface_only = resolve_access_point(None, None, Some("wlan7".to_string()));
    assert_eq!(
        (
            interface_only.ssid.as_str(),
            interface_only.password.as_str(),
            interface_only.interface.as_str()
        ),
        ("pi-extender", "changeme", "wlan7")
    );

    let empty_texts =
        resolve_access_point(Some(String::new()), Some(String::new()), Some(String::new()));
    assert_eq!(
        (empty_texts.ssid.as_str(), empty_texts.password.as_str(), empty_texts.interface.as_str()),
        ("", "", "")
    );
}

#[test]
fn resolve_upstream_has_no_defaults() {
    assert!(resolve_upstream(None, None).is_none());
    assert!(resolve_upstream(Some("HomeNet".to_string()), None).is_none());
    assert!(resolve_upstream(None, Some("secret1".to_string())).is_none());
    let both = resolve_upstream(Some("HomeNet".to_string()), Some("secret1".to_string())).unwrap();
    assert_eq!(both.ssid, "HomeNet");
    assert_eq!(both.password, "secret1");
}

#[test]
fn bring_up_starts_then_switches_power_management_off() {
    let plan = bring_up(AccessPoint {
        ssid: "Attic".to_string(),
        password: "under the roof".to_string(),
        interface: "wlan3".to_string(),
    });
    assert_eq!(plan.len(), 2);
    assert_start(&plan[0], "Attic", "under the roof", "wlan3");
    assert_eq!(run_of(&plan[1]).program, "iwconfig");
    assert_eq!(run_of(&plan[1]).args, strings(&["wlan3", "power", "off"]));
}

#[test]
fn startup_actions_join_the_upstream_last() {
    let ap = resolve_access_point(None, None, None);
    let upstream = resolve_upstream(Some("HomeNet".to_string()), Some("secret1".to_string()));
    let plan = startup_actions(ap, upstream);
    assert_eq!(plan.len(), 3);
    assert_start(&plan[0], "pi-extender", "changeme", "wlan0");
    assert_eq!(run_of(&plan[1]).args, strings(&["wlan0", "power", "off"]));
    assert_eq!(
        run_of(&plan[2]).args,
        strings(&["dev", "wifi", "connect", "\"HomeNet\"", "password", "\"secret1\""])
    );
    assert_eq!(startup_actions(resolve_access_point(None, None, None), None).len(), 2);
}

#[test]
fn settings_change_actions_follow_the_form() {
    let plan = settings_change_actions(&form());
    assert_eq!(plan.len(), 3);
    assert_eq!(
        run_of(&plan[0]).args,
        strings(&["dev", "wifi", "connect", "\"HomeNet\"", "password", "\"secret1\""])
    );
    assert_eq!(run_of(&plan[1]).args, strings(&["wlan1", "power", "off"]));
    assert!(matches!(&plan[2], Action::Detach(command) if command.program == "sh"));
}

#[test]
fn judge_exit_accepts_only_exit_code_zero() {
    assert!(matches!(judge_exit(Some(0)), Outcome::Succeeded));
    assert!(matches!(judge_exit(Some(1)), Outcome::Failed(CommandError::ExitCode(1))));
    assert!(matches!(judge_exit(Some(-1)), Outcome::Failed(CommandError::ExitCode(-1))));
    assert!(matches!(judge_exit(Some(255)), Outcome::Failed(CommandError::ExitCode(255))));
    assert!(matches!(judge_exit(None), Outcome::Failed(CommandError::Terminated)));
}

#[test]
fn reconciliation_hands_out_one_action_until_it_is_reported() {
    let mut run = Reconciliation::new(startup_actions(resolve_access_point(None, None, None), None));
    assert!(!run.is_done());
    let first = format!("{:?}", run.next_action().unwrap());
    assert_eq!(first, format!("{:?}", run.next_action().unwrap()));
    run.record(Outcome::Failed(CommandError::Terminated));
    let second = format!("{:?}", run.next_action().unwrap());
    assert_ne!(first, second);
    assert!(!run.is_done());
    run.record(Outcome::Succeeded);
    assert!(run.is_done());
    assert_eq!(run.failures().len(), 1);
    assert_eq!(run.failures()[0].step, 0);
}

#[test]
fn access_point_entries_fill_the_form() {
    let mut store = empty_store();
    assert_eq!(access_point_entries(&store).unwrap(), Vec::new());
    store.insert("source_ssid", b"HomeNet").unwrap();
    store.insert("admin", b"salt:00").unwrap();
    save_wireless(&mut store, &form()).unwrap();
    assert_eq!(
        access_point_entries(&store).unwrap(),
        vec![
            ("ap_interface".to_string(), "wlan1".to_string()),
            ("ap_password".to_string(), "under the roof".to_string()),
            ("ap_ssid".to_string(), "Attic".to_string()),
        ]
    );
}

#[test]
fn access_point_entry_that_is_not_text_is_an_encoding_error() {
    let mut store = empty_store();
    store.insert("ap_ssid", b"Attic").unwrap();
    store.insert("ap_zzz", &[0xff]).unwrap();
    assert_eq!(access_point_entries(&store), Err(StoreError::Encoding));
}

#[test]
fn texts_of_keeps_order_and_needs_text() {
    let found = vec![
        (b"b".to_vec(), b"2".to_vec()),
        (b"a".to_vec(), "\u{e9}".as_bytes().to_vec()),
    ];
    assert_eq!(
        texts_of(found).unwrap(),
        vec![("b".to_string(), "2".to_string()), ("a".to_string(), "\u{e9}".to_string())]
    );
    assert_eq!(texts_of(Vec::new()).unwrap(), Vec::new());
    assert_eq!(texts_of(vec![(vec![0x80], b"v".to_vec())]), Err(StoreError::Encoding));
    assert_eq!(texts_of(vec![(b"k".to_vec(), vec![0x80])]), Err(StoreError::Encoding));
}

#[test]
fn startup_plan_of_the_upstream_only_store_as_a_whole() {
    let mut store = empty_store();
    store.insert("source_ssid", b"HomeNet").unwrap();
    store.insert("source_password", b"secret1").unwrap();
    let expected = vec![
        Action::StartAccessPoint(AccessPoint {
            ssid: "pi-extender".to_string(),
            password: "changeme".to_string(),
            interface: "wlan0".to_string(),
        }),
        Action::Run(Command {
            program: "iwconfig".to_string(),
            args: strings(&["wlan0", "power", "off"]),
        }),
        Action::Run(Command {
            program: "nmcli".to_string(),
            args: strings(&["dev", "wifi", "connect", "\"HomeNet\"", "password", "\"secret1\""]),
        }),
    ];
    assert_eq!(initialize_wireless(&store).unwrap(), expected);
    // Making the plan changes nothing, so it can be made again.
    assert_eq!(initialize_wireless(&store).unwrap(), expected);
    assert_eq!(initialize_ap(&store).unwrap(), expected[..2].to_vec());
}

#[test]
fn settings_change_plan_as_a_whole() {
    let mut store = empty_store();
    let expected = vec![
        Action::Run(Command {
            program: "nmcli".to_string(),
            args: strings(&["dev", "wifi", "connect", "\"HomeNet\"", "password", "\"secret1\""]),
        }),
        Action::Run(Command {
            program: "iwconfig".to_string(),
            args: strings(&["wlan1", "power", "off"]),
        }),
        Action::Detach(Command {
            program: "sh".to_string(),
            args: strings(&["-c", "sleep 5 ; reboot"]),
        }),
    ];
    assert_eq!(save_wireless(&mut store, &form()).unwrap(), expected);
    assert_eq!(settings_change_actions(&form()), expected);
}
