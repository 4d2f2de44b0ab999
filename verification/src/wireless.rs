//! Wireless orchestrator: what has to be done to bring the access point and
//! the upstream connection in line with the stored settings.
//!
//! The orchestrator reads the settings and answers with a plan, a list of
//! [`Action`]s in the order they are to be carried out. It runs nothing
//! itself.

use vstd::prelude::*;
use vstd::utf8::{encode_utf8, valid_utf8};
use crate::command::{
    connect_to_network, disable_pwr_mgmt, power_save_off_command, station_command, Command,
    CommandView,
};
use crate::store::{
    key_bytes, lemma_key_bytes_injective, lists_prefix, lookup, lookup_text, text_of, text_view,
    writes_view, written, SettingsStore, StoreError, AP_INTERFACE_KEY, AP_PASSWORD_KEY,
    AP_SSID_KEY, SOURCE_PASSWORD_KEY, SOURCE_SSID_KEY,
};
use crate::structs::{WirelessInput, WirelessInputView};

verus! {

broadcast use {
    vstd::utf8::encode_utf8_valid_utf8,
    vstd::utf8::encode_utf8_decode_utf8,
    vstd::utf8::decode_utf8_encode_utf8,
};

/// SSID of the access point where none is stored.
pub const DEFAULT_AP_SSID: &'static str = "pi-extender";

/// Password of the access point where none is stored.
pub const DEFAULT_AP_PASSWORD: &'static str = "changeme";

/// Interface of the access point where none is stored.
pub const DEFAULT_AP_INTERFACE: &'static str = "wlan0";

/// The network the appliance offers.
#[derive(Clone, Debug, PartialEq, Eq)]
pub struct AccessPoint {
    pub ssid: String,
    pub password: String,
    pub interface: String,
}

/// Mathematical content of an [`AccessPoint`].
pub struct AccessPointView {
    pub ssid: Seq<char>,
    pub password: Seq<char>,
    pub interface: Seq<char>,
}

impl View for AccessPoint {
    type V = AccessPointView;

    open spec fn view(&self) -> AccessPointView {
        AccessPointView { ssid: self.ssid@, password: self.password@, interface: self.interface@ }
    }
}

/// The network the appliance joins as a station.
#[derive(Clone, Debug, PartialEq, Eq)]
pub struct Upstream {
    pub ssid: String,
    pub password: String,
}

/// Mathematical content of an [`Upstream`].
pub struct UpstreamView {
    pub ssid: Seq<char>,
    pub password: Seq<char>,
}

impl View for Upstream {
    type V = UpstreamView;

    open spec fn view(&self) -> UpstreamView {
        UpstreamView { ssid: self.ssid@, password: self.password@ }
    }
}

/// One step of a plan.
#[derive(Clone, Debug, PartialEq, Eq)]
pub enum Action {
    /// Create the access point and start it, through the network manager.
    StartAccessPoint(AccessPoint),
    /// Run the command and wait for it to end.
    Run(Command),
    /// Start the command and let it go on by itself.
    Detach(Command),
}

/// Mathematical content of an [`Action`].
pub enum ActionView {
    StartAccessPoint(AccessPointView),
    Run(CommandView),
    Detach(CommandView),
}

impl View for Action {
    type V = ActionView;

    open spec fn view(&self) -> ActionView {
        match self {
            Action::StartAccessPoint(ap) => ActionView::StartAccessPoint(ap@),
            Action::Run(command) => ActionView::Run(command@),
            Action::Detach(command) => ActionView::Detach(command@),
        }
    }
}

impl DeepView for Action {
    type V = ActionView;

    open spec fn deep_view(&self) -> ActionView {
        self@
    }
}

/// `found`, or `fallback` where nothing was found.
pub open spec fn or_default(found: Option<Seq<char>>, fallback: Seq<char>) -> Seq<char> {
    match found {
        Some(text) => text,
        None => fallback,
    }
}

/// The access point made of the three settings, each replaced by its
/// default where it is absent.
pub open spec fn access_point_of(
    ssid: Option<Seq<char>>,
    password: Option<Seq<char>>,
    interface: Option<Seq<char>>,
) -> AccessPointView {
    AccessPointView {
        ssid: or_default(ssid, DEFAULT_AP_SSID@),
        password: or_default(password, DEFAULT_AP_PASSWORD@),
        interface: or_default(interface, DEFAULT_AP_INTERFACE@),
    }
}

/// The upstream network made of the two settings: there is one where both
/// are present, and none otherwise.
pub open spec fn upstream_of(ssid: Option<Seq<char>>, password: Option<Seq<char>>) -> Option<
    UpstreamView,
> {
    match (ssid, password) {
        (Some(ssid), Some(password)) => Some(UpstreamView { ssid, password }),
        _ => None,
    }
}

/// The access point that the entries describe. An error where a stored
/// setting is not text.
pub open spec fn spec_access_point(entries: Map<Seq<u8>, Seq<u8>>) -> Result<
    AccessPointView,
    StoreError,
> {
    match (
        lookup_text(entries, AP_SSID_KEY@),
        lookup_text(entries, AP_PASSWORD_KEY@),
        lookup_text(entries, AP_INTERFACE_KEY@),
    ) {
        (Ok(ssid), Ok(password), Ok(interface)) => Ok(access_point_of(ssid, password, interface)),
        _ => Err(StoreError::Encoding),
    }
}

/// The upstream network that the entries describe. An error where a stored
/// setting is not text.
pub open spec fn spec_upstream(entries: Map<Seq<u8>, Seq<u8>>) -> Result<
    Option<UpstreamView>,
    StoreError,
> {
    match (lookup_text(entries, SOURCE_SSID_KEY@), lookup_text(entries, SOURCE_PASSWORD_KEY@)) {
        (Ok(ssid), Ok(password)) => Ok(upstream_of(ssid, password)),
        _ => Err(StoreError::Encoding),
    }
}

/// The plan that brings up the access point: start it, then switch power
/// management off on its interface.
pub open spec fn access_point_plan(ap: AccessPointView) -> Seq<ActionView> {
    seq![ActionView::StartAccessPoint(ap), ActionView::Run(power_save_off_command(ap.interface))]
}

/// The plan that joins the upstream network: one command where there is
/// such a network, nothing where there is none.
pub open spec fn upstream_plan(upstream: Option<UpstreamView>) -> Seq<ActionView> {
    match upstream {
        Some(network) => seq![ActionView::Run(station_command(network.ssid, network.password))],
        None => Seq::<ActionView>::empty(),
    }
}

/// The plan at startup: the access point first, the upstream network after.
pub open spec fn startup_plan(ap: AccessPointView, upstream: Option<UpstreamView>) -> Seq<
    ActionView,
> {
    access_point_plan(ap) + upstream_plan(upstream)
}

/// The plan at startup for the stored settings.
pub open spec fn spec_initialize_wireless(entries: Map<Seq<u8>, Seq<u8>>) -> Result<
    Seq<ActionView>,
    StoreError,
> {
    match (spec_access_point(entries), spec_upstream(entries)) {
        (Ok(ap), Ok(upstream)) => Ok(startup_plan(ap, upstream)),
        _ => Err(StoreError::Encoding),
    }
}

/// The command that reboots the appliance a few seconds from now.
pub open spec fn delayed_reboot_command() -> CommandView {
    CommandView { program: "sh"@, args: seq!["-c"@, "sleep 5 ; reboot"@] }
}

/// The writes that store the access point of a settings form.
pub open spec fn access_point_writes(input: WirelessInputView) -> Seq<(Seq<u8>, Seq<u8>)> {
    seq![
        (key_bytes(AP_SSID_KEY@), encode_utf8(input.ap_ssid)),
        (key_bytes(AP_PASSWORD_KEY@), encode_utf8(input.ap_password)),
        (key_bytes(AP_INTERFACE_KEY@), encode_utf8(input.ap_interface)),
    ]
}

/// The plan after a change of settings: join the upstream network of the
/// form, switch power management off on the new interface, reboot.
pub open spec fn settings_change_plan(input: WirelessInputView) -> Seq<ActionView> {
    seq![
        ActionView::Run(station_command(input.source_ssid, input.source_password)),
        ActionView::Run(power_save_off_command(input.ap_interface)),
        ActionView::Detach(delayed_reboot_command()),
    ]
}

/// View of an optional upstream network.
pub open spec fn upstream_view(upstream: Option<Upstream>) -> Option<UpstreamView> {
    match upstream {
        Some(network) => Some(network@),
        None => None,
    }
}

fn or_default_text(found: Option<String>, fallback: &str) -> (text: String)
    ensures
        text@ == or_default(text_view(found), fallback@),
{
    match found {
        Some(text) => text,
        None => String::from_str(fallback),
    }
}

/// The access point for the three settings as they were found in the
/// store: each one that is absent is replaced by its default, by itself.
pub fn resolve_access_point(
    ssid: Option<String>,
    password: Option<String>,
    interface: Option<String>,
) -> (ap: AccessPoint)
    ensures
        ap@ == access_point_of(text_view(ssid), text_view(password), text_view(interface)),
{
    AccessPoint {
        ssid: or_default_text(ssid, DEFAULT_AP_SSID),
        password: or_default_text(password, DEFAULT_AP_PASSWORD),
        interface: or_default_text(interface, DEFAULT_AP_INTERFACE),
    }
}

/// The upstream network for the two settings as they were found in the
/// store. There is no default: without both there is no network to join.
pub fn resolve_upstream(ssid: Option<String>, password: Option<String>) -> (upstream: Option<
    Upstream,
>)
    ensures
        upstream_view(upstream) == upstream_of(text_view(ssid), text_view(password)),
{
    match (ssid, password) {
        (Some(ssid), Some(password)) => Some(Upstream { ssid, password }),
        _ => None,
    }
}

/// The action that joins `upstream`, where there is such a network;
/// nothing where there is none, which is no error.
pub fn connect_upstream(upstream: Option<Upstream>) -> (plan: Vec<Action>)
    ensures
        plan.deep_view() == upstream_plan(upstream_view(upstream)),
{
    let mut plan: Vec<Action> = Vec::new();
    if let Some(network) = upstream {
        plan.push(Action::Run(connect_to_network(network.ssid.as_str(), network.password.as_str())));
    }
    assert(plan.deep_view() =~= upstream_plan(upstream_view(upstream)));
    plan
}

/// The actions that bring up `ap`: it is started, and power management is
/// then switched off on its interface.
pub fn bring_up(ap: AccessPoint) -> (plan: Vec<Action>)
    ensures
        plan.deep_view() == access_point_plan(ap@),
{
    let mut plan: Vec<Action> = Vec::new();
    let power = disable_pwr_mgmt(ap.interface.as_str());
    plan.push(Action::StartAccessPoint(ap));
    plan.push(Action::Run(power));
    assert(plan.deep_view() =~= access_point_plan(ap@));
    plan
}

/// The actions at startup: those that bring up `ap`, then the one that
/// joins `upstream` where there is such a network.
pub fn startup_actions(ap: AccessPoint, upstream: Option<Upstream>) -> (plan: Vec<Action>)
    ensures
        plan.deep_view() == startup_plan(ap@, upstream_view(upstream)),
{
    let mut plan = bring_up(ap);
    let ghost first = plan.deep_view();
    let mut rest = connect_upstream(upstream);
    let ghost second = rest.deep_view();
    plan.append(&mut rest);
    assert(plan.deep_view() =~= first + second);
    plan
}

/// The actions after a change of settings: the upstream network of the
/// form is joined, power management is switched off on the form's
/// interface, and the appliance reboots a few seconds later.
pub fn settings_change_actions(input: &WirelessInput) -> (plan: Vec<Action>)
    ensures
        plan.deep_view() == settings_change_plan(input@),
{
    let mut reboot_args: Vec<String> = Vec::new();
    reboot_args.push(String::from_str("-c"));
    reboot_args.push(String::from_str("sleep 5 ; reboot"));
    let reboot = Command { program: String::from_str("sh"), args: reboot_args };
    assert(reboot@.args =~= delayed_reboot_command().args);
    let mut plan: Vec<Action> = Vec::new();
    plan.push(
        Action::Run(connect_to_network(input.source_ssid.as_str(), input.source_password.as_str())),
    );
    plan.push(Action::Run(disable_pwr_mgmt(input.ap_interface.as_str())));
    plan.push(Action::Detach(reboot));
    assert(plan.deep_view() =~= settings_change_plan(input@));
    plan
}

/// View of the result of [`read_access_point`].
pub open spec fn access_point_read(r: Result<AccessPoint, StoreError>) -> Result<
    AccessPointView,
    StoreError,
> {
    match r {
        Ok(ap) => Ok(ap@),
        Err(e) => Err(e),
    }
}

/// View of the result of [`read_upstream`].
pub open spec fn upstream_read(r: Result<Option<Upstream>, StoreError>) -> Result<
    Option<UpstreamView>,
    StoreError,
> {
    match r {
        Ok(upstream) => Ok(upstream_view(upstream)),
        Err(e) => Err(e),
    }
}

/// View of a plan, or of the failure to make one.
pub open spec fn plan_view(r: Result<Vec<Action>, StoreError>) -> Result<
    Seq<ActionView>,
    StoreError,
> {
    match r {
        Ok(plan) => Ok(plan.deep_view()),
        Err(e) => Err(e),
    }
}

/// Reads the access point's settings, each absent one replaced by its
/// default.
///
/// Unless the database fails, the answer is [`spec_access_point`] of the
/// entries.
pub fn read_access_point(store: &SettingsStore) -> (r: Result<AccessPoint, StoreError>)
    ensures
        r != Err::<AccessPoint, StoreError>(StoreError::Backend) ==> access_point_read(r)
            == spec_access_point(store@),
{
    let ssid = match store.get_text(AP_SSID_KEY) {
        Ok(found) => found,
        Err(e) => { return Err(e); },
    };
    let password = match store.get_text(AP_PASSWORD_KEY) {
        Ok(found) => found,
        Err(e) => { return Err(e); },
    };
    let interface = match store.get_text(AP_INTERFACE_KEY) {
        Ok(found) => found,
        Err(e) => { return Err(e); },
    };
    Ok(resolve_access_point(ssid, password, interface))
}

/// Reads the upstream network's settings.
///
/// Unless the database fails, the answer is [`spec_upstream`] of the
/// entries.
pub fn read_upstream(store: &SettingsStore) -> (r: Result<Option<Upstream>, StoreError>)
    ensures
        r != Err::<Option<Upstream>, StoreError>(StoreError::Backend) ==> upstream_read(r)
            == spec_upstream(store@),
{
    let ssid = match store.get_text(SOURCE_SSID_KEY) {
        Ok(found) => found,
        Err(e) => { return Err(e); },
    };
    let password = match store.get_text(SOURCE_PASSWORD_KEY) {
        Ok(found) => found,
        Err(e) => { return Err(e); },
    };
    Ok(resolve_upstream(ssid, password))
}

/// Plans the access point from the stored settings: it is started with the
/// stored SSID, password and interface, each replaced by its default where
/// absent, and power management is then switched off on that interface.
pub fn initialize_ap(store: &SettingsStore) -> (r: Result<Vec<Action>, StoreError>)
    ensures
        r != Err::<Vec<Action>, StoreError>(StoreError::Backend) ==> plan_view(r) == match spec_access_point(
            store@,
        ) {
            Ok(ap) => Ok::<Seq<ActionView>, StoreError>(access_point_plan(ap)),
            Err(e) => Err::<Seq<ActionView>, StoreError>(e),
        },
{
    match read_access_point(store) {
        Ok(ap) => Ok(bring_up(ap)),
        Err(e) => Err(e),
    }
}

/// Plans the reconciliation at startup: the access point as
/// [`initialize_ap`] plans it, then the upstream network where one is
/// stored.
///
/// Unless the database fails, the answer is [`spec_initialize_wireless`] of
/// the entries.
pub fn initialize_wireless(store: &SettingsStore) -> (r: Result<Vec<Action>, StoreError>)
    ensures
        r != Err::<Vec<Action>, StoreError>(StoreError::Backend) ==> plan_view(r)
            == spec_initialize_wireless(store@),
{
    let ap = match read_access_point(store) {
        Ok(ap) => ap,
        Err(e) => { return Err(e); },
    };
    let upstream = match read_upstream(store) {
        Ok(upstream) => upstream,
        Err(e) => { return Err(e); },
    };
    Ok(startup_actions(ap, upstream))
}

fn write_of(key: &str, value: &str) -> (w: (Vec<u8>, Vec<u8>))
    ensures
        w.0@ == key_bytes(key@),
        w.1@ == encode_utf8(value@),
{
    (key.as_bytes_vec(), value.as_bytes_vec())
}

/// Stores the access point of a settings form and plans what follows.
///
/// The three access point settings are written at once and flushed, and
/// only then is the plan handed out: when the first command is issued the
/// new settings are durable. The upstream network of the form is joined
/// but not stored. When the write or the flush fails there is no plan.
pub fn save_wireless(store: &mut SettingsStore, input: &WirelessInput) -> (r: Result<
    Vec<Action>,
    StoreError,
>)
    ensures
        r matches Ok(plan) ==> final(store)@ == written(
            old(store)@,
            access_point_writes(input@),
        ) && final(store).durable() == final(store)@ && plan.deep_view() == settings_change_plan(
            input@,
        ),
        r matches Err(e) ==> e == StoreError::Backend,
{
    let mut writes: Vec<(Vec<u8>, Vec<u8>)> = Vec::new();
    writes.push(write_of(AP_SSID_KEY, input.ap_ssid.as_str()));
    writes.push(write_of(AP_PASSWORD_KEY, input.ap_password.as_str()));
    writes.push(write_of(AP_INTERFACE_KEY, input.ap_interface.as_str()));
    assert(writes_view(writes@) =~= access_point_writes(input@));
    match store.apply(&writes) {
        Ok(()) => {},
        Err(e) => { return Err(e); },
    }
    match store.flush() {
        Ok(()) => {},
        Err(e) => { return Err(e); },
    }
    Ok(settings_change_actions(input))
}

/// The interfaces to offer in the settings form: those the network manager
/// listed, or none where its query failed.
pub fn get_interfaces(listed: Result<Vec<String>, String>) -> (interfaces: Vec<String>)
    ensures
        interfaces.deep_view() == match listed {
            Ok(names) => names.deep_view(),
            Err(_) => Seq::<Seq<char>>::empty(),
        },
{
    match listed {
        Ok(names) => names,
        Err(_) => {
            let none: Vec<String> = Vec::new();
            assert(none.deep_view() =~= Seq::<Seq<char>>::empty());
            none
        },
    }
}

/// The bytes that a list of texts is stored as.
pub open spec fn stored_as(texts: Seq<(String, String)>) -> Seq<(Seq<u8>, Seq<u8>)> {
    Seq::new(texts.len(), |i: int| (encode_utf8(texts[i].0@), encode_utf8(texts[i].1@)))
}

/// Whether all keys and all values of `found` are text.
pub open spec fn all_text(found: Seq<(Seq<u8>, Seq<u8>)>) -> bool {
    forall|i: int|
        0 <= i < found.len() ==> valid_utf8((#[trigger] found[i]).0) && valid_utf8(found[i].1)
}

/// The entries as texts, in the order given: the settings form is filled
/// from them.
///
/// Fails with `Encoding` exactly when a key or a value is not text.
pub fn texts_of(found: Vec<(Vec<u8>, Vec<u8>)>) -> (r: Result<Vec<(String, String)>, StoreError>)
    ensures
        r matches Ok(texts) ==> stored_as(texts@) == writes_view(found@),
        r is Ok <==> all_text(writes_view(found@)),
        r matches Err(e) ==> e == StoreError::Encoding,
{
    let mut texts: Vec<(String, String)> = Vec::new();
    let mut i: usize = 0;
    while i < found.len()
        invariant
            i <= found.len(),
            texts@.len() == i,
            forall|j: int|
                0 <= j < i ==> valid_utf8((#[trigger] writes_view(found@)[j]).0) && valid_utf8(
                    writes_view(found@)[j].1,
                ),
            forall|j: int| 0 <= j < i ==> (#[trigger] stored_as(texts@)[j]) == writes_view(found@)[j],
        decreases found.len() - i,
    {
        let ghost before = texts@;
        let key = match text_of(found[i].0.clone()) {
            Ok(key) => key,
            Err(e) => {
                assert(!valid_utf8(writes_view(found@)[i as int].0));
                return Err(e);
            },
        };
        let value = match text_of(found[i].1.clone()) {
            Ok(value) => value,
            Err(e) => {
                assert(!valid_utf8(writes_view(found@)[i as int].1));
                return Err(e);
            },
        };
        texts.push((key, value));
        assert forall|j: int| 0 <= j < i + 1 implies (#[trigger] stored_as(texts@)[j])
            == writes_view(found@)[j] by {
            if j < i {
                assert(texts@[j] == before[j]);
                assert(stored_as(before)[j] == writes_view(found@)[j]);
            }
        }
        i += 1;
    }
    assert(stored_as(texts@) =~= writes_view(found@));
    Ok(texts)
}

/// Prefix of the keys under which the access point is stored.
pub const AP_PREFIX: &'static str = "ap_";

/// The stored access point settings as texts, key by key in ascending
/// order, for the settings form.
///
/// Unless the database fails, the answer lists the entries whose key
/// begins with [`AP_PREFIX`], and it is `Encoding` where one of them is not
/// text.
pub fn access_point_entries(store: &SettingsStore) -> (r: Result<
    Vec<(String, String)>,
    StoreError,
>)
    ensures
        r matches Ok(texts) ==> lists_prefix(store@, key_bytes(AP_PREFIX@), stored_as(texts@)),
        r matches Err(e) ==> (e == StoreError::Encoding ==> exists|found: Seq<(Seq<u8>, Seq<u8>)>|
            #[trigger] lists_prefix(store@, key_bytes(AP_PREFIX@), found) && !all_text(found)),
{
    match store.scan_prefix(AP_PREFIX) {
        Err(e) => Err(e),
        Ok(found) => {
            let ghost listed = writes_view(found@);
            let r = texts_of(found);
            proof {
                if r is Err {
                    assert(lists_prefix(store@, key_bytes(AP_PREFIX@), listed) && !all_text(listed));
                }
            }
            r
        },
    }
}

/// The three distinct keys under which the access point is stored.
proof fn lemma_access_point_keys_differ()
    ensures
        key_bytes(AP_SSID_KEY@) != key_bytes(AP_PASSWORD_KEY@),
        key_bytes(AP_SSID_KEY@) != key_bytes(AP_INTERFACE_KEY@),
        key_bytes(AP_PASSWORD_KEY@) != key_bytes(AP_INTERFACE_KEY@),
{
    reveal_strlit("ap_ssid");
    reveal_strlit("ap_password");
    reveal_strlit("ap_interface");
    assert(AP_SSID_KEY@.len() == 7);
    assert(AP_PASSWORD_KEY@.len() == 11);
    assert(AP_INTERFACE_KEY@.len() == 12);
    lemma_key_bytes_injective(AP_SSID_KEY@, AP_PASSWORD_KEY@);
    lemma_key_bytes_injective(AP_SSID_KEY@, AP_INTERFACE_KEY@);
    lemma_key_bytes_injective(AP_PASSWORD_KEY@, AP_INTERFACE_KEY@);
}

/// Absent settings fall back to the defaults, each by itself: a store that
/// holds some of the access point's settings as text gives those, and the
/// default for every other one.
pub proof fn law_absent_settings_take_defaults(entries: Map<Seq<u8>, Seq<u8>>)
    requires
        spec_access_point(entries) is Ok,
    ensures
        lookup(entries, AP_SSID_KEY@) is None ==> spec_access_point(entries)->Ok_0.ssid
            == DEFAULT_AP_SSID@,
        lookup(entries, AP_PASSWORD_KEY@) is None ==> spec_access_point(entries)->Ok_0.password
            == DEFAULT_AP_PASSWORD@,
        lookup(entries, AP_INTERFACE_KEY@) is None ==> spec_access_point(entries)->Ok_0.interface
            == DEFAULT_AP_INTERFACE@,
        lookup_text(entries, AP_SSID_KEY@) matches Ok(Some(ssid)) ==> spec_access_point(
            entries,
        )->Ok_0.ssid == ssid,
        lookup_text(entries, AP_PASSWORD_KEY@) matches Ok(Some(password)) ==> spec_access_point(
            entries,
        )->Ok_0.password == password,
        lookup_text(entries, AP_INTERFACE_KEY@) matches Ok(Some(interface)) ==> spec_access_point(
            entries,
        )->Ok_0.interface == interface,
{
}

/// A store without access point settings always has an access point: the
/// one made of the three defaults.
pub proof fn law_empty_store_gives_default_access_point(entries: Map<Seq<u8>, Seq<u8>>)
    requires
        lookup(entries, AP_SSID_KEY@) is None,
        lookup(entries, AP_PASSWORD_KEY@) is None,
        lookup(entries, AP_INTERFACE_KEY@) is None,
    ensures
        spec_access_point(entries) == Ok::<AccessPointView, StoreError>(
            AccessPointView {
                ssid: DEFAULT_AP_SSID@,
                password: DEFAULT_AP_PASSWORD@,
                interface: DEFAULT_AP_INTERFACE@,
            },
        ),
{
}

/// The plan at startup starts the access point once, switches power
/// management off once, on the access point's interface, and joins the
/// upstream network once where one is stored and not at all where none is.
pub proof fn law_startup_plan_shape(ap: AccessPointView, upstream: Option<UpstreamView>)
    ensures
        startup_plan(ap, upstream).len() == if upstream is Some {
            3int
        } else {
            2int
        },
        startup_plan(ap, upstream)[0] == ActionView::StartAccessPoint(ap),
        startup_plan(ap, upstream)[1] == ActionView::Run(power_save_off_command(ap.interface)),
        upstream matches Some(network) ==> startup_plan(ap, upstream)[2] == ActionView::Run(
            station_command(network.ssid, network.password),
        ),
{
}

/// What a settings form stores is what the next startup reads: after the
/// writes of [`save_wireless`], the stored access point is the one of the
/// form.
pub proof fn law_saved_access_point_is_read_back(
    before: Map<Seq<u8>, Seq<u8>>,
    input: WirelessInputView,
)
    ensures
        spec_access_point(written(before, access_point_writes(input))) == Ok::<
            AccessPointView,
            StoreError,
        >(
            AccessPointView {
                ssid: input.ap_ssid,
                password: input.ap_password,
                interface: input.ap_interface,
            },
        ),
{
    lemma_access_point_keys_differ();
    let writes = access_point_writes(input);
    let w1 = writes.drop_last();
    let w0 = w1.drop_last();
    assert(w0.drop_last().len() == 0);
    assert(written(before, w0.drop_last()) == before);
    assert(written(before, w0) == before.insert(writes[0].0, writes[0].1));
    assert(written(before, w1) == written(before, w0).insert(writes[1].0, writes[1].1));
    assert(written(before, writes) == written(before, w1).insert(writes[2].0, writes[2].1));
}

} // verus!
