//! Decisions of the peripheral (server) mode: turning service definitions
//! into GATT services, parsing the UUIDs that the host hands over, reacting to
//! what the radio reports, and answering the requests of connected centrals.

use vstd::prelude::*;
use vstd::string::*;
use tokio::sync::oneshot::Receiver;
use crate::peripheral_types::{
    CharacteristicDefinition, CharacteristicProperties, ReadRequest, ServiceDefinition,
    SubscriptionUpdate, WriteRequest,
};
use crate::peripheral_manager_state::{
    next_counter, HandedAnswer, PeripheralManagerState, ReadRequestResponse, WriteRequestResponse,
};
use crate::uuids::{hyphenated, parse_uuid, parsed_uuid, uuid_text};
use crate::text::concat;
use crate::central_manager_utils::lemma_concat_contains;

verus! {

/// A property that a GATT characteristic announces.
#[derive(Debug, Clone, Copy, PartialEq, Eq, Structural)]
pub enum CharacteristicProperty {
    Read,
    Write,
    WriteWithoutResponse,
    Notify,
    Indicate,
}

/// An access permission of a GATT attribute.
#[derive(Debug, Clone, Copy, PartialEq, Eq, Structural)]
pub enum AttributePermission {
    Readable,
    Writeable,
}

/// A characteristic as it is handed to the radio.
#[derive(Debug, Clone)]
pub struct GattCharacteristic {
    pub uuid: [u8; 16],
    pub properties: Vec<CharacteristicProperty>,
    pub permissions: Vec<AttributePermission>,
    pub value: Option<Vec<u8>>,
}

/// A service as it is handed to the radio.
#[derive(Debug, Clone)]
pub struct GattService {
    pub uuid: [u8; 16],
    pub primary: bool,
    pub characteristics: Vec<GattCharacteristic>,
}

pub struct GattCharacteristicView {
    pub uuid: Seq<u8>,
    pub properties: Seq<CharacteristicProperty>,
    pub permissions: Seq<AttributePermission>,
    pub value: Option<Seq<u8>>,
}

pub struct GattServiceView {
    pub uuid: Seq<u8>,
    pub primary: bool,
    pub characteristics: Seq<GattCharacteristicView>,
}

impl View for GattCharacteristic {
    type V = GattCharacteristicView;

    open spec fn view(&self) -> GattCharacteristicView {
        GattCharacteristicView {
            uuid: self.uuid@,
            properties: self.properties@,
            permissions: self.permissions@,
            value: match self.value {
                Some(v) => Some(v@),
                None => None,
            },
        }
    }
}

impl View for GattService {
    type V = GattServiceView;

    open spec fn view(&self) -> GattServiceView {
        GattServiceView {
            uuid: self.uuid@,
            primary: self.primary,
            characteristics: self.characteristics@.map_values(|c: GattCharacteristic| c@),
        }
    }
}

/// The properties announced for a characteristic, in the order read, write,
/// write without response, notify, indicate.
pub open spec fn announced_properties(p: CharacteristicProperties) -> Seq<CharacteristicProperty> {
    (if p.read { seq![CharacteristicProperty::Read] } else { Seq::empty() })
        + (if p.write { seq![CharacteristicProperty::Write] } else { Seq::empty() })
        + (if p.write_without_response { seq![CharacteristicProperty::WriteWithoutResponse] } else { Seq::empty() })
        + (if p.notify { seq![CharacteristicProperty::Notify] } else { Seq::empty() })
        + (if p.indicate { seq![CharacteristicProperty::Indicate] } else { Seq::empty() })
}

/// Readable when it can be read, writeable when it can be written (with a
/// response).
pub open spec fn granted_permissions(p: CharacteristicProperties) -> Seq<AttributePermission> {
    (if p.read { seq![AttributePermission::Readable] } else { Seq::empty() })
        + (if p.write { seq![AttributePermission::Writeable] } else { Seq::empty() })
}

/// The properties and permissions that a characteristic with `p` gets.
pub fn characteristic_access(p: &CharacteristicProperties) -> (r: (Vec<CharacteristicProperty>, Vec<AttributePermission>))
    ensures
        r.0@ == announced_properties(*p),
        r.1@ == granted_permissions(*p),
{
    let mut properties: Vec<CharacteristicProperty> = Vec::new();
    let mut permissions: Vec<AttributePermission> = Vec::new();
    if p.read {
        properties.push(CharacteristicProperty::Read);
        permissions.push(AttributePermission::Readable);
    }
    if p.write {
        properties.push(CharacteristicProperty::Write);
        permissions.push(AttributePermission::Writeable);
    }
    if p.write_without_response {
        properties.push(CharacteristicProperty::WriteWithoutResponse);
    }
    if p.notify {
        properties.push(CharacteristicProperty::Notify);
    }
    if p.indicate {
        properties.push(CharacteristicProperty::Indicate);
    }
    assert(properties@ =~= announced_properties(*p));
    assert(permissions@ =~= granted_permissions(*p));
    (properties, permissions)
}

pub open spec fn value_view(v: Option<Vec<u8>>) -> Option<Seq<u8>> {
    match v {
        Some(b) => Some(b@),
        None => None,
    }
}

fn clone_value(v: &Option<Vec<u8>>) -> (r: Option<Vec<u8>>)
    ensures
        value_view(r) == value_view(*v),
{
    match v {
        Some(b) => Some(b.clone()),
        None => None,
    }
}

/// The GATT characteristics for the first `n` definitions, or the error for
/// the first definition among them whose UUID does not parse.
pub open spec fn characteristics_prefix(defs: Seq<CharacteristicDefinition>, n: nat) -> Result<Seq<GattCharacteristicView>, Seq<char>>
    decreases n,
{
    if n == 0 {
        Ok(Seq::empty())
    } else {
        match characteristics_prefix(defs, (n - 1) as nat) {
            Err(e) => Err(e),
            Ok(prev) => match parsed_uuid(defs[n - 1].uuid@) {
                Err(e) => Err("Invalid characteristic UUID: "@ + e),
                Ok(b) => Ok(prev.push(GattCharacteristicView {
                    uuid: b,
                    properties: announced_properties(defs[n - 1].properties),
                    permissions: granted_permissions(defs[n - 1].properties),
                    value: value_view(defs[n - 1].value),
                })),
            },
        }
    }
}

proof fn lemma_prefix_error_persists(defs: Seq<CharacteristicDefinition>, i: nat, n: nat, e: Seq<char>)
    requires
        i <= n,
        characteristics_prefix(defs, i) == Err::<Seq<GattCharacteristicView>, Seq<char>>(e),
    ensures
        characteristics_prefix(defs, n) == Err::<Seq<GattCharacteristicView>, Seq<char>>(e),
    decreases n - i,
{
    if i < n {
        lemma_prefix_error_persists(defs, i, (n - 1) as nat, e);
    }
}

proof fn lemma_characteristics_prefix_items(defs: Seq<CharacteristicDefinition>, n: nat)
    ensures
        characteristics_prefix(defs, n) matches Ok(cs) ==> {
            &&& cs.len() == n
            &&& forall|k: int| 0 <= k < n ==> {
                &&& parsed_uuid(#[trigger] defs[k].uuid@) == Ok::<Seq<u8>, Seq<char>>(cs[k].uuid)
                &&& cs[k].properties == announced_properties(defs[k].properties)
                &&& cs[k].permissions == granted_permissions(defs[k].properties)
                &&& cs[k].value == value_view(defs[k].value)
            }
        },
    decreases n,
{
    if n > 0 {
        lemma_characteristics_prefix_items(defs, (n - 1) as nat);
    }
}

proof fn lemma_access_lists(p: CharacteristicProperties)
    ensures
        announced_properties(p).contains(CharacteristicProperty::Read) <==> p.read,
        announced_properties(p).contains(CharacteristicProperty::Write) <==> p.write,
        announced_properties(p).contains(CharacteristicProperty::WriteWithoutResponse) <==> p.write_without_response,
        announced_properties(p).contains(CharacteristicProperty::Notify) <==> p.notify,
        announced_properties(p).contains(CharacteristicProperty::Indicate) <==> p.indicate,
        granted_permissions(p).contains(AttributePermission::Readable) <==> p.read,
        granted_permissions(p).contains(AttributePermission::Writeable) <==> p.write,
{
    let r = if p.read { seq![CharacteristicProperty::Read] } else { Seq::empty() };
    let w = if p.write { seq![CharacteristicProperty::Write] } else { Seq::empty() };
    let o = if p.write_without_response { seq![CharacteristicProperty::WriteWithoutResponse] } else { Seq::empty() };
    let n = if p.notify { seq![CharacteristicProperty::Notify] } else { Seq::empty() };
    let i = if p.indicate { seq![CharacteristicProperty::Indicate] } else { Seq::empty() };
    assert forall|x: CharacteristicProperty| #[trigger] announced_properties(p).contains(x)
        <==> (r.contains(x) || w.contains(x) || o.contains(x) || n.contains(x) || i.contains(x)) by {
        lemma_concat_contains(r, w, x);
        lemma_concat_contains(r + w, o, x);
        lemma_concat_contains(r + w + o, n, x);
        lemma_concat_contains(r + w + o + n, i, x);
        if p.read { assert(r[0] == CharacteristicProperty::Read); }
        if p.write { assert(w[0] == CharacteristicProperty::Write); }
        if p.write_without_response { assert(o[0] == CharacteristicProperty::WriteWithoutResponse); }
        if p.notify { assert(n[0] == CharacteristicProperty::Notify); }
        if p.indicate { assert(i[0] == CharacteristicProperty::Indicate); }
    }
    let rd = if p.read { seq![AttributePermission::Readable] } else { Seq::empty() };
    let wr = if p.write { seq![AttributePermission::Writeable] } else { Seq::empty() };
    assert forall|x: AttributePermission| #[trigger] granted_permissions(p).contains(x)
        <==> (rd.contains(x) || wr.contains(x)) by {
        lemma_concat_contains(rd, wr, x);
        if p.read { assert(rd[0] == AttributePermission::Readable); }
        if p.write { assert(wr[0] == AttributePermission::Writeable); }
    }
}

/// A service built from a definition keeps the definition's primary flag and
/// has one characteristic per defined one, in order: each has the UUID its
/// definition's text parses to and the definition's value, announces Read,
/// Write, WriteWithoutResponse, Notify and Indicate exactly for the
/// properties set, and is Readable exactly when it can be read and Writeable
/// exactly when it can be written.
pub proof fn lemma_built_service_follows_definition(def: ServiceDefinition)
    ensures
        build_service_spec(def) matches Ok(s) ==> {
            &&& parsed_uuid(def.uuid@) == Ok::<Seq<u8>, Seq<char>>(s.uuid)
            &&& s.primary == def.primary
            &&& s.characteristics.len() == def.characteristics@.len()
            &&& forall|k: int| 0 <= k < s.characteristics.len() ==> {
                let c = #[trigger] s.characteristics[k];
                let p = def.characteristics@[k].properties;
                &&& parsed_uuid(def.characteristics@[k].uuid@) == Ok::<Seq<u8>, Seq<char>>(c.uuid)
                &&& c.value == value_view(def.characteristics@[k].value)
                &&& (c.properties.contains(CharacteristicProperty::Read) <==> p.read)
                &&& (c.properties.contains(CharacteristicProperty::Write) <==> p.write)
                &&& (c.properties.contains(CharacteristicProperty::WriteWithoutResponse) <==> p.write_without_response)
                &&& (c.properties.contains(CharacteristicProperty::Notify) <==> p.notify)
                &&& (c.properties.contains(CharacteristicProperty::Indicate) <==> p.indicate)
                &&& (c.permissions.contains(AttributePermission::Readable) <==> p.read)
                &&& (c.permissions.contains(AttributePermission::Writeable) <==> p.write)
            }
        },
{
    let defs = def.characteristics@;
    lemma_characteristics_prefix_items(defs, defs.len());
    if let Ok(s) = build_service_spec(def) {
        assert forall|k: int| 0 <= k < s.characteristics.len() implies {
            let c = #[trigger] s.characteristics[k];
            let p = def.characteristics@[k].properties;
            &&& parsed_uuid(def.characteristics@[k].uuid@) == Ok::<Seq<u8>, Seq<char>>(c.uuid)
            &&& c.value == value_view(def.characteristics@[k].value)
            &&& (c.properties.contains(CharacteristicProperty::Read) <==> p.read)
            &&& (c.properties.contains(CharacteristicProperty::Write) <==> p.write)
            &&& (c.properties.contains(CharacteristicProperty::WriteWithoutResponse) <==> p.write_without_response)
            &&& (c.properties.contains(CharacteristicProperty::Notify) <==> p.notify)
            &&& (c.properties.contains(CharacteristicProperty::Indicate) <==> p.indicate)
            &&& (c.permissions.contains(AttributePermission::Readable) <==> p.read)
            &&& (c.permissions.contains(AttributePermission::Writeable) <==> p.write)
        } by {
            assert(parsed_uuid(defs[k].uuid@) == Ok::<Seq<u8>, Seq<char>>(s.characteristics[k].uuid));
            lemma_access_lists(defs[k].properties);
        }
    }
}

/// The service that a definition describes, or the error for the first UUID
/// (the service's, then the characteristics' in order) that does not parse.
pub open spec fn build_service_spec(def: ServiceDefinition) -> Result<GattServiceView, Seq<char>> {
    match parsed_uuid(def.uuid@) {
        Err(e) => Err("Invalid service UUID: "@ + e),
        Ok(b) => match characteristics_prefix(def.characteristics@, def.characteristics@.len()) {
            Err(e) => Err(e),
            Ok(cs) => Ok(GattServiceView { uuid: b, primary: def.primary, characteristics: cs }),
        },
    }
}

/// Turns a service definition into the GATT service to register.
pub fn build_service(def: &ServiceDefinition) -> (r: Result<GattService, String>)
    ensures
        match (r, build_service_spec(*def)) {
            (Ok(s), Ok(m)) => s@ == m,
            (Err(e), Err(m)) => e@ == m,
            _ => false,
        },
{
    let service_uuid = match parse_uuid(def.uuid.as_str()) {
        Ok(b) => b,
        Err(e) => return Err(concat("Invalid service UUID: ", e.as_str())),
    };
    let mut characteristics: Vec<GattCharacteristic> = Vec::new();
    let mut i: usize = 0;
    assert(characteristics@.map_values(|c: GattCharacteristic| c@) =~= Seq::<GattCharacteristicView>::empty());
    while i < def.characteristics.len()
        invariant
            i <= def.characteristics@.len(),
            characteristics@.len() == i,
            parsed_uuid(def.uuid@) == Ok::<Seq<u8>, Seq<char>>(service_uuid@),
            characteristics_prefix(def.characteristics@, i as nat)
                == Ok::<Seq<GattCharacteristicView>, Seq<char>>(characteristics@.map_values(|c: GattCharacteristic| c@)),
        decreases def.characteristics.len() - i,
    {
        let char_def = &def.characteristics[i];
        let char_uuid = match parse_uuid(char_def.uuid.as_str()) {
            Ok(b) => b,
            Err(e) => {
                let msg = concat("Invalid characteristic UUID: ", e.as_str());
                proof {
                    lemma_prefix_error_persists(def.characteristics@, (i + 1) as nat, def.characteristics@.len(), msg@);
                }
                return Err(msg);
            },
        };
        let (properties, permissions) = characteristic_access(&char_def.properties);
        let ghost before = characteristics@;
        characteristics.push(GattCharacteristic {
            uuid: char_uuid,
            properties,
            permissions,
            value: clone_value(&char_def.value),
        });
        assert(characteristics@.map_values(|c: GattCharacteristic| c@)
            =~= before.map_values(|c: GattCharacteristic| c@).push(characteristics@[i as int]@));
        i = i + 1;
    }
    Ok(GattService { uuid: service_uuid, primary: def.primary, characteristics })
}


/// What the peripheral manager reports to the host process.
#[derive(Debug)]
pub enum ManagerMessage {
    /// The peripheral exists and is powered.
    Created,
    /// Something failed; the text says what.
    Error(String),
    /// A service was registered; its UUID in hyphenated form.
    ServiceAdded(String),
    AdvertisingStarted,
    AdvertisingStopped,
    /// A central (un)subscribed to notifications.
    SubscriptionUpdate(SubscriptionUpdate),
    /// A central wants to read; the host answers under the request id.
    ReadRequest(u64, ReadRequest),
    /// A central wants to write; the host answers under the request id.
    WriteRequest(u64, WriteRequest),
}

/// How an operation on the radio ended.
pub enum RadioOutcome {
    /// It succeeded.
    Done,
    /// It failed; the radio's error, as text.
    Failed(String),
    /// There is no peripheral (it was never created).
    NotInitialized,
}

pub open spec fn error_text(m: ManagerMessage, text: Seq<char>) -> bool {
    m matches ManagerMessage::Error(t) && t@ == text
}

/// What the host hears when an operation failed with `outcome`, the
/// operation's failure being reported with the prefix `prefix`.
pub open spec fn failure_report(outcome: RadioOutcome, prefix: Seq<char>, m: ManagerMessage) -> bool {
    match outcome {
        RadioOutcome::Done => true,
        RadioOutcome::Failed(e) => error_text(m, prefix + e@),
        RadioOutcome::NotInitialized => error_text(m, "Peripheral not initialized"@),
    }
}

fn not_initialized() -> (m: ManagerMessage)
    ensures
        error_text(m, "Peripheral not initialized"@),
{
    ManagerMessage::Error(crate::text::owned("Peripheral not initialized"))
}

/// The report for a peripheral that could not be created.
pub fn creation_failed(error: &str) -> (m: ManagerMessage)
    ensures
        error_text(m, "Failed to create peripheral: "@ + error@),
{
    ManagerMessage::Error(concat("Failed to create peripheral: ", error))
}

/// How many times the manager checks, 100 ms apart, whether a new peripheral
/// is powered before it gives up.
pub const POWER_CHECKS: u32 = 50;

/// What to do after a power check.
#[derive(Debug, Clone, Copy, PartialEq, Eq, Structural)]
pub enum PowerWait {
    /// The peripheral is powered: report it created.
    Powered,
    /// Wait 100 ms and check again.
    CheckAgain,
    /// Give up: the peripheral did not power on.
    GiveUp,
}

/// The decision after the power check number `checks_done` (counting from 1).
pub fn power_wait_step(checks_done: u32, powered: bool) -> (r: PowerWait)
    requires
        1 <= checks_done <= POWER_CHECKS,
    ensures
        powered ==> r == PowerWait::Powered,
        !powered && checks_done < POWER_CHECKS ==> r == PowerWait::CheckAgain,
        !powered && checks_done == POWER_CHECKS ==> r == PowerWait::GiveUp,
{
    if powered {
        PowerWait::Powered
    } else if checks_done < POWER_CHECKS {
        PowerWait::CheckAgain
    } else {
        PowerWait::GiveUp
    }
}

/// The report for a peripheral that never powered on.
pub fn power_failure() -> (m: ManagerMessage)
    ensures
        error_text(m, "Peripheral failed to power on"@),
{
    ManagerMessage::Error(crate::text::owned("Peripheral failed to power on"))
}

/// Records the outcome of registering `service` with the radio: a success
/// keeps the service and reports its UUID, a failure is reported.
pub fn service_added(state: &mut PeripheralManagerState, service: GattService, outcome: RadioOutcome) -> (m: ManagerMessage)
    ensures
        outcome is Done ==> final(state).services@ == old(state).services@.push(service)
            && (m matches ManagerMessage::ServiceAdded(u) && u@ == hyphenated(service.uuid@)),
        !(outcome is Done) ==> final(state).services == old(state).services,
        failure_report(outcome, "Failed to add service: "@, m),
        final(state).pending_read_requests == old(state).pending_read_requests,
        final(state).pending_write_requests == old(state).pending_write_requests,
        final(state).counter() == old(state).counter(),
        final(state).is_advertising == old(state).is_advertising,
        final(state).device_name == old(state).device_name,
        final(state).handed == old(state).handed,
{
    match outcome {
        RadioOutcome::Done => {
            let uuid = uuid_text(service.uuid);
            state.services.push(service);
            ManagerMessage::ServiceAdded(uuid)
        },
        RadioOutcome::Failed(e) => ManagerMessage::Error(concat("Failed to add service: ", e.as_str())),
        RadioOutcome::NotInitialized => not_initialized(),
    }
}

/// The UUIDs for the first `n` strings, or the error for the first of them
/// that does not parse.
pub open spec fn uuids_prefix(list: Seq<String>, n: nat) -> Result<Seq<Seq<u8>>, Seq<char>>
    decreases n,
{
    if n == 0 {
        Ok(Seq::empty())
    } else {
        match uuids_prefix(list, (n - 1) as nat) {
            Err(e) => Err(e),
            Ok(prev) => match parsed_uuid(list[n - 1]@) {
                Err(e) => Err("Invalid UUID: "@ + e),
                Ok(b) => Ok(prev.push(b)),
            },
        }
    }
}

proof fn lemma_uuids_error_persists(list: Seq<String>, i: nat, n: nat, e: Seq<char>)
    requires
        i <= n,
        uuids_prefix(list, i) == Err::<Seq<Seq<u8>>, Seq<char>>(e),
    ensures
        uuids_prefix(list, n) == Err::<Seq<Seq<u8>>, Seq<char>>(e),
    decreases n - i,
{
    if i < n {
        lemma_uuids_error_persists(list, i, (n - 1) as nat, e);
    }
}

/// Parses the service UUIDs to advertise, in order; the first one that does
/// not parse makes the error.
pub fn parse_advertised_uuids(service_uuids: &Vec<String>) -> (r: Result<Vec<[u8; 16]>, String>)
    ensures
        match (r, uuids_prefix(service_uuids@, service_uuids@.len())) {
            (Ok(v), Ok(m)) => v@.map_values(|b: [u8; 16]| b@) == m,
            (Err(e), Err(m)) => e@ == m,
            _ => false,
        },
{
    let mut uuids: Vec<[u8; 16]> = Vec::new();
    let mut i: usize = 0;
    assert(uuids@.map_values(|b: [u8; 16]| b@) =~= Seq::<Seq<u8>>::empty());
    while i < service_uuids.len()
        invariant
            i <= service_uuids@.len(),
            uuids@.len() == i,
            uuids_prefix(service_uuids@, i as nat) == Ok::<Seq<Seq<u8>>, Seq<char>>(uuids@.map_values(|b: [u8; 16]| b@)),
        decreases service_uuids.len() - i,
    {
        match parse_uuid(service_uuids[i].as_str()) {
            Ok(b) => {
                let ghost before = uuids@;
                uuids.push(b);
                assert(uuids@.map_values(|b: [u8; 16]| b@) =~= before.map_values(|b: [u8; 16]| b@).push(b@));
            },
            Err(e) => {
                let msg = concat("Invalid UUID: ", e.as_str());
                proof {
                    lemma_uuids_error_persists(service_uuids@, (i + 1) as nat, service_uuids@.len(), msg@);
                }
                return Err(msg);
            },
        }
        i = i + 1;
    }
    Ok(uuids)
}

/// The advertising flag after an attempt to start (`start`) or to stop
/// advertising: a successful attempt sets it to what was attempted, a failed
/// one leaves it as it was.
pub open spec fn advertising_step(flag: bool, start: bool, succeeded: bool) -> bool {
    if succeeded { start } else { flag }
}

/// The advertising flag after the attempts `attempts` (each: whether it was
/// a start, whether it succeeded) in the order they finished, from `init`.
pub open spec fn flag_after(init: bool, attempts: Seq<(bool, bool)>) -> bool
    decreases attempts.len(),
{
    if attempts.len() == 0 {
        init
    } else {
        advertising_step(flag_after(init, attempts.drop_last()), attempts.last().0, attempts.last().1)
    }
}

/// Attempt `i` succeeded and no later one did.
pub open spec fn last_success_at(attempts: Seq<(bool, bool)>, i: int) -> bool {
    &&& 0 <= i < attempts.len()
    &&& attempts[i].1
    &&& forall|j: int| i < j < attempts.len() ==> !#[trigger] attempts[j].1
}

/// Whether the last successful attempt was a start; `init` when none
/// succeeded.
pub open spec fn last_success_started(init: bool, attempts: Seq<(bool, bool)>) -> bool {
    if exists|i: int| last_success_at(attempts, i) {
        attempts[choose|i: int| last_success_at(attempts, i)].0
    } else {
        init
    }
}

/// The peripheral advertises exactly when the last start or stop attempt
/// that succeeded was a start (or, when none succeeded, as it did before).
pub proof fn lemma_advertising_follows_last_success(init: bool, attempts: Seq<(bool, bool)>)
    ensures
        flag_after(init, attempts) == last_success_started(init, attempts),
    decreases attempts.len(),
{
    if attempts.len() > 0 {
        let prev = attempts.drop_last();
        let n = attempts.len() - 1;
        lemma_advertising_follows_last_success(init, prev);
        if attempts[n].1 {
            assert(last_success_at(attempts, n));
            let c = choose|i: int| last_success_at(attempts, i);
            assert(c == n) by {
                if c < n {
                    assert(!attempts[n].1);
                }
            }
        } else {
            assert forall|i: int| last_success_at(attempts, i) <==> last_success_at(prev, i) by {
                if last_success_at(prev, i) {
                    assert forall|j: int| i < j < attempts.len() implies !#[trigger] attempts[j].1 by {
                        if j < n {
                            assert(attempts[j] == prev[j]);
                        }
                    }
                }
                if last_success_at(attempts, i) {
                    assert(i != n);
                    assert forall|j: int| i < j < prev.len() implies !#[trigger] prev[j].1 by {
                        assert(attempts[j] == prev[j]);
                    }
                }
            }
            if exists|i: int| last_success_at(prev, i) {
                let a = choose|i: int| last_success_at(attempts, i);
                let b = choose|i: int| last_success_at(prev, i);
                assert(last_success_at(attempts, a));
                assert(last_success_at(prev, b));
                assert(a == b) by {
                    if a < b {
                        assert(!attempts[b].1);
                    } else if b < a {
                        assert(!prev[a].1);
                    }
                }
            }
        }
    }
}

/// Records an attempt to advertise as `device_name`: the name is kept
/// whatever happens; a success marks the peripheral as advertising.
pub fn advertising_started(state: &mut PeripheralManagerState, device_name: String, outcome: RadioOutcome) -> (m: ManagerMessage)
    ensures
        final(state).device_name == Some(device_name),
        final(state).handed == old(state).handed,
        final(state).is_advertising == advertising_step(old(state).is_advertising, true, outcome is Done),
        outcome is Done ==> final(state).is_advertising && m is AdvertisingStarted,
        !(outcome is Done) ==> final(state).is_advertising == old(state).is_advertising,
        failure_report(outcome, "Failed to start advertising: "@, m),
        final(state).pending_read_requests == old(state).pending_read_requests,
        final(state).pending_write_requests == old(state).pending_write_requests,
        final(state).counter() == old(state).counter(),
        final(state).services == old(state).services,
{
    state.device_name = Some(device_name);
    match outcome {
        RadioOutcome::Done => {
            state.is_advertising = true;
            ManagerMessage::AdvertisingStarted
        },
        RadioOutcome::Failed(e) => ManagerMessage::Error(concat("Failed to start advertising: ", e.as_str())),
        RadioOutcome::NotInitialized => not_initialized(),
    }
}

/// Records an attempt to stop advertising: a success marks the peripheral as
/// no longer advertising.
pub fn advertising_stopped(state: &mut PeripheralManagerState, outcome: RadioOutcome) -> (m: ManagerMessage)
    ensures
        final(state).is_advertising == advertising_step(old(state).is_advertising, false, outcome is Done),
        outcome is Done ==> !final(state).is_advertising && m is AdvertisingStopped,
        !(outcome is Done) ==> final(state).is_advertising == old(state).is_advertising,
        failure_report(outcome, "Failed to stop advertising: "@, m),
        final(state).device_name == old(state).device_name,
        final(state).handed == old(state).handed,
        final(state).pending_read_requests == old(state).pending_read_requests,
        final(state).pending_write_requests == old(state).pending_write_requests,
        final(state).counter() == old(state).counter(),
        final(state).services == old(state).services,
{
    match outcome {
        RadioOutcome::Done => {
            state.is_advertising = false;
            ManagerMessage::AdvertisingStopped
        },
        RadioOutcome::Failed(e) => ManagerMessage::Error(concat("Failed to stop advertising: ", e.as_str())),
        RadioOutcome::NotInitialized => not_initialized(),
    }
}

/// Parses the UUID of a characteristic whose value is to be updated.
pub fn parse_characteristic_uuid(characteristic_uuid: &str) -> (r: Result<[u8; 16], String>)
    ensures
        match (r, parsed_uuid(characteristic_uuid@)) {
            (Ok(b), Ok(m)) => b@ == m,
            (Err(e), Err(m)) => e@ == "Invalid characteristic UUID: "@ + m,
            _ => false,
        },
{
    match parse_uuid(characteristic_uuid) {
        Ok(b) => Ok(b),
        Err(e) => Err(concat("Invalid characteristic UUID: ", e.as_str())),
    }
}

/// The report after updating a characteristic's value: nothing on success.
pub fn characteristic_updated(outcome: RadioOutcome) -> (m: Option<ManagerMessage>)
    ensures
        outcome is Done <==> m.is_none(),
        m matches Some(msg) ==> failure_report(outcome, "Failed to update characteristic: "@, msg),
{
    match outcome {
        RadioOutcome::Done => None,
        RadioOutcome::Failed(e) => Some(ManagerMessage::Error(concat("Failed to update characteristic: ", e.as_str()))),
        RadioOutcome::NotInitialized => Some(not_initialized()),
    }
}

/// Passes the host's answer to the pending read request `request_id`.
pub fn respond_to_read_request(state: &mut PeripheralManagerState, request_id: u64, value: Vec<u8>, success: bool) -> (r: Result<(), String>)
    ensures
        final(state).pending_read_requests@ == old(state).pending_read_requests@.remove(request_id),
        r is Ok ==> old(state).pending_read_requests@.contains_key(request_id),
        r matches Err(e) ==> e@ == "Request not found or already completed"@,
        final(state).pending_write_requests == old(state).pending_write_requests,
        final(state).counter() == old(state).counter(),
        final(state).services == old(state).services,
        final(state).is_advertising == old(state).is_advertising,
        final(state).device_name == old(state).device_name,
        old(state).pending_read_requests@.contains_key(request_id)
            ==> final(state).handed@ == old(state).handed@.push(HandedAnswer::Read(request_id, (ReadRequestResponse { value: value, success: success }))),
        !old(state).pending_read_requests@.contains_key(request_id) ==> final(state).handed == old(state).handed,
{
    let response = ReadRequestResponse { value, success };
    if state.complete_read_request(request_id, response) {
        Ok(())
    } else {
        Err(crate::text::owned("Request not found or already completed"))
    }
}

/// Passes the host's answer to the pending write request `request_id`.
pub fn respond_to_write_request(state: &mut PeripheralManagerState, request_id: u64, success: bool) -> (r: Result<(), String>)
    ensures
        final(state).pending_write_requests@ == old(state).pending_write_requests@.remove(request_id),
        r is Ok ==> old(state).pending_write_requests@.contains_key(request_id),
        r matches Err(e) ==> e@ == "Request not found or already completed"@,
        final(state).pending_read_requests == old(state).pending_read_requests,
        final(state).counter() == old(state).counter(),
        final(state).services == old(state).services,
        final(state).is_advertising == old(state).is_advertising,
        final(state).device_name == old(state).device_name,
        old(state).pending_write_requests@.contains_key(request_id)
            ==> final(state).handed@ == old(state).handed@.push(HandedAnswer::Write(request_id, (WriteRequestResponse { success: success }))),
        !old(state).pending_write_requests@.contains_key(request_id) ==> final(state).handed == old(state).handed,
{
    let response = WriteRequestResponse { success };
    if state.complete_write_request(request_id, response) {
        Ok(())
    } else {
        Err(crate::text::owned("Request not found or already completed"))
    }
}

/// Whether the peripheral is advertising.
pub fn is_advertising(state: &PeripheralManagerState) -> (r: bool)
    ensures
        r == state.is_advertising,
{
    state.is_advertising
}

/// What the radio reports to the peripheral manager.
pub enum PeripheralEventInfo {
    StateUpdate { is_powered: bool },
    SubscriptionUpdate { characteristic: String, service: String, subscribed: bool },
    ReadRequest { characteristic: String, service: String, offset: u64 },
    WriteRequest { characteristic: String, service: String, value: Vec<u8>, offset: u64 },
}

/// A request that now waits for the host's answer, with the end on which
/// the answer arrives.
pub enum PendingAnswer {
    Read(u64, Receiver<ReadRequestResponse>),
    Write(u64, Receiver<WriteRequestResponse>),
}

/// Handles one event of the radio: subscription changes are reported; read
/// and write requests get an id, are recorded as pending and are reported;
/// power changes are only noted.
pub fn handle_peripheral_event(state: &mut PeripheralManagerState, event: PeripheralEventInfo) -> (r: (Option<ManagerMessage>, Option<PendingAnswer>))
    ensures
        match event {
            PeripheralEventInfo::StateUpdate { .. } => r.0.is_none() && r.1.is_none() && *final(state) == *old(state),
            PeripheralEventInfo::SubscriptionUpdate { characteristic, service, subscribed } => {
                &&& r.1.is_none()
                &&& *final(state) == *old(state)
                &&& r.0 matches Some(ManagerMessage::SubscriptionUpdate(u))
                &&& u.characteristic_uuid == characteristic && u.service_uuid == service && u.subscribed == subscribed
            },
            PeripheralEventInfo::ReadRequest { characteristic, service, offset } => {
                &&& r.0 matches Some(ManagerMessage::ReadRequest(id, q))
                &&& id == old(state).counter()
                &&& q.characteristic_uuid == characteristic && q.service_uuid == service && q.offset == offset
                &&& r.1 matches Some(PendingAnswer::Read(pid, _)) && pid == id
                &&& final(state).pending_read_requests@.dom() == old(state).pending_read_requests@.dom().insert(id)
                &&& forall|k: u64| k != id && #[trigger] old(state).pending_read_requests@.contains_key(k)
                    ==> final(state).pending_read_requests@[k] == old(state).pending_read_requests@[k]
                &&& final(state).pending_write_requests == old(state).pending_write_requests
                &&& final(state).counter() == next_counter(old(state).counter())
            },
            PeripheralEventInfo::WriteRequest { characteristic, service, value, offset } => {
                &&& r.0 matches Some(ManagerMessage::WriteRequest(id, q))
                &&& id == old(state).counter()
                &&& q.characteristic_uuid == characteristic && q.service_uuid == service && q.offset == offset
                &&& q.value == value
                &&& r.1 matches Some(PendingAnswer::Write(pid, _)) && pid == id
                &&& final(state).pending_write_requests@.dom() == old(state).pending_write_requests@.dom().insert(id)
                &&& forall|k: u64| k != id && #[trigger] old(state).pending_write_requests@.contains_key(k)
                    ==> final(state).pending_write_requests@[k] == old(state).pending_write_requests@[k]
                &&& final(state).pending_read_requests == old(state).pending_read_requests
                &&& final(state).counter() == next_counter(old(state).counter())
            },
        },
        final(state).services == old(state).services,
        final(state).is_advertising == old(state).is_advertising,
        final(state).device_name == old(state).device_name,
        final(state).handed == old(state).handed,
{
    match event {
        PeripheralEventInfo::StateUpdate { is_powered } => (None, None),
        PeripheralEventInfo::SubscriptionUpdate { characteristic, service, subscribed } => {
            let update = SubscriptionUpdate { characteristic_uuid: characteristic, service_uuid: service, subscribed };
            (Some(ManagerMessage::SubscriptionUpdate(update)), None)
        },
        PeripheralEventInfo::ReadRequest { characteristic, service, offset } => {
            let (id, rx) = state.register_read_request();
            let request = ReadRequest { characteristic_uuid: characteristic, service_uuid: service, offset };
            (Some(ManagerMessage::ReadRequest(id, request)), Some(PendingAnswer::Read(id, rx)))
        },
        PeripheralEventInfo::WriteRequest { characteristic, service, value, offset } => {
            let (id, rx) = state.register_write_request();
            let request = WriteRequest { characteristic_uuid: characteristic, service_uuid: service, value, offset };
            (Some(ManagerMessage::WriteRequest(id, request)), Some(PendingAnswer::Write(id, rx)))
        },
    }
}

/// How waiting for the host's answer to a request ended.
pub enum AnswerWait<T> {
    /// The host answered.
    Answered(T),
    /// The answering side went away without an answer.
    Abandoned,
    /// No answer came within the time limit.
    TimedOut,
}

/// The status passed back to the central for its request.
#[derive(Debug, Clone, Copy, PartialEq, Eq, Structural)]
pub enum RequestStatus {
    Success,
    RequestNotSupported,
}

/// The reply to a read request: the host's value with success or refusal as
/// it said; an empty refusal when no answer came. A request that timed out
/// is forgotten.
pub fn read_reply(state: &mut PeripheralManagerState, request_id: u64, wait: AnswerWait<ReadRequestResponse>) -> (r: (Vec<u8>, RequestStatus))
    ensures
        match wait {
            AnswerWait::Answered(resp) => r.0 == resp.value
                && r.1 == (if resp.success { RequestStatus::Success } else { RequestStatus::RequestNotSupported }),
            _ => r.0@ == Seq::<u8>::empty() && r.1 == RequestStatus::RequestNotSupported,
        },
        wait is TimedOut ==> final(state).pending_read_requests@ == old(state).pending_read_requests@.remove(request_id),
        !(wait is TimedOut) ==> final(state).pending_read_requests == old(state).pending_read_requests,
        final(state).pending_write_requests == old(state).pending_write_requests,
        final(state).counter() == old(state).counter(),
        final(state).services == old(state).services,
        final(state).is_advertising == old(state).is_advertising,
        final(state).device_name == old(state).device_name,
        final(state).handed == old(state).handed,
{
    match wait {
        AnswerWait::Answered(resp) => {
            let status = if resp.success { RequestStatus::Success } else { RequestStatus::RequestNotSupported };
            (resp.value, status)
        },
        AnswerWait::Abandoned => (Vec::new(), RequestStatus::RequestNotSupported),
        AnswerWait::TimedOut => {
            state.drop_read_request(request_id);
            (Vec::new(), RequestStatus::RequestNotSupported)
        },
    }
}

/// The reply to a write request: success or refusal as the host said; a
/// refusal when no answer came. A request that timed out is forgotten.
pub fn write_reply(state: &mut PeripheralManagerState, request_id: u64, wait: AnswerWait<WriteRequestResponse>) -> (r: RequestStatus)
    ensures
        match wait {
            AnswerWait::Answered(resp) => r == (if resp.success { RequestStatus::Success } else { RequestStatus::RequestNotSupported }),
            _ => r == RequestStatus::RequestNotSupported,
        },
        wait is TimedOut ==> final(state).pending_write_requests@ == old(state).pending_write_requests@.remove(request_id),
        !(wait is TimedOut) ==> final(state).pending_write_requests == old(state).pending_write_requests,
        final(state).pending_read_requests == old(state).pending_read_requests,
        final(state).counter() == old(state).counter(),
        final(state).services == old(state).services,
        final(state).is_advertising == old(state).is_advertising,
        final(state).device_name == old(state).device_name,
        final(state).handed == old(state).handed,
{
    match wait {
        AnswerWait::Answered(resp) => if resp.success { RequestStatus::Success } else { RequestStatus::RequestNotSupported },
        AnswerWait::Abandoned => RequestStatus::RequestNotSupported,
        AnswerWait::TimedOut => {
            state.drop_write_request(request_id);
            RequestStatus::RequestNotSupported
        },
    }
}

/// A read request is answered once, with what the host said: when the host
/// answers a pending read request twice (`s1` is `s0` after the first
/// [`respond_to_read_request`], `s2` is `s1` after the second), the one
/// answer handed to the requester carries the value and success flag of the
/// first, and the request is no longer pending.
pub proof fn lemma_read_answer_handed_once(
    s0: PeripheralManagerState,
    s1: PeripheralManagerState,
    s2: PeripheralManagerState,
    id: u64,
    value: Vec<u8>,
    success: bool,
    other: ReadRequestResponse,
)
    requires
        s0.pending_read_requests@.contains_key(id),
        s1.pending_read_requests@ == s0.pending_read_requests@.remove(id),
        s1.handed@ == s0.handed@.push(HandedAnswer::Read(id, (ReadRequestResponse { value: value, success: success }))),
        s2.pending_read_requests@ == s1.pending_read_requests@.remove(id),
        s1.pending_read_requests@.contains_key(id)
            ==> s2.handed@ == s1.handed@.push(HandedAnswer::Read(id, other)),
        !s1.pending_read_requests@.contains_key(id) ==> s2.handed == s1.handed,
    ensures
        s2.handed@.len() == s0.handed@.len() + 1,
        s2.handed@.last() matches HandedAnswer::Read(k, a) && k == id && a.value == value && a.success == success,
        !s2.pending_read_requests@.contains_key(id),
{
}

/// A write request is answered once, with what the host said: when the host
/// answers a pending write request twice, the one answer handed to the
/// requester carries the success flag of the first.
pub proof fn lemma_write_answer_handed_once(
    s0: PeripheralManagerState,
    s1: PeripheralManagerState,
    s2: PeripheralManagerState,
    id: u64,
    success: bool,
    other: WriteRequestResponse,
)
    requires
        s0.pending_write_requests@.contains_key(id),
        s1.pending_write_requests@ == s0.pending_write_requests@.remove(id),
        s1.handed@ == s0.handed@.push(HandedAnswer::Write(id, (WriteRequestResponse { success: success }))),
        s2.pending_write_requests@ == s1.pending_write_requests@.remove(id),
        s1.pending_write_requests@.contains_key(id)
            ==> s2.handed@ == s1.handed@.push(HandedAnswer::Write(id, other)),
        !s1.pending_write_requests@.contains_key(id) ==> s2.handed == s1.handed,
    ensures
        s2.handed@.len() == s0.handed@.len() + 1,
        s2.handed@.last() matches HandedAnswer::Write(k, a) && k == id && a.success == success,
        !s2.pending_write_requests@.contains_key(id),
{
}

} // verus!
