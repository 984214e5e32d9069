//! The life cycle of a remote peripheral seen from the central: connecting
//! (with retries), waiting for its services, disconnecting, and choosing the
//! characteristic to (un)subscribe.

use vstd::prelude::*;
use vstd::string::*;
use crate::central_manager_utils::{contains_flags, has_flags, NOTIFY};

verus! {

/// Where a peripheral is in its life cycle.
#[derive(Debug, Clone, Copy, PartialEq, Eq, Structural)]
pub enum PeripheralStateEnum {
    Disconnected,
    Disconnecting,
    Connecting,
    Connected,
    DiscoveringServices,
    ServicesDiscovered,
}

/// A remote peripheral: its id and where it is in its life cycle.
#[derive(Debug, Clone)]
pub struct PeripheralState {
    pub id: String,
    pub state: PeripheralStateEnum,
}

impl PeripheralState {
    /// A peripheral that is not connected.
    pub fn new(id: String) -> (r: Self)
        ensures
            r.id == id,
            r.state == PeripheralStateEnum::Disconnected,
    {
        PeripheralState { id, state: PeripheralStateEnum::Disconnected }
    }

    /// Moves the peripheral to `new_state`.
    pub fn set_state(&mut self, new_state: PeripheralStateEnum)
        ensures
            final(self).state == new_state,
            final(self).id == old(self).id,
    {
        self.state = new_state;
    }
}

/// How many times connecting is tried.
pub const CONNECT_ATTEMPTS: u32 = 3;

/// How one connection attempt ended.
#[derive(Debug, Clone, Copy, PartialEq, Eq, Structural)]
pub enum AttemptOutcome {
    Connected,
    Failed,
    TimedOut,
}

/// What to do after a connection attempt.
#[derive(Debug, Clone, Copy, PartialEq, Eq, Structural)]
pub enum ConnectStep {
    /// Connected: go on with service discovery.
    Connected,
    /// Pause 500 ms and try again.
    Retry,
    /// All attempts failed.
    GiveUp,
}

/// Starts connecting.
pub fn begin_connect(p: &mut PeripheralState)
    ensures
        final(p).state == PeripheralStateEnum::Connecting,
        final(p).id == old(p).id,
{
    p.set_state(PeripheralStateEnum::Connecting);
}

/// Decides after the connection attempt number `attempt` (from 1): a
/// success connects the peripheral; a failure is retried until
/// [`CONNECT_ATTEMPTS`] attempts were made, after which the peripheral is
/// disconnected again.
pub fn connect_attempt_step(p: &mut PeripheralState, attempt: u32, outcome: AttemptOutcome) -> (r: ConnectStep)
    requires
        1 <= attempt <= CONNECT_ATTEMPTS,
    ensures
        final(p).id == old(p).id,
        outcome == AttemptOutcome::Connected ==> r == ConnectStep::Connected && final(p).state == PeripheralStateEnum::Connected,
        outcome != AttemptOutcome::Connected && attempt < CONNECT_ATTEMPTS ==> r == ConnectStep::Retry && final(p).state == old(p).state,
        outcome != AttemptOutcome::Connected && attempt == CONNECT_ATTEMPTS ==> r == ConnectStep::GiveUp && final(p).state == PeripheralStateEnum::Disconnected,
{
    match outcome {
        AttemptOutcome::Connected => {
            p.set_state(PeripheralStateEnum::Connected);
            ConnectStep::Connected
        },
        _ => {
            if attempt < CONNECT_ATTEMPTS {
                ConnectStep::Retry
            } else {
                p.set_state(PeripheralStateEnum::Disconnected);
                ConnectStep::GiveUp
            }
        },
    }
}

/// Starts disconnecting.
pub fn begin_disconnect(p: &mut PeripheralState)
    ensures
        final(p).state == PeripheralStateEnum::Disconnecting,
        final(p).id == old(p).id,
{
    p.set_state(PeripheralStateEnum::Disconnecting);
}

/// Records how disconnecting ended: disconnected on success, still
/// connected otherwise.
pub fn disconnect_outcome(p: &mut PeripheralState, disconnected: bool)
    ensures
        final(p).id == old(p).id,
        final(p).state == (if disconnected { PeripheralStateEnum::Disconnected } else { PeripheralStateEnum::Connected }),
{
    if disconnected {
        p.set_state(PeripheralStateEnum::Disconnected);
    } else {
        p.set_state(PeripheralStateEnum::Connected);
    }
}

/// What service discovery learns while it waits.
pub enum DiscoveryInput {
    /// The number of services the peripheral already knows.
    KnownServices(usize),
    /// An adapter event announced the services of the peripheral with this id.
    ServicesAdvertised(String),
    /// Some other adapter event.
    OtherEvent,
    /// No further event came in time (or the events ended).
    NoMoreEvents,
}

/// Where service discovery stands.
#[derive(Debug, Clone, Copy, PartialEq, Eq, Structural)]
pub enum DiscoveryStep {
    Discovered,
    KeepWaiting,
    Failed,
}

/// Starts waiting for the peripheral's services.
pub fn begin_discovery(p: &mut PeripheralState)
    ensures
        final(p).state == PeripheralStateEnum::DiscoveringServices,
        final(p).id == old(p).id,
{
    p.set_state(PeripheralStateEnum::DiscoveringServices);
}

/// One step of service discovery: the services are discovered when the
/// peripheral already knows some, or when their advertisement for this very
/// peripheral arrives; discovery fails when no more events come (the state
/// then stays as it was).
pub fn discovery_step(p: &mut PeripheralState, input: DiscoveryInput) -> (r: DiscoveryStep)
    ensures
        final(p).id == old(p).id,
        r == (match input {
            DiscoveryInput::KnownServices(n) => if n > 0 { DiscoveryStep::Discovered } else { DiscoveryStep::KeepWaiting },
            DiscoveryInput::ServicesAdvertised(id) => if id@ == old(p).id@ { DiscoveryStep::Discovered } else { DiscoveryStep::KeepWaiting },
            DiscoveryInput::OtherEvent => DiscoveryStep::KeepWaiting,
            DiscoveryInput::NoMoreEvents => DiscoveryStep::Failed,
        }),
        r == DiscoveryStep::Discovered ==> final(p).state == PeripheralStateEnum::ServicesDiscovered,
        r != DiscoveryStep::Discovered ==> final(p).state == old(p).state,
{
    match input {
        DiscoveryInput::KnownServices(n) => {
            if n > 0 {
                p.set_state(PeripheralStateEnum::ServicesDiscovered);
                DiscoveryStep::Discovered
            } else {
                DiscoveryStep::KeepWaiting
            }
        },
        DiscoveryInput::ServicesAdvertised(id) => {
            if crate::text::str_eq(id.as_str(), p.id.as_str()) {
                p.set_state(PeripheralStateEnum::ServicesDiscovered);
                DiscoveryStep::Discovered
            } else {
                DiscoveryStep::KeepWaiting
            }
        },
        DiscoveryInput::OtherEvent => DiscoveryStep::KeepWaiting,
        DiscoveryInput::NoMoreEvents => DiscoveryStep::Failed,
    }
}

/// Whether services must be discovered before (un)subscribing.
pub fn needs_service_discovery(state: PeripheralStateEnum) -> (r: bool)
    ensures
        r == (state != PeripheralStateEnum::ServicesDiscovered),
{
    state != PeripheralStateEnum::ServicesDiscovered
}

/// A characteristic of the peripheral: its UUID (printed) and property bits.
#[derive(Debug, Clone)]
pub struct CharacteristicSummary {
    pub uuid: String,
    pub flags: u8,
}

/// Which characteristic an (un)subscription is about.
#[derive(Debug, Clone, Copy, PartialEq, Eq, Structural)]
pub enum CharacteristicChoice {
    /// No characteristic has the requested UUID.
    Missing,
    /// The characteristic at this position has the UUID but cannot notify.
    NotNotifiable(usize),
    /// The characteristic at this position has the UUID and can notify.
    Notifiable(usize),
}

/// The position of the first characteristic whose printed UUID is `uuid`.
pub open spec fn first_with_uuid(chars: Seq<CharacteristicSummary>, uuid: Seq<char>, i: nat) -> Option<nat>
    decreases chars.len() - i,
{
    if i >= chars.len() {
        None
    } else if chars[i as int].uuid@ == uuid {
        Some(i)
    } else {
        first_with_uuid(chars, uuid, i + 1)
    }
}

/// The characteristic to (un)subscribe: the first one with the requested
/// UUID, if it can notify.
pub open spec fn choose_characteristic_spec(chars: Seq<CharacteristicSummary>, uuid: Seq<char>) -> CharacteristicChoice {
    match first_with_uuid(chars, uuid, 0) {
        None => CharacteristicChoice::Missing,
        Some(i) => if has_flags(chars[i as int].flags, NOTIFY) {
            CharacteristicChoice::Notifiable(i as usize)
        } else {
            CharacteristicChoice::NotNotifiable(i as usize)
        },
    }
}

/// Finds the characteristic that an (un)subscription of
/// `characteristic_uuid` is about.
pub fn choose_characteristic(chars: &Vec<CharacteristicSummary>, characteristic_uuid: &str) -> (r: CharacteristicChoice)
    ensures
        r == choose_characteristic_spec(chars@, characteristic_uuid@),
        r matches CharacteristicChoice::Notifiable(i) ==> i < chars@.len(),
        r matches CharacteristicChoice::NotNotifiable(i) ==> i < chars@.len(),
{
    let mut i: usize = 0;
    while i < chars.len()
        invariant
            i <= chars@.len(),
            first_with_uuid(chars@, characteristic_uuid@, 0) == first_with_uuid(chars@, characteristic_uuid@, i as nat),
        decreases chars.len() - i,
    {
        if crate::text::str_eq(chars[i].uuid.as_str(), characteristic_uuid) {
            if contains_flags(chars[i].flags, NOTIFY) {
                return CharacteristicChoice::Notifiable(i);
            } else {
                return CharacteristicChoice::NotNotifiable(i);
            }
        }
        i = i + 1;
    }
    CharacteristicChoice::Missing
}

proof fn lemma_first_with_uuid(chars: Seq<CharacteristicSummary>, uuid: Seq<char>, k: nat)
    ensures
        first_with_uuid(chars, uuid, k) matches Some(i) ==> {
            &&& k <= i < chars.len()
            &&& chars[i as int].uuid@ == uuid
            &&& forall|j: int| k <= j < i ==> chars[j].uuid@ != uuid
        },
        first_with_uuid(chars, uuid, k) is None ==> forall|j: int| k <= j < chars.len() ==> chars[j].uuid@ != uuid,
    decreases chars.len() - k,
{
    if k < chars.len() {
        lemma_first_with_uuid(chars, uuid, k + 1);
    }
}

/// The characteristic chosen for an (un)subscription is the first one with
/// the requested UUID; it is taken as able to notify exactly when its NOTIFY
/// bit (0x10) is set, whatever its other bits; with no such characteristic
/// the choice is `Missing`.
pub proof fn lemma_choice_follows_notify_bit(chars: Seq<CharacteristicSummary>, uuid: Seq<char>)
    ensures
        (forall|j: int| 0 <= j < chars.len() ==> chars[j].uuid@ != uuid)
            <==> choose_characteristic_spec(chars, uuid) == CharacteristicChoice::Missing,
        forall|i: int| 0 <= i < chars.len() && chars[i].uuid@ == uuid
            && (forall|j: int| 0 <= j < i ==> chars[j].uuid@ != uuid)
            ==> choose_characteristic_spec(chars, uuid) == (if #[trigger] chars[i].flags & 0x10u8 != 0 {
                CharacteristicChoice::Notifiable(i as usize)
            } else {
                CharacteristicChoice::NotNotifiable(i as usize)
            }),
{
    lemma_first_with_uuid(chars, uuid, 0);
    assert forall|i: int| 0 <= i < chars.len() && chars[i].uuid@ == uuid
        && (forall|j: int| 0 <= j < i ==> chars[j].uuid@ != uuid)
        implies choose_characteristic_spec(chars, uuid) == (if #[trigger] chars[i].flags & 0x10u8 != 0 {
            CharacteristicChoice::Notifiable(i as usize)
        } else {
            CharacteristicChoice::NotNotifiable(i as usize)
        }) by {
        let f = first_with_uuid(chars, uuid, 0);
        if let Some(m) = f {
            assert(m as int == i) by {
                if (m as int) < i {
                    assert(chars[m as int].uuid@ != uuid);
                } else if (m as int) > i {
                    assert(chars[i].uuid@ != uuid);
                }
            }
        }
        let b = chars[i].flags;
        assert((b & 0x10u8 == 0x10u8) == (b & 0x10u8 != 0)) by (bit_vector);
    }
    if choose_characteristic_spec(chars, uuid) == CharacteristicChoice::Missing {
        assert(first_with_uuid(chars, uuid, 0) is None);
    }
}

} // verus!
