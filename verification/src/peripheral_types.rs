//! Definitions of the services and characteristics that the peripheral
//! (server) mode exposes, and of the requests it reports.
//!
//! The host hands these over as maps; the functions here hold what decoding
//! such a map decides: which keys are read, which are required and which
//! default.

use vstd::prelude::*;
use vstd::string::*;

verus! {

/// Property flags of a characteristic.
#[derive(Debug, Clone, Copy, PartialEq, Eq, Structural)]
pub struct CharacteristicProperties {
    pub read: bool,
    pub write: bool,
    pub write_without_response: bool,
    pub notify: bool,
    pub indicate: bool,
}

pub open spec fn no_properties() -> CharacteristicProperties {
    CharacteristicProperties {
        read: false,
        write: false,
        write_without_response: false,
        notify: false,
        indicate: false,
    }
}

impl Default for CharacteristicProperties {
    /// No property set.
    fn default() -> (r: Self)
        ensures
            r == no_properties(),
    {
        Self {
            read: false,
            write: false,
            write_without_response: false,
            notify: false,
            indicate: false,
        }
    }
}

/// The model of a list of `(key, flag)` entries.
pub open spec fn entries_view(entries: Seq<(String, bool)>) -> Seq<(Seq<char>, bool)> {
    entries.map_values(|e: (String, bool)| (e.0@, e.1))
}

/// The flag stored under `key` among `entries[i..]` (the first such entry),
/// `false` when there is none.
pub open spec fn flag_from(entries: Seq<(Seq<char>, bool)>, key: Seq<char>, i: nat) -> bool
    decreases entries.len() - i,
{
    if i >= entries.len() {
        false
    } else if entries[i as int].0 == key {
        entries[i as int].1
    } else {
        flag_from(entries, key, i + 1)
    }
}

/// The flag stored under `key`, `false` when the key is absent.
pub open spec fn flag_of(entries: Seq<(Seq<char>, bool)>, key: Seq<char>) -> bool {
    flag_from(entries, key, 0)
}

/// The properties that a map of named flags describes.
pub open spec fn properties_from_entries_spec(entries: Seq<(Seq<char>, bool)>) -> CharacteristicProperties {
    CharacteristicProperties {
        read: flag_of(entries, "read"@),
        write: flag_of(entries, "write"@),
        write_without_response: flag_of(entries, "write_without_response"@),
        notify: flag_of(entries, "notify"@),
        indicate: flag_of(entries, "indicate"@),
    }
}

/// The named flags that encode `p`, in the order read, write,
/// write_without_response, notify, indicate.
pub open spec fn properties_entries_spec(p: CharacteristicProperties) -> Seq<(Seq<char>, bool)> {
    seq![
        ("read"@, p.read),
        ("write"@, p.write),
        ("write_without_response"@, p.write_without_response),
        ("notify"@, p.notify),
        ("indicate"@, p.indicate),
    ]
}

fn lookup_flag(entries: &Vec<(String, bool)>, key: &str) -> (res: bool)
    ensures
        res == flag_of(entries_view(entries@), key@),
{
    let ghost view = entries_view(entries@);
    let mut i: usize = 0;
    while i < entries.len()
        invariant
            i <= entries.len(),
            view == entries_view(entries@),
            view.len() == entries@.len(),
            flag_from(view, key@, 0) == flag_from(view, key@, i as nat),
        decreases entries.len() - i,
    {
        if same_text(entries[i].0.as_str(), key) {
            return entries[i].1;
        }
        i = i + 1;
    }
    false
}

/// `a == b` on string slices.
fn same_text(a: &str, b: &str) -> (res: bool)
    ensures
        res == (a@ == b@),
{
    crate::text::str_eq(a, b)
}

impl CharacteristicProperties {
    /// Reads the properties from named flags, as a host map
    /// `%{"read" => true, ...}` gives them: each absent key reads as `false`,
    /// unknown keys are ignored.
    pub fn from_entries(entries: &Vec<(String, bool)>) -> (r: Self)
        ensures
            r == properties_from_entries_spec(entries_view(entries@)),
    {
        Self {
            read: lookup_flag(entries, "read"),
            write: lookup_flag(entries, "write"),
            write_without_response: lookup_flag(entries, "write_without_response"),
            notify: lookup_flag(entries, "notify"),
            indicate: lookup_flag(entries, "indicate"),
        }
    }

    /// The named flags that encode these properties, one entry per property.
    pub fn to_entries(&self) -> (r: Vec<(String, bool)>)
        ensures
            entries_view(r@) == properties_entries_spec(*self),
    {
        let mut r: Vec<(String, bool)> = Vec::new();
        r.push((crate::text::owned("read"), self.read));
        r.push((crate::text::owned("write"), self.write));
        r.push((crate::text::owned("write_without_response"), self.write_without_response));
        r.push((crate::text::owned("notify"), self.notify));
        r.push((crate::text::owned("indicate"), self.indicate));
        assert(entries_view(r@) =~= properties_entries_spec(*self));
        r
    }
}

/// Encoding properties as named flags and reading them back gives the same
/// properties.
pub proof fn lemma_properties_entries_round_trip(p: CharacteristicProperties)
    ensures
        properties_from_entries_spec(properties_entries_spec(p)) == p,
{
    reveal_strlit("read");
    reveal_strlit("write");
    reveal_strlit("write_without_response");
    reveal_strlit("notify");
    reveal_strlit("indicate");
    let e = properties_entries_spec(p);
    reveal_with_fuel(flag_from, 6);
    assert("read"@.len() == 4 && "write"@.len() == 5 && "write_without_response"@.len() == 22);
    assert("notify"@.len() == 6 && "indicate"@.len() == 8);
    assert("read"@[0] == 'r' && "notify"@[0] == 'n' && "indicate"@[0] == 'i');
    assert(e[0].0 != "write"@);
    assert(e[1].0 != "write_without_response"@);
    assert(e[0].0 != "write_without_response"@);
    assert(e[0].0 != "notify"@ && e[1].0 != "notify"@ && e[2].0 != "notify"@);
    assert(e[0].0 != "indicate"@ && e[1].0 != "indicate"@ && e[2].0 != "indicate"@ && e[3].0 != "indicate"@);
}

/// Why a definition map could not be decoded.
#[derive(Debug, Clone, Copy, PartialEq, Eq, Structural)]
pub enum DecodeError {
    /// A required key is missing.
    BadArg,
}

/// A characteristic that the peripheral exposes.
#[derive(Debug, Clone)]
pub struct CharacteristicDefinition {
    pub uuid: String,
    pub properties: CharacteristicProperties,
    pub value: Option<Vec<u8>>,
}

/// A service that the peripheral exposes.
#[derive(Debug, Clone)]
pub struct ServiceDefinition {
    pub uuid: String,
    pub primary: bool,
    pub characteristics: Vec<CharacteristicDefinition>,
}

/// The characteristic definition that the decoded fields of a host map
/// give: `"uuid"` is required, `"properties"` defaults to no property,
/// `"value"` to none.
pub open spec fn characteristic_from_fields(
    uuid: Option<String>,
    properties: Option<CharacteristicProperties>,
    value: Option<Vec<u8>>,
) -> Result<CharacteristicDefinition, DecodeError> {
    match uuid {
        None => Err(DecodeError::BadArg),
        Some(u) => Ok(CharacteristicDefinition {
            uuid: u,
            properties: match properties {
                Some(p) => p,
                None => no_properties(),
            },
            value: value,
        }),
    }
}

/// The service definition that the decoded fields of a host map give:
/// `"uuid"` and `"characteristics"` are required, `"primary"` defaults to
/// `true`.
pub open spec fn service_from_fields(
    uuid: Option<String>,
    primary: Option<bool>,
    characteristics: Option<Vec<CharacteristicDefinition>>,
) -> Result<ServiceDefinition, DecodeError> {
    match (uuid, characteristics) {
        (Some(u), Some(cs)) => Ok(ServiceDefinition {
            uuid: u,
            primary: match primary {
                Some(p) => p,
                None => true,
            },
            characteristics: cs,
        }),
        _ => Err(DecodeError::BadArg),
    }
}

/// Decoding the map that a characteristic definition is encoded as gives the
/// definition back: the map holds its UUID, its properties as named flags and
/// its value only when it has one.
pub proof fn lemma_characteristic_definition_round_trip(d: CharacteristicDefinition)
    ensures
        characteristic_from_fields(
            Some(d.uuid),
            Some(properties_from_entries_spec(properties_entries_spec(d.properties))),
            d.value,
        ) == Ok::<CharacteristicDefinition, DecodeError>(d),
{
    lemma_properties_entries_round_trip(d.properties);
}

/// Decoding the map that a service definition is encoded as (its UUID, its
/// primary flag and its characteristics) gives the definition back.
pub proof fn lemma_service_definition_round_trip(d: ServiceDefinition)
    ensures
        service_from_fields(Some(d.uuid), Some(d.primary), Some(d.characteristics))
            == Ok::<ServiceDefinition, DecodeError>(d),
{
}

impl CharacteristicDefinition {
    /// Builds a definition from the decoded fields of a host map: `"uuid"` is
    /// required, `"properties"` defaults to no property, `"value"` to none.
    pub fn from_fields(
        uuid: Option<String>,
        properties: Option<CharacteristicProperties>,
        value: Option<Vec<u8>>,
    ) -> (r: Result<Self, DecodeError>)
        ensures
            r == characteristic_from_fields(uuid, properties, value),
    {
        let uuid = match uuid {
            Some(u) => u,
            None => return Err(DecodeError::BadArg),
        };
        let properties = match properties {
            Some(p) => p,
            None => CharacteristicProperties::default(),
        };
        Ok(Self { uuid, properties, value })
    }
}

impl ServiceDefinition {
    /// Builds a definition from the decoded fields of a host map: `"uuid"`
    /// and `"characteristics"` are required, `"primary"` defaults to `true`.
    pub fn from_fields(
        uuid: Option<String>,
        primary: Option<bool>,
        characteristics: Option<Vec<CharacteristicDefinition>>,
    ) -> (r: Result<Self, DecodeError>)
        ensures
            r == service_from_fields(uuid, primary, characteristics),
    {
        let uuid = match uuid {
            Some(u) => u,
            None => return Err(DecodeError::BadArg),
        };
        let primary = match primary {
            Some(p) => p,
            None => true,
        };
        let characteristics = match characteristics {
            Some(c) => c,
            None => return Err(DecodeError::BadArg),
        };
        Ok(Self { uuid, primary, characteristics })
    }
}

/// A read request from a connected central, as reported to the host.
#[derive(Debug, Clone)]
pub struct ReadRequest {
    pub characteristic_uuid: String,
    pub service_uuid: String,
    pub offset: u64,
}

/// A write request from a connected central, as reported to the host.
#[derive(Debug, Clone)]
pub struct WriteRequest {
    pub characteristic_uuid: String,
    pub service_uuid: String,
    pub value: Vec<u8>,
    pub offset: u64,
}

/// A change of a central's notification subscription, as reported to the host.
#[derive(Debug, Clone)]
pub struct SubscriptionUpdate {
    pub characteristic_uuid: String,
    pub service_uuid: String,
    pub subscribed: bool,
}

} // verus!
