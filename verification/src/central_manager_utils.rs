//! Reading the properties of peripherals and characteristics as the host
//! sees them: the names of characteristic property flags and the summary of
//! a peripheral's advertised properties.

use vstd::prelude::*;
use vstd::string::*;
use crate::text::{decimal, owned, push_decimal};

verus! {

/// Characteristic property flags, as the bits of a `u8` (the layout of
/// btleplug's `CharPropFlags`).
pub const BROADCAST: u8 = 0x01;
pub const READ: u8 = 0x02;
pub const WRITE_WITHOUT_RESPONSE: u8 = 0x04;
pub const WRITE: u8 = 0x08;
pub const NOTIFY: u8 = 0x10;
pub const INDICATE: u8 = 0x20;
pub const AUTHENTICATED_SIGNED_WRITES: u8 = 0x40;
pub const EXTENDED_PROPERTIES: u8 = 0x80;

/// Whether all bits of `mask` are set in `flags`.
pub open spec fn has_flags(flags: u8, mask: u8) -> bool {
    flags & mask == mask
}

/// `CharPropFlags::contains` on the bits: all bits of `mask` are set.
pub fn contains_flags(flags: u8, mask: u8) -> (r: bool)
    ensures
        r == has_flags(flags, mask),
{
    flags & mask == mask
}

pub open spec fn name_if(cond: bool, name: Seq<char>) -> Seq<Seq<char>> {
    if cond { seq![name] } else { Seq::empty() }
}

/// An element lies in a concatenation exactly when it lies in one of its
/// parts.
pub proof fn lemma_concat_contains<A>(a: Seq<A>, b: Seq<A>, x: A)
    ensures
        (a + b).contains(x) <==> a.contains(x) || b.contains(x),
{
    if a.contains(x) {
        let i = choose|i: int| 0 <= i < a.len() && a[i] == x;
        assert((a + b)[i] == x);
    }
    if b.contains(x) {
        let i = choose|i: int| 0 <= i < b.len() && b[i] == x;
        assert((a + b)[a.len() + i] == x);
    }
    if (a + b).contains(x) {
        let i = choose|i: int| 0 <= i < (a + b).len() && (a + b)[i] == x;
        if i < a.len() {
            assert(a[i] == x);
        } else {
            assert(b[i - a.len()] == x);
        }
    }
}

/// A name listed under a condition is there exactly when the condition
/// holds.
pub proof fn lemma_name_if_contains(cond: bool, name: Seq<char>, x: Seq<char>)
    ensures
        name_if(cond, name).contains(x) <==> cond && name == x,
{
    if cond {
        assert(name_if(cond, name)[0] == name);
    }
}

/// The names of the properties set in `flags`, in the order read, write,
/// write without response, notify, indicate, broadcast, extended properties,
/// authenticated signed writes.
pub open spec fn characteristic_property_names(flags: u8) -> Seq<Seq<char>> {
    name_if(has_flags(flags, READ), "Read"@)
        + name_if(has_flags(flags, WRITE), "Write"@)
        + name_if(has_flags(flags, WRITE_WITHOUT_RESPONSE), "Write Without Response"@)
        + name_if(has_flags(flags, NOTIFY), "Notify"@)
        + name_if(has_flags(flags, INDICATE), "Indicate"@)
        + name_if(has_flags(flags, BROADCAST), "Broadcast"@)
        + name_if(has_flags(flags, EXTENDED_PROPERTIES), "Extended Properties"@)
        + name_if(has_flags(flags, AUTHENTICATED_SIGNED_WRITES), "Authenticated Signed Writes"@)
}

/// The views of a list of strings.
pub open spec fn texts(v: Seq<String>) -> Seq<Seq<char>> {
    v.map_values(|s: String| s@)
}

fn push_name_if(names: &mut Vec<String>, cond: bool, name: &str)
    ensures
        texts(final(names)@) == texts(old(names)@) + name_if(cond, name@),
{
    let ghost before = names@;
    if cond {
        names.push(owned(name));
        assert(texts(names@) =~= texts(before) + name_if(cond, name@));
    } else {
        assert(texts(names@) =~= texts(before) + name_if(cond, name@));
    }
}

/// The names of the properties of a characteristic with property bits `flags`.
pub fn get_characteristic_properties(flags: u8) -> (r: Vec<String>)
    ensures
        texts(r@) == characteristic_property_names(flags),
{
    let mut properties: Vec<String> = Vec::new();
    assert(texts(properties@) =~= Seq::<Seq<char>>::empty());
    push_name_if(&mut properties, contains_flags(flags, READ), "Read");
    push_name_if(&mut properties, contains_flags(flags, WRITE), "Write");
    push_name_if(&mut properties, contains_flags(flags, WRITE_WITHOUT_RESPONSE), "Write Without Response");
    push_name_if(&mut properties, contains_flags(flags, NOTIFY), "Notify");
    push_name_if(&mut properties, contains_flags(flags, INDICATE), "Indicate");
    push_name_if(&mut properties, contains_flags(flags, BROADCAST), "Broadcast");
    push_name_if(&mut properties, contains_flags(flags, EXTENDED_PROPERTIES), "Extended Properties");
    push_name_if(&mut properties, contains_flags(flags, AUTHENTICATED_SIGNED_WRITES), "Authenticated Signed Writes");
    assert(texts(properties@) =~= characteristic_property_names(flags));
    properties
}

/// What a peripheral advertises about itself.
#[derive(Debug, Clone)]
pub struct PeripheralPropertiesInfo {
    /// The device address, printed.
    pub address: String,
    /// The kind of address, printed, when known.
    pub address_type: Option<String>,
    pub local_name: Option<String>,
    pub tx_power_level: Option<i16>,
    pub rssi: Option<i16>,
    pub manufacturer_data: Vec<(u16, Vec<u8>)>,
    /// Service data by service UUID (printed).
    pub service_data: Vec<(String, Vec<u8>)>,
    /// The advertised service UUIDs (printed).
    pub services: Vec<String>,
}

/// The properties of a peripheral as the host receives them: every field as
/// text, with placeholders for what is unknown.
#[derive(Debug, Clone)]
pub struct PropertiesSummary {
    pub address: String,
    pub address_type: String,
    pub local_name: String,
    pub tx_power_level: String,
    pub rssi: String,
    /// Manufacturer data by manufacturer id (printed in decimal).
    pub manufacturer_data: Vec<(String, Vec<u8>)>,
    pub service_data: Vec<(String, Vec<u8>)>,
    pub services: Vec<String>,
}

/// `text` when present, `placeholder` otherwise.
pub open spec fn text_or(o: Option<String>, placeholder: Seq<char>) -> Seq<char> {
    match o {
        Some(s) => s@,
        None => placeholder,
    }
}

/// A number in decimal when present, `"N/A"` otherwise.
pub open spec fn number_or_na(o: Option<i16>) -> Seq<char> {
    match o {
        Some(n) => decimal(n as int),
        None => "N/A"@,
    }
}

/// The views of a list of `(key, bytes)` pairs.
pub open spec fn keyed_bytes(v: Seq<(String, Vec<u8>)>) -> Seq<(Seq<char>, Seq<u8>)> {
    v.map_values(|e: (String, Vec<u8>)| (e.0@, e.1@))
}

/// Manufacturer data with the manufacturer ids printed in decimal.
pub open spec fn printed_manufacturer_data(v: Seq<(u16, Vec<u8>)>) -> Seq<(Seq<char>, Seq<u8>)> {
    v.map_values(|e: (u16, Vec<u8>)| (decimal(e.0 as int), e.1@))
}

fn optional_text(o: &Option<String>, placeholder: &str) -> (r: String)
    ensures
        r@ == text_or(*o, placeholder@),
{
    match o {
        Some(s) => s.clone(),
        None => owned(placeholder),
    }
}

fn optional_number(o: Option<i16>) -> (r: String)
    ensures
        r@ == number_or_na(o),
{
    match o {
        Some(n) => {
            let mut s = String::new();
            push_decimal(&mut s, n as i64);
            s
        },
        None => owned("N/A"),
    }
}

fn copy_bytes(v: &Vec<u8>) -> (r: Vec<u8>)
    ensures
        r@ == v@,
{
    let mut r: Vec<u8> = Vec::new();
    let mut i: usize = 0;
    while i < v.len()
        invariant
            i <= v@.len(),
            r@ == v@.subrange(0, i as int),
        decreases v.len() - i,
    {
        r.push(v[i]);
        i = i + 1;
        assert(r@ =~= v@.subrange(0, i as int));
    }
    assert(v@.subrange(0, v@.len() as int) =~= v@);
    r
}

/// A copy of a list of strings.
pub fn copy_texts(v: &Vec<String>) -> (r: Vec<String>)
    ensures
        texts(r@) == texts(v@),
{
    let mut r: Vec<String> = Vec::new();
    let mut i: usize = 0;
    while i < v.len()
        invariant
            i <= v@.len(),
            texts(r@) == texts(v@.subrange(0, i as int)),
        decreases v.len() - i,
    {
        let ghost before = r@;
        r.push(v[i].clone());
        assert(texts(r@) =~= texts(before).push(v@[i as int]@));
        i = i + 1;
        assert(texts(r@) =~= texts(v@.subrange(0, i as int)));
    }
    assert(v@.subrange(0, v@.len() as int) =~= v@);
    r
}

fn copy_keyed_bytes(v: &Vec<(String, Vec<u8>)>) -> (r: Vec<(String, Vec<u8>)>)
    ensures
        keyed_bytes(r@) == keyed_bytes(v@),
{
    let mut r: Vec<(String, Vec<u8>)> = Vec::new();
    let mut i: usize = 0;
    while i < v.len()
        invariant
            i <= v@.len(),
            keyed_bytes(r@) == keyed_bytes(v@.subrange(0, i as int)),
        decreases v.len() - i,
    {
        let ghost before = r@;
        r.push((v[i].0.clone(), copy_bytes(&v[i].1)));
        assert(keyed_bytes(r@) =~= keyed_bytes(before).push((v@[i as int].0@, v@[i as int].1@)));
        i = i + 1;
        assert(keyed_bytes(r@) =~= keyed_bytes(v@.subrange(0, i as int)));
    }
    assert(v@.subrange(0, v@.len() as int) =~= v@);
    r
}

fn print_manufacturer_data(v: &Vec<(u16, Vec<u8>)>) -> (r: Vec<(String, Vec<u8>)>)
    ensures
        keyed_bytes(r@) == printed_manufacturer_data(v@),
{
    let mut r: Vec<(String, Vec<u8>)> = Vec::new();
    let mut i: usize = 0;
    while i < v.len()
        invariant
            i <= v@.len(),
            keyed_bytes(r@) == printed_manufacturer_data(v@.subrange(0, i as int)),
        decreases v.len() - i,
    {
        let ghost before = r@;
        let mut id = String::new();
        push_decimal(&mut id, v[i].0 as i64);
        r.push((id, copy_bytes(&v[i].1)));
        assert(keyed_bytes(r@) =~= keyed_bytes(before).push((decimal(v@[i as int].0 as int), v@[i as int].1@)));
        i = i + 1;
        assert(printed_manufacturer_data(v@.subrange(0, i as int))
            =~= printed_manufacturer_data(v@.subrange(0, i - 1)).push((decimal(v@[i - 1].0 as int), v@[i - 1].1@)));
        assert(keyed_bytes(r@) =~= printed_manufacturer_data(v@.subrange(0, i as int)));
    }
    assert(v@.subrange(0, v@.len() as int) =~= v@);
    r
}

/// The properties of a peripheral as the host receives them: the address
/// type defaults to `"Unknown"`, the name to `"(unknown)"`, the transmit
/// power and signal strength are printed in decimal or as `"N/A"`.
pub fn properties_to_map(props: &PeripheralPropertiesInfo) -> (r: PropertiesSummary)
    ensures
        r.address@ == props.address@,
        r.address_type@ == text_or(props.address_type, "Unknown"@),
        r.local_name@ == text_or(props.local_name, "(unknown)"@),
        r.tx_power_level@ == number_or_na(props.tx_power_level),
        r.rssi@ == number_or_na(props.rssi),
        keyed_bytes(r.manufacturer_data@) == printed_manufacturer_data(props.manufacturer_data@),
        keyed_bytes(r.service_data@) == keyed_bytes(props.service_data@),
        texts(r.services@) == texts(props.services@),
{
    PropertiesSummary {
        address: props.address.clone(),
        address_type: optional_text(&props.address_type, "Unknown"),
        local_name: optional_text(&props.local_name, "(unknown)"),
        tx_power_level: optional_number(props.tx_power_level),
        rssi: optional_number(props.rssi),
        manufacturer_data: print_manufacturer_data(&props.manufacturer_data),
        service_data: copy_keyed_bytes(&props.service_data),
        services: copy_texts(&props.services),
    }
}

} // verus!
