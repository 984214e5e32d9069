//! Reports about what an adapter sees: a nested structure for the host, and
//! two Mermaid diagrams (a mind map and a graph).

use vstd::prelude::*;
use vstd::string::*;
use crate::central_manager_utils::{
    contains_flags, has_flags, lemma_concat_contains, lemma_name_if_contains, name_if, texts, READ, WRITE,
    NOTIFY, INDICATE,
};
use crate::text::{decimal, owned, push_decimal, str_eq};

verus! {

/// A characteristic as seen by the adapter: UUID (printed) and property bits.
#[derive(Debug, Clone)]
pub struct CharacteristicSnapshot {
    pub uuid: String,
    pub flags: u8,
}

/// A service as seen by the adapter.
#[derive(Debug, Clone)]
pub struct ServiceSnapshot {
    pub uuid: String,
    pub characteristics: Vec<CharacteristicSnapshot>,
}

/// A peripheral whose properties the adapter knows.
#[derive(Debug, Clone)]
pub struct PeripheralSnapshot {
    pub id: String,
    pub local_name: Option<String>,
    pub rssi: Option<i16>,
    pub tx_power_level: Option<i16>,
    pub connected: bool,
    pub services: Vec<ServiceSnapshot>,
}

/// What an adapter sees: its name (when it could be read) and the
/// peripherals whose properties are known, in the adapter's order.
#[derive(Debug, Clone)]
pub struct AdapterSnapshot {
    pub name: Option<String>,
    pub peripherals: Vec<PeripheralSnapshot>,
}

/// The property names shown in reports: read, write, notify, indicate.
pub open spec fn shown_flags(flags: u8) -> Seq<Seq<char>> {
    name_if(has_flags(flags, READ), "Read"@)
        + name_if(has_flags(flags, WRITE), "Write"@)
        + name_if(has_flags(flags, NOTIFY), "Notify"@)
        + name_if(has_flags(flags, INDICATE), "Indicate"@)
}

/// The texts in `names`, separated by `sep`.
pub open spec fn joined(names: Seq<Seq<char>>, sep: Seq<char>) -> Seq<char>
    decreases names.len(),
{
    if names.len() == 0 {
        Seq::empty()
    } else if names.len() == 1 {
        names[0]
    } else {
        joined(names.drop_last(), sep) + sep + names.last()
    }
}

/// The concatenation of `f` applied to the first `n` elements of `s`.
pub open spec fn concat_map<T>(s: Seq<T>, f: spec_fn(T) -> Seq<char>, n: nat) -> Seq<char>
    decreases n,
{
    if n == 0 {
        Seq::empty()
    } else {
        concat_map(s, f, (n - 1) as nat) + f(s[n - 1])
    }
}

pub open spec fn concat_all<T>(s: Seq<T>, f: spec_fn(T) -> Seq<char>) -> Seq<char> {
    concat_map(s, f, s.len())
}

/// The adapter's name, or `"Unknown Adapter"`.
pub open spec fn adapter_name(a: AdapterSnapshot) -> Seq<char> {
    match a.name {
        Some(n) => n@,
        None => "Unknown Adapter"@,
    }
}

/// The peripheral's advertised name, or its id.
pub open spec fn display_name(p: PeripheralSnapshot) -> Seq<char> {
    match p.local_name {
        Some(n) => n@,
        None => p.id@,
    }
}

pub open spec fn rssi_display(p: PeripheralSnapshot) -> Seq<char> {
    match p.rssi {
        Some(r) => "RSSI: "@ + decimal(r as int) + "dBm"@,
        None => "RSSI: N/A"@,
    }
}

pub open spec fn tx_power_display(p: PeripheralSnapshot) -> Seq<char> {
    match p.tx_power_level {
        Some(t) => "TX Power: "@ + decimal(t as int) + "dBm"@,
        None => "TX Power: N/A"@,
    }
}

pub open spec fn connection_display(p: PeripheralSnapshot) -> Seq<char> {
    if p.connected { "**Connected** :::green"@ } else { "**Disconnected** :::red"@ }
}

// ----- the mind map -----

pub open spec fn mindmap_characteristic(c: CharacteristicSnapshot) -> Seq<char> {
    "                "@ + c.uuid@ + "[Characteristic: "@ + c.uuid@ + " "@
        + "["@ + joined(shown_flags(c.flags), ", "@) + "]"@ + "]\n"@
}

pub open spec fn mindmap_service(s: ServiceSnapshot) -> Seq<char> {
    "            "@ + s.uuid@ + "[Service: "@ + s.uuid@ + "]\n"@
        + concat_all(s.characteristics@, |c: CharacteristicSnapshot| mindmap_characteristic(c))
}

pub open spec fn mindmap_peripheral_head(p: PeripheralSnapshot) -> Seq<char> {
    "    adapter\n        "@ + p.id@ + "((Peripheral: **"@ + display_name(p) + "**))\n"@
        + "            "@ + rssi_display(p) + "\n"@
        + "            "@ + tx_power_display(p) + "\n"@
        + "            "@ + connection_display(p) + "\n"@
}

pub open spec fn mindmap_peripheral(p: PeripheralSnapshot) -> Seq<char> {
    mindmap_peripheral_head(p) + concat_all(p.services@, |s: ServiceSnapshot| mindmap_service(s))
}

/// The Mermaid mind map of an adapter and what it sees.
pub open spec fn mindmap_spec(a: AdapterSnapshot) -> Seq<char> {
    "mindmap\n"@ + "adapter((Adapter: "@ + adapter_name(a) + "))\n"@
        + concat_all(a.peripherals@, |p: PeripheralSnapshot| mindmap_peripheral(p))
}

// ----- the graph -----

pub open spec fn graph_characteristic(service_id: Seq<char>, c: CharacteristicSnapshot) -> Seq<char> {
    "    "@ + service_id + " --> "@ + c.uuid@ + "[\"Characteristic: "@ + c.uuid@ + " "@
        + "("@ + joined(shown_flags(c.flags), ", "@) + ")"@ + "\"]\n"@
}

pub open spec fn graph_service(peripheral_id: Seq<char>, s: ServiceSnapshot) -> Seq<char> {
    "    "@ + peripheral_id + " --> "@ + s.uuid@ + "[\"Service: "@ + s.uuid@ + "\"]\n"@
        + concat_all(s.characteristics@, |c: CharacteristicSnapshot| graph_characteristic(s.uuid@, c))
}

pub open spec fn graph_peripheral_head(p: PeripheralSnapshot) -> Seq<char> {
    "    Adapter --> "@ + p.id@ + "[\"Peripheral: "@ + display_name(p) + "<br>"@ + rssi_display(p)
        + "<br>"@ + tx_power_display(p) + "\"]\n"@
}

pub open spec fn graph_peripheral(p: PeripheralSnapshot) -> Seq<char> {
    graph_peripheral_head(p) + concat_all(p.services@, |s: ServiceSnapshot| graph_service(p.id@, s))
}

/// The Mermaid graph (top-down) of an adapter and what it sees.
pub open spec fn graph_spec(a: AdapterSnapshot) -> Seq<char> {
    "graph TD\n"@ + "    Adapter[\"Adapter: "@ + adapter_name(a) + "\"]\n"@
        + concat_all(a.peripherals@, |p: PeripheralSnapshot| graph_peripheral(p))
}

// ----- executable parts -----

/// The names of the read, write, notify and indicate properties set in `flags`.
pub fn shown_flag_names(flags: u8) -> (r: Vec<String>)
    ensures
        texts(r@) == shown_flags(flags),
{
    let mut names: Vec<String> = Vec::new();
    if contains_flags(flags, READ) {
        names.push(owned("Read"));
    }
    if contains_flags(flags, WRITE) {
        names.push(owned("Write"));
    }
    if contains_flags(flags, NOTIFY) {
        names.push(owned("Notify"));
    }
    if contains_flags(flags, INDICATE) {
        names.push(owned("Indicate"));
    }
    assert(texts(names@) =~= shown_flags(flags));
    names
}

/// Appends the texts of `names`, separated by `sep`.
pub fn push_joined(out: &mut String, names: &Vec<String>, sep: &str)
    ensures
        final(out)@ == old(out)@ + joined(texts(names@), sep@),
{
    let ghost start = out@;
    let mut i: usize = 0;
    assert(texts(names@).subrange(0, 0) =~= Seq::<Seq<char>>::empty());
    while i < names.len()
        invariant
            i <= names@.len(),
            out@ == start + joined(texts(names@).subrange(0, i as int), sep@),
        decreases names.len() - i,
    {
        let ghost prev = texts(names@).subrange(0, i as int);
        if i > 0 {
            out.append(sep);
        }
        out.append(names[i].as_str());
        i = i + 1;
        proof {
            let next = texts(names@).subrange(0, i as int);
            assert(next.drop_last() =~= prev);
            assert(next.last() == names@[i - 1]@);
            if i == 1 {
                assert(prev =~= Seq::<Seq<char>>::empty());
            }
        }
    }
    assert(texts(names@).subrange(0, names@.len() as int) =~= texts(names@));
}

fn push_rssi(out: &mut String, p: &PeripheralSnapshot)
    ensures
        final(out)@ == old(out)@ + rssi_display(*p),
{
    match p.rssi {
        Some(r) => {
            out.append("RSSI: ");
            push_decimal(out, r as i64);
            out.append("dBm");
        },
        None => out.append("RSSI: N/A"),
    }
}

fn push_tx_power(out: &mut String, p: &PeripheralSnapshot)
    ensures
        final(out)@ == old(out)@ + tx_power_display(*p),
{
    match p.tx_power_level {
        Some(t) => {
            out.append("TX Power: ");
            push_decimal(out, t as i64);
            out.append("dBm");
        },
        None => out.append("TX Power: N/A"),
    }
}

fn push_display_name(out: &mut String, p: &PeripheralSnapshot)
    ensures
        final(out)@ == old(out)@ + display_name(*p),
{
    match &p.local_name {
        Some(n) => out.append(n.as_str()),
        None => out.append(p.id.as_str()),
    }
}

fn push_mindmap_characteristic(out: &mut String, c: &CharacteristicSnapshot)
    ensures
        final(out)@ == old(out)@ + mindmap_characteristic(*c),
{
    let ghost start = out@;
    out.append("                ");
    out.append(c.uuid.as_str());
    out.append("[Characteristic: ");
    out.append(c.uuid.as_str());
    out.append(" ");
    out.append("[");
    push_joined(out, &shown_flag_names(c.flags), ", ");
    out.append("]");
    out.append("]\n");
    assert(out@ =~= start + mindmap_characteristic(*c));
}

fn push_mindmap_service(out: &mut String, s: &ServiceSnapshot)
    ensures
        final(out)@ == old(out)@ + mindmap_service(*s),
{
    let ghost start = out@;
    out.append("            ");
    out.append(s.uuid.as_str());
    out.append("[Service: ");
    out.append(s.uuid.as_str());
    out.append("]\n");
    let ghost head = out@;
    let ghost f = |c: CharacteristicSnapshot| mindmap_characteristic(c);
    let mut i: usize = 0;
    while i < s.characteristics.len()
        invariant
            i <= s.characteristics@.len(),
            out@ == head + concat_map(s.characteristics@, f, i as nat),
            f == (|c: CharacteristicSnapshot| mindmap_characteristic(c)),
        decreases s.characteristics.len() - i,
    {
        push_mindmap_characteristic(out, &s.characteristics[i]);
        i = i + 1;
        assert(out@ =~= head + concat_map(s.characteristics@, f, i as nat));
    }
    assert(out@ =~= start + mindmap_service(*s));
}

fn push_mindmap_peripheral(out: &mut String, p: &PeripheralSnapshot)
    ensures
        final(out)@ == old(out)@ + mindmap_peripheral(*p),
{
    let ghost start = out@;
    out.append("    adapter\n        ");
    out.append(p.id.as_str());
    out.append("((Peripheral: **");
    push_display_name(out, p);
    out.append("**))\n");
    out.append("            ");
    push_rssi(out, p);
    out.append("\n");
    out.append("            ");
    push_tx_power(out, p);
    out.append("\n");
    out.append("            ");
    if p.connected {
        out.append("**Connected** :::green");
    } else {
        out.append("**Disconnected** :::red");
    }
    out.append("\n");
    assert(out@ =~= start + mindmap_peripheral_head(*p));
    let ghost head = out@;
    let ghost f = |s: ServiceSnapshot| mindmap_service(s);
    let mut i: usize = 0;
    while i < p.services.len()
        invariant
            i <= p.services@.len(),
            out@ == head + concat_map(p.services@, f, i as nat),
            f == (|s: ServiceSnapshot| mindmap_service(s)),
        decreases p.services.len() - i,
    {
        push_mindmap_service(out, &p.services[i]);
        i = i + 1;
        assert(out@ =~= head + concat_map(p.services@, f, i as nat));
    }
    assert(out@ =~= start + mindmap_peripheral(*p));
}

/// The Mermaid mind map of an adapter and what it sees.
pub fn adapter_state_to_mermaid_mindmap(a: &AdapterSnapshot) -> (r: String)
    ensures
        r@ == mindmap_spec(*a),
{
    let mut out = owned("mindmap\n");
    out.append("adapter((Adapter: ");
    match &a.name {
        Some(n) => out.append(n.as_str()),
        None => out.append("Unknown Adapter"),
    }
    out.append("))\n");
    let ghost head = out@;
    let ghost f = |p: PeripheralSnapshot| mindmap_peripheral(p);
    let mut i: usize = 0;
    while i < a.peripherals.len()
        invariant
            i <= a.peripherals@.len(),
            out@ == head + concat_map(a.peripherals@, f, i as nat),
            f == (|p: PeripheralSnapshot| mindmap_peripheral(p)),
        decreases a.peripherals.len() - i,
    {
        push_mindmap_peripheral(&mut out, &a.peripherals[i]);
        i = i + 1;
        assert(out@ =~= head + concat_map(a.peripherals@, f, i as nat));
    }
    assert(out@ =~= mindmap_spec(*a));
    out
}

fn push_graph_characteristic(out: &mut String, service_id: &str, c: &CharacteristicSnapshot)
    ensures
        final(out)@ == old(out)@ + graph_characteristic(service_id@, *c),
{
    let ghost start = out@;
    out.append("    ");
    out.append(service_id);
    out.append(" --> ");
    out.append(c.uuid.as_str());
    out.append("[\"Characteristic: ");
    out.append(c.uuid.as_str());
    out.append(" ");
    out.append("(");
    push_joined(out, &shown_flag_names(c.flags), ", ");
    out.append(")");
    out.append("\"]\n");
    assert(out@ =~= start + graph_characteristic(service_id@, *c));
}

fn push_graph_service(out: &mut String, peripheral_id: &str, s: &ServiceSnapshot)
    ensures
        final(out)@ == old(out)@ + graph_service(peripheral_id@, *s),
{
    let ghost start = out@;
    out.append("    ");
    out.append(peripheral_id);
    out.append(" --> ");
    out.append(s.uuid.as_str());
    out.append("[\"Service: ");
    out.append(s.uuid.as_str());
    out.append("\"]\n");
    let ghost head = out@;
    let ghost f = |c: CharacteristicSnapshot| graph_characteristic(s.uuid@, c);
    let mut i: usize = 0;
    while i < s.characteristics.len()
        invariant
            i <= s.characteristics@.len(),
            out@ == head + concat_map(s.characteristics@, f, i as nat),
            f == (|c: CharacteristicSnapshot| graph_characteristic(s.uuid@, c)),
        decreases s.characteristics.len() - i,
    {
        push_graph_characteristic(out, s.uuid.as_str(), &s.characteristics[i]);
        i = i + 1;
        assert(out@ =~= head + concat_map(s.characteristics@, f, i as nat));
    }
    assert(out@ =~= start + graph_service(peripheral_id@, *s));
}

fn push_graph_peripheral(out: &mut String, p: &PeripheralSnapshot)
    ensures
        final(out)@ == old(out)@ + graph_peripheral(*p),
{
    let ghost start = out@;
    out.append("    Adapter --> ");
    out.append(p.id.as_str());
    out.append("[\"Peripheral: ");
    push_display_name(out, p);
    out.append("<br>");
    push_rssi(out, p);
    out.append("<br>");
    push_tx_power(out, p);
    out.append("\"]\n");
    assert(out@ =~= start + graph_peripheral_head(*p));
    let ghost head = out@;
    let ghost f = |s: ServiceSnapshot| graph_service(p.id@, s);
    let mut i: usize = 0;
    while i < p.services.len()
        invariant
            i <= p.services@.len(),
            out@ == head + concat_map(p.services@, f, i as nat),
            f == (|s: ServiceSnapshot| graph_service(p.id@, s)),
        decreases p.services.len() - i,
    {
        push_graph_service(out, p.id.as_str(), &p.services[i]);
        i = i + 1;
        assert(out@ =~= head + concat_map(p.services@, f, i as nat));
    }
    assert(out@ =~= start + graph_peripheral(*p));
}

/// The Mermaid graph (top-down) of an adapter and what it sees.
pub fn adapter_state_to_mermaid_graph(a: &AdapterSnapshot) -> (r: String)
    ensures
        r@ == graph_spec(*a),
{
    let mut out = owned("graph TD\n");
    out.append("    Adapter[\"Adapter: ");
    match &a.name {
        Some(n) => out.append(n.as_str()),
        None => out.append("Unknown Adapter"),
    }
    out.append("\"]\n");
    let ghost head = out@;
    let ghost f = |p: PeripheralSnapshot| graph_peripheral(p);
    let mut i: usize = 0;
    while i < a.peripherals.len()
        invariant
            i <= a.peripherals@.len(),
            out@ == head + concat_map(a.peripherals@, f, i as nat),
            f == (|p: PeripheralSnapshot| graph_peripheral(p)),
        decreases a.peripherals.len() - i,
    {
        push_graph_peripheral(&mut out, &a.peripherals[i]);
        i = i + 1;
        assert(out@ =~= head + concat_map(a.peripherals@, f, i as nat));
    }
    assert(out@ =~= graph_spec(*a));
    out
}

/// The diagram that the host asked for: the mind map for `"mindmap"`, the
/// graph (the default) for anything else.
pub fn adapter_state_graph(a: &AdapterSnapshot, variant: &str) -> (r: String)
    ensures
        r@ == (if variant@ == "mindmap"@ { mindmap_spec(*a) } else { graph_spec(*a) }),
{
    if str_eq(variant, "mindmap") {
        adapter_state_to_mermaid_mindmap(a)
    } else {
        adapter_state_to_mermaid_graph(a)
    }
}


/// The adapter in the nested report.
#[derive(Debug, Clone)]
pub struct AdapterInfo {
    pub name: String,
}

/// A characteristic in the nested report: its UUID and shown property names.
#[derive(Debug, Clone)]
pub struct CharacteristicInfo {
    pub uuid: String,
    pub properties: Vec<String>,
}

/// A service in the nested report.
#[derive(Debug, Clone)]
pub struct ServiceInfo {
    pub uuid: String,
    pub characteristics: Vec<CharacteristicInfo>,
}

/// A peripheral in the nested report.
#[derive(Debug, Clone)]
pub struct PeripheralInfo {
    pub id: String,
    pub name: String,
    pub rssi: Option<i16>,
    pub tx_power: Option<i16>,
    pub services: Vec<ServiceInfo>,
}

/// The nested report about an adapter.
#[derive(Debug, Clone)]
pub struct AdapterState {
    pub adapter: AdapterInfo,
    pub peripherals: Vec<PeripheralInfo>,
}

pub open spec fn characteristic_reported(info: CharacteristicInfo, c: CharacteristicSnapshot) -> bool {
    info.uuid@ == c.uuid@ && texts(info.properties@) == shown_flags(c.flags)
}

pub open spec fn service_reported(info: ServiceInfo, s: ServiceSnapshot) -> bool {
    &&& info.uuid@ == s.uuid@
    &&& info.characteristics@.len() == s.characteristics@.len()
    &&& forall|k: int| 0 <= k < s.characteristics@.len()
        ==> characteristic_reported(#[trigger] info.characteristics@[k], s.characteristics@[k])
}

pub open spec fn peripheral_reported(info: PeripheralInfo, p: PeripheralSnapshot) -> bool {
    &&& info.id@ == p.id@
    &&& info.name@ == display_name(p)
    &&& info.rssi == p.rssi
    &&& info.tx_power == p.tx_power_level
    &&& info.services@.len() == p.services@.len()
    &&& forall|j: int| 0 <= j < p.services@.len() ==> service_reported(#[trigger] info.services@[j], p.services@[j])
}

fn report_service(s: &ServiceSnapshot) -> (r: ServiceInfo)
    ensures
        service_reported(r, *s),
{
    let mut characteristics: Vec<CharacteristicInfo> = Vec::new();
    let mut k: usize = 0;
    while k < s.characteristics.len()
        invariant
            k <= s.characteristics@.len(),
            characteristics@.len() == k,
            forall|x: int| 0 <= x < k ==> characteristic_reported(#[trigger] characteristics@[x], s.characteristics@[x]),
        decreases s.characteristics.len() - k,
    {
        let c = &s.characteristics[k];
        characteristics.push(CharacteristicInfo { uuid: c.uuid.clone(), properties: shown_flag_names(c.flags) });
        k = k + 1;
    }
    ServiceInfo { uuid: s.uuid.clone(), characteristics }
}

fn report_peripheral(p: &PeripheralSnapshot) -> (r: PeripheralInfo)
    ensures
        peripheral_reported(r, *p),
{
    let mut services: Vec<ServiceInfo> = Vec::new();
    let mut j: usize = 0;
    while j < p.services.len()
        invariant
            j <= p.services@.len(),
            services@.len() == j,
            forall|x: int| 0 <= x < j ==> service_reported(#[trigger] services@[x], p.services@[x]),
        decreases p.services.len() - j,
    {
        services.push(report_service(&p.services[j]));
        j = j + 1;
    }
    let name = match &p.local_name {
        Some(n) => n.clone(),
        None => p.id.clone(),
    };
    PeripheralInfo { id: p.id.clone(), name, rssi: p.rssi, tx_power: p.tx_power_level, services }
}

/// The nested report about an adapter: its name (or `"Unknown Adapter"`),
/// and for each peripheral its id, name (or id), signal strength, transmit
/// power and services with their characteristics and shown property names.
pub fn adapter_state_to_map(a: &AdapterSnapshot) -> (r: AdapterState)
    ensures
        r.adapter.name@ == adapter_name(*a),
        r.peripherals@.len() == a.peripherals@.len(),
        forall|i: int| 0 <= i < a.peripherals@.len() ==> peripheral_reported(#[trigger] r.peripherals@[i], a.peripherals@[i]),
{
    let mut peripherals: Vec<PeripheralInfo> = Vec::new();
    let mut i: usize = 0;
    while i < a.peripherals.len()
        invariant
            i <= a.peripherals@.len(),
            peripherals@.len() == i,
            forall|x: int| 0 <= x < i ==> peripheral_reported(#[trigger] peripherals@[x], a.peripherals@[x]),
        decreases a.peripherals.len() - i,
    {
        peripherals.push(report_peripheral(&a.peripherals[i]));
        i = i + 1;
    }
    let name = match &a.name {
        Some(n) => n.clone(),
        None => owned("Unknown Adapter"),
    };
    AdapterState { adapter: AdapterInfo { name }, peripherals }
}

/// A report shows "Read" exactly when the READ bit (0x02) is set, "Write"
/// exactly for the WRITE bit (0x08), "Notify" for the NOTIFY bit (0x10) and
/// "Indicate" for the INDICATE bit (0x20); it shows each at most once and no
/// other name.
pub proof fn lemma_shown_names_follow_their_bits(flags: u8, x: Seq<char>)
    ensures
        shown_flags(flags).contains("Read"@) <==> flags & 0x02u8 != 0,
        shown_flags(flags).contains("Write"@) <==> flags & 0x08u8 != 0,
        shown_flags(flags).contains("Notify"@) <==> flags & 0x10u8 != 0,
        shown_flags(flags).contains("Indicate"@) <==> flags & 0x20u8 != 0,
        shown_flags(flags).contains(x) ==> x == "Read"@ || x == "Write"@ || x == "Notify"@ || x == "Indicate"@,
        shown_flags(flags).len() <= 4,
{
    reveal_strlit("Read");
    reveal_strlit("Write");
    reveal_strlit("Notify");
    reveal_strlit("Indicate");
    assert("Read"@[0] == 'R' && "Write"@[0] == 'W' && "Notify"@[0] == 'N' && "Indicate"@[0] == 'I');
    assert(has_flags(flags, READ) == (flags & 0x02u8 != 0)) by (bit_vector);
    assert(has_flags(flags, WRITE) == (flags & 0x08u8 != 0)) by (bit_vector);
    assert(has_flags(flags, NOTIFY) == (flags & 0x10u8 != 0)) by (bit_vector);
    assert(has_flags(flags, INDICATE) == (flags & 0x20u8 != 0)) by (bit_vector);
    let a = name_if(has_flags(flags, READ), "Read"@);
    let b = name_if(has_flags(flags, WRITE), "Write"@);
    let c = name_if(has_flags(flags, NOTIFY), "Notify"@);
    let d = name_if(has_flags(flags, INDICATE), "Indicate"@);
    assert(shown_flags(flags) == a + b + c + d);
    assert forall|y: Seq<char>| #[trigger] shown_flags(flags).contains(y)
        <==> (a.contains(y) || b.contains(y) || c.contains(y) || d.contains(y)) by {
        lemma_concat_contains(a, b, y);
        lemma_concat_contains(a + b, c, y);
        lemma_concat_contains(a + b + c, d, y);
        lemma_name_if_contains(has_flags(flags, READ), "Read"@, y);
        lemma_name_if_contains(has_flags(flags, WRITE), "Write"@, y);
        lemma_name_if_contains(has_flags(flags, NOTIFY), "Notify"@, y);
        lemma_name_if_contains(has_flags(flags, INDICATE), "Indicate"@, y);
    }
    assert("Read"@ != "Write"@ && "Read"@ != "Notify"@ && "Read"@ != "Indicate"@);
    assert("Write"@ != "Notify"@ && "Write"@ != "Indicate"@ && "Notify"@ != "Indicate"@);
    lemma_name_if_contains(has_flags(flags, READ), "Read"@, "Read"@);
    lemma_name_if_contains(has_flags(flags, WRITE), "Write"@, "Write"@);
    lemma_name_if_contains(has_flags(flags, NOTIFY), "Notify"@, "Notify"@);
    lemma_name_if_contains(has_flags(flags, INDICATE), "Indicate"@, "Indicate"@);
    lemma_name_if_contains(has_flags(flags, WRITE), "Write"@, "Read"@);
    lemma_name_if_contains(has_flags(flags, NOTIFY), "Notify"@, "Read"@);
    lemma_name_if_contains(has_flags(flags, INDICATE), "Indicate"@, "Read"@);
    lemma_name_if_contains(has_flags(flags, READ), "Read"@, "Write"@);
    lemma_name_if_contains(has_flags(flags, NOTIFY), "Notify"@, "Write"@);
    lemma_name_if_contains(has_flags(flags, INDICATE), "Indicate"@, "Write"@);
    lemma_name_if_contains(has_flags(flags, READ), "Read"@, "Notify"@);
    lemma_name_if_contains(has_flags(flags, WRITE), "Write"@, "Notify"@);
    lemma_name_if_contains(has_flags(flags, INDICATE), "Indicate"@, "Notify"@);
    lemma_name_if_contains(has_flags(flags, READ), "Read"@, "Indicate"@);
    lemma_name_if_contains(has_flags(flags, WRITE), "Write"@, "Indicate"@);
    lemma_name_if_contains(has_flags(flags, NOTIFY), "Notify"@, "Indicate"@);
}

} // verus!
