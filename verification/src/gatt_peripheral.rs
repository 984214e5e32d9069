//! The demonstration GATT server: the UUIDs it uses and how its one
//! characteristic and its descriptor answer the requests of a central.

use vstd::prelude::*;
use vstd::string::*;
use vstd::utf8::*;
use crate::text::{decimal_digits, decimal_string_u64, owned, utf8_string};

verus! {

/// The 16 bytes into which a 16-bit UUID is placed: byte 6 is `0x10`, byte 8
/// is `0x80`, bytes 12 and 13 hold the short UUID (high byte first), all
/// others are zero.
pub open spec fn short_uuid_bytes(short_uuid: u16) -> Seq<u8> {
    seq![0u8, 0u8, 0u8, 0u8, 0u8, 0u8, 0x10u8, 0u8, 0x80u8, 0u8, 0u8, 0u8,
        (short_uuid / 256) as u8, (short_uuid % 256) as u8, 0u8, 0u8]
}

/// The bytes of the UUID that stands for the 16-bit UUID `short_uuid`.
pub fn short_uuid_to_uuid(short_uuid: u16) -> (r: [u8; 16])
    ensures
        r@ == short_uuid_bytes(short_uuid),
{
    let mut bytes: [u8; 16] = [0u8; 16];
    bytes[6] = 0x10;
    bytes[8] = 0x80;
    bytes[9] = 0x00;
    let high: u8 = (short_uuid >> 8) as u8;
    let low: u8 = (short_uuid & 0xFF) as u8;
    assert(short_uuid >> 8 == short_uuid / 256) by (bit_vector);
    assert(short_uuid & 0xFF == short_uuid % 256) by (bit_vector);
    bytes[12] = high;
    bytes[13] = low;
    assert(bytes@ =~= short_uuid_bytes(short_uuid));
    bytes
}

/// The short UUID of the demonstration service.
pub const SERVICE_SHORT_UUID: u16 = 0x1234;
/// The short UUID of its characteristic (a string).
pub const CHARACTERISTIC_SHORT_UUID: u16 = 0x2A3D;
/// The short UUID of the characteristic's descriptor (client configuration).
pub const DESCRIPTOR_SHORT_UUID: u16 = 0x2902;

/// A request of a central to a characteristic or descriptor.
pub enum GattRequest {
    Read,
    Write(Vec<u8>),
    NotifySubscribe,
    NotifyUnsubscribe,
}

/// What the server does about a request.
#[derive(Debug)]
pub enum GattAction {
    /// Answer with success and these bytes.
    Respond(Vec<u8>),
    /// Start sending numbered notifications, once a second, while notifying.
    StartNotifying,
    /// Nothing.
    Ignore,
}

/// The demonstration characteristic: a text value and whether a central
/// wants notifications.
pub struct CharacteristicServer {
    pub value: String,
    pub notifying: bool,
}

fn text_bytes(s: &str) -> (r: Vec<u8>)
    ensures
        r@ == encode_utf8(s@),
{
    vstd::slice::slice_to_vec(s.as_bytes())
}

/// The bytes that a read of the text `value` answers: its UTF-8 encoding.
pub open spec fn read_answer(value: Seq<char>) -> Seq<u8> {
    encode_utf8(value)
}

/// The text after a write of `data` to the text `value`: the text that
/// `data` encodes when it is UTF-8, else `value` unchanged.
pub open spec fn text_after_write(value: Seq<char>, data: Seq<u8>) -> Seq<char> {
    if valid_utf8(data) { decode_utf8(data) } else { value }
}

impl CharacteristicServer {
    /// The characteristic holds `"Initial Value"` and does not notify.
    pub fn new() -> (r: Self)
        ensures
            r.value@ == "Initial Value"@,
            !r.notifying,
    {
        CharacteristicServer { value: owned("Initial Value"), notifying: false }
    }

    /// Answers a request: a read gets the value's UTF-8 bytes; a write of
    /// UTF-8 text replaces the value (other bytes are ignored) and gets an
    /// empty answer; subscribing starts notifications, unsubscribing stops
    /// them.
    pub fn handle(&mut self, request: GattRequest) -> (r: GattAction)
        ensures
            match request {
                GattRequest::Read => (r matches GattAction::Respond(b) && b@ == read_answer(old(self).value@))
                    && final(self).value == old(self).value && final(self).notifying == old(self).notifying,
                GattRequest::Write(data) => (r matches GattAction::Respond(b) && b@.len() == 0)
                    && final(self).notifying == old(self).notifying
                    && final(self).value@ == text_after_write(old(self).value@, data@)
                    && (!valid_utf8(data@) ==> final(self).value == old(self).value),
                GattRequest::NotifySubscribe => r is StartNotifying && final(self).notifying
                    && final(self).value == old(self).value,
                GattRequest::NotifyUnsubscribe => r is Ignore && !final(self).notifying
                    && final(self).value == old(self).value,
            },
    {
        match request {
            GattRequest::Read => GattAction::Respond(text_bytes(self.value.as_str())),
            GattRequest::Write(data) => {
                match utf8_string(data.as_slice()) {
                    Some(text) => self.value = text,
                    None => {},
                }
                GattAction::Respond(Vec::new())
            },
            GattRequest::NotifySubscribe => {
                self.notifying = true;
                GattAction::StartNotifying
            },
            GattRequest::NotifyUnsubscribe => {
                self.notifying = false;
                GattAction::Ignore
            },
        }
    }
}

/// The bytes of the notification number `counter`: `"Notification <n>"`.
pub fn notification_payload(counter: u64) -> (r: Vec<u8>)
    ensures
        r@ == encode_utf8("Notification "@ + decimal_digits(counter as nat)),
{
    let mut text = owned("Notification ");
    text.append(decimal_string_u64(counter).as_str());
    text_bytes(text.as_str())
}

/// The demonstration descriptor: two bytes, initially zero.
pub struct DescriptorServer {
    pub value: Vec<u8>,
}

impl DescriptorServer {
    pub fn new() -> (r: Self)
        ensures
            r.value@ == seq![0u8, 0u8],
    {
        let mut value: Vec<u8> = Vec::new();
        value.push(0);
        value.push(0);
        assert(value@ =~= seq![0u8, 0u8]);
        DescriptorServer { value }
    }

    /// Answers a request: a read gets the value, a write replaces it and gets
    /// an empty answer, anything else is ignored.
    pub fn handle(&mut self, request: GattRequest) -> (r: GattAction)
        ensures
            match request {
                GattRequest::Read => (r matches GattAction::Respond(b) && b@ == old(self).value@)
                    && final(self).value == old(self).value,
                GattRequest::Write(data) => (r matches GattAction::Respond(b) && b@.len() == 0)
                    && final(self).value == data,
                _ => r is Ignore && final(self).value == old(self).value,
            },
    {
        match request {
            GattRequest::Read => GattAction::Respond(self.value.clone()),
            GattRequest::Write(data) => {
                self.value = data;
                GattAction::Respond(Vec::new())
            },
            _ => GattAction::Ignore,
        }
    }
}


/// Different short UUIDs stand for different UUIDs.
pub proof fn lemma_short_uuid_injective(a: u16, b: u16)
    ensures
        a != b ==> short_uuid_bytes(a) != short_uuid_bytes(b),
{
    if a != b && short_uuid_bytes(a) == short_uuid_bytes(b) {
        assert(short_uuid_bytes(a)[12] == short_uuid_bytes(b)[12]);
        assert(short_uuid_bytes(a)[13] == short_uuid_bytes(b)[13]);
        assert(a == 256 * (a / 256) + a % 256);
        assert(b == 256 * (b / 256) + b % 256);
    }
}

/// On the demonstration characteristic, a read after a write of UTF-8 bytes
/// answers exactly those bytes; a read after a write of other bytes answers
/// what a read answered before the write.
pub proof fn lemma_text_write_then_read(value: Seq<char>, data: Seq<u8>)
    ensures
        valid_utf8(data) ==> read_answer(text_after_write(value, data)) == data,
        !valid_utf8(data) ==> read_answer(text_after_write(value, data)) == read_answer(value),
{
    if valid_utf8(data) {
        decode_utf8_encode_utf8(data);
    }
}

} // verus!
