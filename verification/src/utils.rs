//! The catalogue of well-known GATT UUIDs and the decoding of characteristic
//! values according to the data type that the catalogue gives them.

use vstd::prelude::*;
use vstd::string::*;
use vstd::utf8::*;
use crate::text::{
    ascii_lower_char, ascii_lowercase, ascii_upper_char, ascii_uppercase, is_ascii_lower,
    lemma_ascii_upper_char, owned, str_eq, to_uppercase, uppercase, utf8_string,
};

verus! {

/// How the bytes of a characteristic are to be read.
#[derive(Debug, Clone, Copy, PartialEq, Eq, Structural)]
pub enum DataType {
    Uint8,
    Uint16,
    Uint32,
    Int8,
    Int16,
    Int32,
    Float,
    Double,
    Boolean,
    Utf8String,
    RawData,
}

/// The bit pattern of a decoded floating-point value: an IEEE-754 single
/// (read as such and widened to a double by the caller) or double.
#[derive(Debug, Clone, Copy, PartialEq, Eq, Structural)]
pub enum FloatBits {
    Single(u32),
    Double(u64),
}

/// A decoded characteristic value: exactly one field is set by the constructors.
#[derive(Debug, Clone)]
pub struct CharacteristicValue {
    pub int_value: Option<i64>,
    pub double_value: Option<FloatBits>,
    pub bool_value: Option<bool>,
    pub string_value: Option<String>,
    pub data_value: Option<Vec<u8>>,
}

/// Mathematical model of a [`CharacteristicValue`].
pub struct CharacteristicValueView {
    pub int_value: Option<i64>,
    pub double_value: Option<FloatBits>,
    pub bool_value: Option<bool>,
    pub string_value: Option<Seq<char>>,
    pub data_value: Option<Seq<u8>>,
}

impl View for CharacteristicValue {
    type V = CharacteristicValueView;

    open spec fn view(&self) -> CharacteristicValueView {
        CharacteristicValueView {
            int_value: self.int_value,
            double_value: self.double_value,
            bool_value: self.bool_value,
            string_value: match self.string_value {
                Some(s) => Some(s@),
                None => None,
            },
            data_value: match self.data_value {
                Some(d) => Some(d@),
                None => None,
            },
        }
    }
}

pub open spec fn int_view(v: i64) -> CharacteristicValueView {
    CharacteristicValueView { int_value: Some(v), double_value: None, bool_value: None, string_value: None, data_value: None }
}

pub open spec fn double_view(v: FloatBits) -> CharacteristicValueView {
    CharacteristicValueView { int_value: None, double_value: Some(v), bool_value: None, string_value: None, data_value: None }
}

pub open spec fn bool_view(v: bool) -> CharacteristicValueView {
    CharacteristicValueView { int_value: None, double_value: None, bool_value: Some(v), string_value: None, data_value: None }
}

pub open spec fn string_view(v: Seq<char>) -> CharacteristicValueView {
    CharacteristicValueView { int_value: None, double_value: None, bool_value: None, string_value: Some(v), data_value: None }
}

pub open spec fn data_view(v: Seq<u8>) -> CharacteristicValueView {
    CharacteristicValueView { int_value: None, double_value: None, bool_value: None, string_value: None, data_value: Some(v) }
}

impl CharacteristicValue {
    pub fn of_int(value: i64) -> (r: Self)
        ensures
            r@ == int_view(value),
    {
        CharacteristicValue {
            int_value: Some(value),
            double_value: None,
            bool_value: None,
            string_value: None,
            data_value: None,
        }
    }

    pub fn of_double(value: FloatBits) -> (r: Self)
        ensures
            r@ == double_view(value),
    {
        CharacteristicValue {
            int_value: None,
            double_value: Some(value),
            bool_value: None,
            string_value: None,
            data_value: None,
        }
    }

    pub fn of_bool(value: bool) -> (r: Self)
        ensures
            r@ == bool_view(value),
    {
        CharacteristicValue {
            int_value: None,
            double_value: None,
            bool_value: Some(value),
            string_value: None,
            data_value: None,
        }
    }

    pub fn of_string(value: String) -> (r: Self)
        ensures
            r@ == string_view(value@),
    {
        CharacteristicValue {
            int_value: None,
            double_value: None,
            bool_value: None,
            string_value: Some(value),
            data_value: None,
        }
    }

    pub fn of_data(value: Vec<u8>) -> (r: Self)
        ensures
            r@ == data_view(value@),
    {
        CharacteristicValue {
            int_value: None,
            double_value: None,
            bool_value: None,
            string_value: None,
            data_value: Some(value),
        }
    }
}

/// The catalogue of known UUIDs, keyed by the upper-case, 128-bit form:
/// the name and data type registered for `key`, if any.
pub open spec fn catalog_entry_spec(key: Seq<char>) -> Option<(Seq<char>, DataType)> {
    if key == "00002A43-0000-1000-8000-00805F9B34FB"@ {
        Some(("alertCategoryId"@, DataType::Uint8))
    } else if key == "00002A06-0000-1000-8000-00805F9B34FB"@ {
        Some(("alertLevel"@, DataType::Uint8))
    } else if key == "00002A3F-0000-1000-8000-00805F9B34FB"@ {
        Some(("alertStatus"@, DataType::Uint8))
    } else if key == "00002AB3-0000-1000-8000-00805F9B34FB"@ {
        Some(("altitude"@, DataType::Int32))
    } else if key == "00002A58-0000-1000-8000-00805F9B34FB"@ {
        Some(("analog"@, DataType::RawData))
    } else if key == "00002A59-0000-1000-8000-00805F9B34FB"@ {
        Some(("analogOutput"@, DataType::RawData))
    } else if key == "00002A19-0000-1000-8000-00805F9B34FB"@ {
        Some(("batteryLevel"@, DataType::Uint8))
    } else if key == "00002A2B-0000-1000-8000-00805F9B34FB"@ {
        Some(("currentTime"@, DataType::RawData))
    } else if key == "00002A56-0000-1000-8000-00805F9B34FB"@ {
        Some(("digital"@, DataType::RawData))
    } else if key == "00002A57-0000-1000-8000-00805F9B34FB"@ {
        Some(("digitalOutput"@, DataType::RawData))
    } else if key == "00002A26-0000-1000-8000-00805F9B34FB"@ {
        Some(("firmwareRevisionString"@, DataType::Utf8String))
    } else if key == "00002A8A-0000-1000-8000-00805F9B34FB"@ {
        Some(("firstName"@, DataType::Utf8String))
    } else if key == "00002A00-0000-1000-8000-00805F9B34FB"@ {
        Some(("deviceName"@, DataType::Utf8String))
    } else if key == "00002A03-0000-1000-8000-00805F9B34FB"@ {
        Some(("reconnectionAddress"@, DataType::RawData))
    } else if key == "00002A05-0000-1000-8000-00805F9B34FB"@ {
        Some(("serviceChanged"@, DataType::RawData))
    } else if key == "00002A27-0000-1000-8000-00805F9B34FB"@ {
        Some(("hardwareRevisionString"@, DataType::Utf8String))
    } else if key == "00002A6F-0000-1000-8000-00805F9B34FB"@ {
        Some(("humidity"@, DataType::Float))
    } else if key == "00002A90-0000-1000-8000-00805F9B34FB"@ {
        Some(("lastName"@, DataType::Utf8String))
    } else if key == "00002AAE-0000-1000-8000-00805F9B34FB"@ {
        Some(("latitude"@, DataType::Int32))
    } else if key == "00002AAF-0000-1000-8000-00805F9B34FB"@ {
        Some(("longitude"@, DataType::Int32))
    } else if key == "00002A29-0000-1000-8000-00805F9B34FB"@ {
        Some(("manufacturerNameString"@, DataType::Utf8String))
    } else if key == "00002A21-0000-1000-8000-00805F9B34FB"@ {
        Some(("measurementInterval"@, DataType::Int32))
    } else if key == "00002A24-0000-1000-8000-00805F9B34FB"@ {
        Some(("modelNumberString"@, DataType::Utf8String))
    } else if key == "00002A6D-0000-1000-8000-00805F9B34FB"@ {
        Some(("pressure"@, DataType::Float))
    } else if key == "61D20A90-71A1-11EA-AB12-0800200C9A66"@ {
        Some(("pressure"@, DataType::Float))
    } else if key == "00002A78-0000-1000-8000-00805F9B34FB"@ {
        Some(("rainfall"@, DataType::Int32))
    } else if key == "00002A25-0000-1000-8000-00805F9B34FB"@ {
        Some(("serialNumberString"@, DataType::Utf8String))
    } else if key == "00002A3B-0000-1000-8000-00805F9B34FB"@ {
        Some(("serviceRequired"@, DataType::Boolean))
    } else if key == "00002A28-0000-1000-8000-00805F9B34FB"@ {
        Some(("softwareRevisionString"@, DataType::Utf8String))
    } else if key == "00002A3D-0000-1000-8000-00805F9B34FB"@ {
        Some(("string"@, DataType::Utf8String))
    } else if key == "00002A23-0000-1000-8000-00805F9B34FB"@ {
        Some(("systemId"@, DataType::RawData))
    } else if key == "00002A6E-0000-1000-8000-00805F9B34FB"@ {
        Some(("temperature"@, DataType::Float))
    } else if key == "00002A1F-0000-1000-8000-00805F9B34FB"@ {
        Some(("temperatureCelsius"@, DataType::Float))
    } else if key == "00002A20-0000-1000-8000-00805F9B34FB"@ {
        Some(("temperatureFahrenheit"@, DataType::Float))
    } else if key == "00002A15-0000-1000-8000-00805F9B34FB"@ {
        Some(("timeBroadcast"@, DataType::RawData))
    } else if key == "00002A37-0000-1000-8000-00805F9B34FB"@ {
        Some(("heartRateMeasurement"@, DataType::RawData))
    } else if key == "00002A5B-0000-1000-8000-00805F9B34FB"@ {
        Some(("cscMeasurement"@, DataType::RawData))
    } else if key == "00002902-0000-1000-8000-00805F9B34FB"@ {
        Some(("clientCharacteristicConfig"@, DataType::RawData))
    } else if key == "00001800-0000-1000-8000-00805F9B34FB"@ {
        Some(("genericAccess"@, DataType::RawData))
    } else if key == "00001811-0000-1000-8000-00805F9B34FB"@ {
        Some(("alertNotificationService"@, DataType::RawData))
    } else if key == "00001815-0000-1000-8000-00805F9B34FB"@ {
        Some(("automationIO"@, DataType::RawData))
    } else if key == "0000180F-0000-1000-8000-00805F9B34FB"@ {
        Some(("batteryService"@, DataType::Uint8))
    } else if key == "0000183B-0000-1000-8000-00805F9B34FB"@ {
        Some(("binarySensor"@, DataType::RawData))
    } else if key == "00001805-0000-1000-8000-00805F9B34FB"@ {
        Some(("currentTimeService"@, DataType::RawData))
    } else if key == "0000180A-0000-1000-8000-00805F9B34FB"@ {
        Some(("deviceInformation"@, DataType::Utf8String))
    } else if key == "0000183C-0000-1000-8000-00805F9B34FB"@ {
        Some(("emergencyConfiguration"@, DataType::RawData))
    } else if key == "0000181A-0000-1000-8000-00805F9B34FB"@ {
        Some(("environmentalSensing"@, DataType::RawData))
    } else if key == "00001801-0000-1000-8000-00805F9B34FB"@ {
        Some(("genericAttribute"@, DataType::RawData))
    } else if key == "00001812-0000-1000-8000-00805F9B34FB"@ {
        Some(("humanInterfaceDevice"@, DataType::RawData))
    } else if key == "00001802-0000-1000-8000-00805F9B34FB"@ {
        Some(("immediateAlert"@, DataType::RawData))
    } else if key == "00001821-0000-1000-8000-00805F9B34FB"@ {
        Some(("indoorPositioning"@, DataType::RawData))
    } else if key == "00001803-0000-1000-8000-00805F9B34FB"@ {
        Some(("linkLoss"@, DataType::RawData))
    } else if key == "00001819-0000-1000-8000-00805F9B34FB"@ {
        Some(("locationAndNavigation"@, DataType::RawData))
    } else if key == "00001825-0000-1000-8000-00805F9B34FB"@ {
        Some(("objectTransferService"@, DataType::RawData))
    } else if key == "00001824-0000-1000-8000-00805F9B34FB"@ {
        Some(("transportDiscovery"@, DataType::RawData))
    } else if key == "00001804-0000-1000-8000-00805F9B34FB"@ {
        Some(("txPower"@, DataType::Int8))
    } else if key == "0000181C-0000-1000-8000-00805F9B34FB"@ {
        Some(("userData"@, DataType::RawData))
    } else if key == "453B02B0-71A1-11EA-AB12-0800200C9A66"@ {
        Some(("pressureSensorService"@, DataType::Int32))
    } else if key == "00001523-1212-EFDE-1523-785FEABCD123"@ {
        Some(("nordicBlinkyService"@, DataType::RawData))
    } else if key == "0000180D-0000-1000-8000-00805F9B34FB"@ {
        Some(("mockHeartrate"@, DataType::RawData))
    } else if key == "00001524-1212-EFDE-1523-785FEABCD123"@ {
        Some(("buttonCharacteristic"@, DataType::Uint8))
    } else if key == "00001525-1212-EFDE-1523-785FEABCD123"@ {
        Some(("ledCharacteristic"@, DataType::Uint8))
    } else if key == "00002A38-0000-1000-8000-00805F9B34FB"@ {
        Some(("bodySensorLocation"@, DataType::Uint8))
    } else {
        None
    }
}

/// Looks `key` (an upper-case, 128-bit UUID string) up in the catalogue.
pub fn catalog_entry(key: &str) -> (res: Option<(&'static str, DataType)>)
    ensures
        match (res, catalog_entry_spec(key@)) {
            (Some((n, t)), Some((sn, st))) => n@ == sn && t == st,
            (None, None) => true,
            _ => false,
        },
{
    if str_eq(key, "00002A43-0000-1000-8000-00805F9B34FB") {
        Some(("alertCategoryId", DataType::Uint8))
    } else if str_eq(key, "00002A06-0000-1000-8000-00805F9B34FB") {
        Some(("alertLevel", DataType::Uint8))
    } else if str_eq(key, "00002A3F-0000-1000-8000-00805F9B34FB") {
        Some(("alertStatus", DataType::Uint8))
    } else if str_eq(key, "00002AB3-0000-1000-8000-00805F9B34FB") {
        Some(("altitude", DataType::Int32))
    } else if str_eq(key, "00002A58-0000-1000-8000-00805F9B34FB") {
        Some(("analog", DataType::RawData))
    } else if str_eq(key, "00002A59-0000-1000-8000-00805F9B34FB") {
        Some(("analogOutput", DataType::RawData))
    } else if str_eq(key, "00002A19-0000-1000-8000-00805F9B34FB") {
        Some(("batteryLevel", DataType::Uint8))
    } else if str_eq(key, "00002A2B-0000-1000-8000-00805F9B34FB") {
        Some(("currentTime", DataType::RawData))
    } else if str_eq(key, "00002A56-0000-1000-8000-00805F9B34FB") {
        Some(("digital", DataType::RawData))
    } else if str_eq(key, "00002A57-0000-1000-8000-00805F9B34FB") {
        Some(("digitalOutput", DataType::RawData))
    } else if str_eq(key, "00002A26-0000-1000-8000-00805F9B34FB") {
        Some(("firmwareRevisionString", DataType::Utf8String))
    } else if str_eq(key, "00002A8A-0000-1000-8000-00805F9B34FB") {
        Some(("firstName", DataType::Utf8String))
    } else if str_eq(key, "00002A00-0000-1000-8000-00805F9B34FB") {
        Some(("deviceName", DataType::Utf8String))
    } else if str_eq(key, "00002A03-0000-1000-8000-00805F9B34FB") {
        Some(("reconnectionAddress", DataType::RawData))
    } else if str_eq(key, "00002A05-0000-1000-8000-00805F9B34FB") {
        Some(("serviceChanged", DataType::RawData))
    } else if str_eq(key, "00002A27-0000-1000-8000-00805F9B34FB") {
        Some(("hardwareRevisionString", DataType::Utf8String))
    } else if str_eq(key, "00002A6F-0000-1000-8000-00805F9B34FB") {
        Some(("humidity", DataType::Float))
    } else if str_eq(key, "00002A90-0000-1000-8000-00805F9B34FB") {
        Some(("lastName", DataType::Utf8String))
    } else if str_eq(key, "00002AAE-0000-1000-8000-00805F9B34FB") {
        Some(("latitude", DataType::Int32))
    } else if str_eq(key, "00002AAF-0000-1000-8000-00805F9B34FB") {
        Some(("longitude", DataType::Int32))
    } else if str_eq(key, "00002A29-0000-1000-8000-00805F9B34FB") {
        Some(("manufacturerNameString", DataType::Utf8String))
    } else if str_eq(key, "00002A21-0000-1000-8000-00805F9B34FB") {
        Some(("measurementInterval", DataType::Int32))
    } else if str_eq(key, "00002A24-0000-1000-8000-00805F9B34FB") {
        Some(("modelNumberString", DataType::Utf8String))
    } else if str_eq(key, "00002A6D-0000-1000-8000-00805F9B34FB") {
        Some(("pressure", DataType::Float))
    } else if str_eq(key, "61D20A90-71A1-11EA-AB12-0800200C9A66") {
        Some(("pressure", DataType::Float))
    } else if str_eq(key, "00002A78-0000-1000-8000-00805F9B34FB") {
        Some(("rainfall", DataType::Int32))
    } else if str_eq(key, "00002A25-0000-1000-8000-00805F9B34FB") {
        Some(("serialNumberString", DataType::Utf8String))
    } else if str_eq(key, "00002A3B-0000-1000-8000-00805F9B34FB") {
        Some(("serviceRequired", DataType::Boolean))
    } else if str_eq(key, "00002A28-0000-1000-8000-00805F9B34FB") {
        Some(("softwareRevisionString", DataType::Utf8String))
    } else if str_eq(key, "00002A3D-0000-1000-8000-00805F9B34FB") {
        Some(("string", DataType::Utf8String))
    } else if str_eq(key, "00002A23-0000-1000-8000-00805F9B34FB") {
        Some(("systemId", DataType::RawData))
    } else if str_eq(key, "00002A6E-0000-1000-8000-00805F9B34FB") {
        Some(("temperature", DataType::Float))
    } else if str_eq(key, "00002A1F-0000-1000-8000-00805F9B34FB") {
        Some(("temperatureCelsius", DataType::Float))
    } else if str_eq(key, "00002A20-0000-1000-8000-00805F9B34FB") {
        Some(("temperatureFahrenheit", DataType::Float))
    } else if str_eq(key, "00002A15-0000-1000-8000-00805F9B34FB") {
        Some(("timeBroadcast", DataType::RawData))
    } else if str_eq(key, "00002A37-0000-1000-8000-00805F9B34FB") {
        Some(("heartRateMeasurement", DataType::RawData))
    } else if str_eq(key, "00002A5B-0000-1000-8000-00805F9B34FB") {
        Some(("cscMeasurement", DataType::RawData))
    } else if str_eq(key, "00002902-0000-1000-8000-00805F9B34FB") {
        Some(("clientCharacteristicConfig", DataType::RawData))
    } else if str_eq(key, "00001800-0000-1000-8000-00805F9B34FB") {
        Some(("genericAccess", DataType::RawData))
    } else if str_eq(key, "00001811-0000-1000-8000-00805F9B34FB") {
        Some(("alertNotificationService", DataType::RawData))
    } else if str_eq(key, "00001815-0000-1000-8000-00805F9B34FB") {
        Some(("automationIO", DataType::RawData))
    } else if str_eq(key, "0000180F-0000-1000-8000-00805F9B34FB") {
        Some(("batteryService", DataType::Uint8))
    } else if str_eq(key, "0000183B-0000-1000-8000-00805F9B34FB") {
        Some(("binarySensor", DataType::RawData))
    } else if str_eq(key, "00001805-0000-1000-8000-00805F9B34FB") {
        Some(("currentTimeService", DataType::RawData))
    } else if str_eq(key, "0000180A-0000-1000-8000-00805F9B34FB") {
        Some(("deviceInformation", DataType::Utf8String))
    } else if str_eq(key, "0000183C-0000-1000-8000-00805F9B34FB") {
        Some(("emergencyConfiguration", DataType::RawData))
    } else if str_eq(key, "0000181A-0000-1000-8000-00805F9B34FB") {
        Some(("environmentalSensing", DataType::RawData))
    } else if str_eq(key, "00001801-0000-1000-8000-00805F9B34FB") {
        Some(("genericAttribute", DataType::RawData))
    } else if str_eq(key, "00001812-0000-1000-8000-00805F9B34FB") {
        Some(("humanInterfaceDevice", DataType::RawData))
    } else if str_eq(key, "00001802-0000-1000-8000-00805F9B34FB") {
        Some(("immediateAlert", DataType::RawData))
    } else if str_eq(key, "00001821-0000-1000-8000-00805F9B34FB") {
        Some(("indoorPositioning", DataType::RawData))
    } else if str_eq(key, "00001803-0000-1000-8000-00805F9B34FB") {
        Some(("linkLoss", DataType::RawData))
    } else if str_eq(key, "00001819-0000-1000-8000-00805F9B34FB") {
        Some(("locationAndNavigation", DataType::RawData))
    } else if str_eq(key, "00001825-0000-1000-8000-00805F9B34FB") {
        Some(("objectTransferService", DataType::RawData))
    } else if str_eq(key, "00001824-0000-1000-8000-00805F9B34FB") {
        Some(("transportDiscovery", DataType::RawData))
    } else if str_eq(key, "00001804-0000-1000-8000-00805F9B34FB") {
        Some(("txPower", DataType::Int8))
    } else if str_eq(key, "0000181C-0000-1000-8000-00805F9B34FB") {
        Some(("userData", DataType::RawData))
    } else if str_eq(key, "453B02B0-71A1-11EA-AB12-0800200C9A66") {
        Some(("pressureSensorService", DataType::Int32))
    } else if str_eq(key, "00001523-1212-EFDE-1523-785FEABCD123") {
        Some(("nordicBlinkyService", DataType::RawData))
    } else if str_eq(key, "0000180D-0000-1000-8000-00805F9B34FB") {
        Some(("mockHeartrate", DataType::RawData))
    } else if str_eq(key, "00001524-1212-EFDE-1523-785FEABCD123") {
        Some(("buttonCharacteristic", DataType::Uint8))
    } else if str_eq(key, "00001525-1212-EFDE-1523-785FEABCD123") {
        Some(("ledCharacteristic", DataType::Uint8))
    } else if str_eq(key, "00002A38-0000-1000-8000-00805F9B34FB") {
        Some(("bodySensorLocation", DataType::Uint8))
    } else {
        None
    }
}

/// The text that is upper-cased to expand `s`: a 4-byte short UUID placed
/// into the Bluetooth base UUID, anything else as it is.
pub open spec fn expansion_source(s: Seq<char>) -> Seq<char> {
    if encode_utf8(s).len() as usize == 4 {
        "0000"@ + s + "-0000-1000-8000-00805F9B34FB"@
    } else {
        s
    }
}

/// The 128-bit, upper-case form of a UUID string: a 4-byte short UUID is
/// placed into the Bluetooth base UUID, anything else is only upper-cased
/// (the ASCII way for ASCII text).
pub open spec fn expand_short_uuid_spec(s: Seq<char>) -> Seq<char> {
    let t = expansion_source(s);
    if is_ascii_chars(t) { ascii_uppercase(t) } else { uppercase(t) }
}

/// Expands a short (16-bit, four-character) UUID into the Bluetooth base UUID
/// and upper-cases the result; longer strings are only upper-cased.
pub fn expand_short_uuid(uuid_string: &str) -> (res: String)
    ensures
        res@ == expand_short_uuid_spec(uuid_string@),
{
    if uuid_string.len() == 4 {
        let mut full = String::new();
        full.append("0000");
        full.append(uuid_string);
        full.append("-0000-1000-8000-00805F9B34FB");
        assert(full@ =~= "0000"@ + uuid_string@ + "-0000-1000-8000-00805F9B34FB"@);
        to_uppercase(full.as_str())
    } else {
        to_uppercase(uuid_string)
    }
}

pub open spec fn name_for_uuid_spec(uuid: Seq<char>) -> Seq<char> {
    match catalog_entry_spec(expand_short_uuid_spec(uuid)) {
        Some((name, _)) => name,
        None => "unknown uuid "@ + uuid,
    }
}

/// The catalogue name of a UUID, or `"unknown uuid <uuid>"` when it is not
/// catalogued.
pub fn name_for_uuid(uuid_string: &str) -> (res: String)
    ensures
        res@ == name_for_uuid_spec(uuid_string@),
{
    let expanded = expand_short_uuid(uuid_string);
    match catalog_entry(expanded.as_str()) {
        Some((name, _)) => owned(name),
        None => {
            let mut res = String::new();
            res.append("unknown uuid ");
            res.append(uuid_string);
            res
        },
    }
}

pub open spec fn data_type_for_uuid_spec(uuid: Seq<char>) -> Option<DataType> {
    match catalog_entry_spec(expand_short_uuid_spec(uuid)) {
        Some((_, t)) => Some(t),
        None => None,
    }
}

/// The catalogued data type of a UUID, if it is catalogued.
pub fn data_type_for_uuid(uuid_string: &str) -> (res: Option<DataType>)
    ensures
        res == data_type_for_uuid_spec(uuid_string@),
{
    let expanded = expand_short_uuid(uuid_string);
    match catalog_entry(expanded.as_str()) {
        Some((_, data_type)) => Some(data_type),
        None => None,
    }
}

/// The heart-rate measurement value: byte 0 holds flags; when its lowest bit
/// is clear the rate is the `u8` in byte 1, otherwise the little-endian `u16`
/// in bytes 1 and 2.
pub open spec fn decode_heart_rate_spec(d: Seq<u8>) -> Option<i64> {
    if d.len() == 0 {
        None
    } else if d[0] % 2 == 0 {
        if d.len() < 2 { None } else { Some(d[1] as i64) }
    } else {
        if d.len() < 3 { None } else { Some((d[1] + 256 * d[2]) as i64) }
    }
}

/// Decodes a heart-rate measurement (characteristic 0x2A37).
pub fn decode_heart_rate(data: &[u8]) -> (res: Option<i64>)
    ensures
        res == decode_heart_rate_spec(data@),
{
    if data.len() == 0 {
        return None;
    }
    let flags = data[0];
    let heart_rate_format_bit = flags & 0x01;
    assert(flags & 0x01 == flags % 2) by (bit_vector);
    if heart_rate_format_bit == 0 {
        if data.len() < 2 {
            return None;
        }
        Some(data[1] as i64)
    } else {
        if data.len() < 3 {
            return None;
        }
        let value: u16 = data[1] as u16 + 256 * (data[2] as u16);
        Some(value as i64)
    }
}

/// Little-endian unsigned value of the first `n` bytes of `d`.
pub open spec fn le_unsigned(d: Seq<u8>, n: nat) -> int
    decreases n,
{
    if n == 0 { 0 } else { le_unsigned(d, (n - 1) as nat) + d[n - 1] * pow256((n - 1) as nat) }
}

pub open spec fn pow256(n: nat) -> int
    decreases n,
{
    if n == 0 { 1 } else { 256 * pow256((n - 1) as nat) }
}

/// Two's-complement reading of an `n`-byte unsigned value.
pub open spec fn le_signed(d: Seq<u8>, n: nat) -> int {
    let u = le_unsigned(d, n);
    if u >= pow256(n) / 2 { u - pow256(n) } else { u }
}

/// The value that the bytes `d` encode when read as `t`.
pub open spec fn decode_typed_spec(t: DataType, d: Seq<u8>) -> Option<CharacteristicValueView> {
    match t {
        DataType::Uint8 => if d.len() == 1 { Some(int_view(le_unsigned(d, 1) as i64)) } else { None },
        DataType::Uint16 => if d.len() == 2 { Some(int_view(le_unsigned(d, 2) as i64)) } else { None },
        DataType::Uint32 => if d.len() == 4 { Some(int_view(le_unsigned(d, 4) as i64)) } else { None },
        DataType::Int8 => if d.len() == 1 { Some(int_view(le_signed(d, 1) as i64)) } else { None },
        DataType::Int16 => if d.len() == 2 { Some(int_view(le_signed(d, 2) as i64)) } else { None },
        DataType::Int32 => if d.len() == 4 { Some(int_view(le_signed(d, 4) as i64)) } else { None },
        DataType::Float => if d.len() == 4 {
            Some(double_view(FloatBits::Single(le_unsigned(d, 4) as u32)))
        } else {
            None
        },
        DataType::Double => if d.len() == 8 {
            Some(double_view(FloatBits::Double(le_unsigned(d, 8) as u64)))
        } else {
            None
        },
        DataType::Boolean => if d.len() == 1 { Some(bool_view(d[0] != 0)) } else { None },
        DataType::Utf8String => if valid_utf8(d) { Some(string_view(decode_utf8(d))) } else { None },
        DataType::RawData => Some(data_view(d)),
    }
}

proof fn lemma_pow256_values()
    ensures
        pow256(0) == 1,
        pow256(1) == 256,
        pow256(2) == 65536,
        pow256(3) == 16777216,
        pow256(4) == 4294967296,
        pow256(5) == 1099511627776,
        pow256(6) == 281474976710656,
        pow256(7) == 72057594037927936,
        pow256(8) == 18446744073709551616,
{
    reveal_with_fuel(pow256, 9);
}

proof fn lemma_le_unsigned_unfold(d: Seq<u8>)
    ensures
        le_unsigned(d, 1) == d[0] as int,
        le_unsigned(d, 2) == d[0] + 256 * d[1],
        le_unsigned(d, 4) == d[0] + 256 * d[1] + 65536 * d[2] + 16777216 * d[3],
        le_unsigned(d, 8) == d[0] + 256 * d[1] + 65536 * d[2] + 16777216 * d[3]
            + 4294967296 * d[4] + 1099511627776 * d[5] + 281474976710656 * d[6]
            + 72057594037927936 * d[7],
{
    lemma_pow256_values();
    reveal_with_fuel(le_unsigned, 9);
}

/// Decodes `data` as a value of type `data_type`; `None` when the length does
/// not fit the type or the text is not UTF-8.
pub fn decode_typed(data_type: DataType, data: &[u8]) -> (res: Option<CharacteristicValue>)
    ensures
        match (res, decode_typed_spec(data_type, data@)) {
            (Some(v), Some(m)) => v@ == m,
            (None, None) => true,
            _ => false,
        },
{
    proof {
        lemma_le_unsigned_unfold(data@);
        lemma_pow256_values();
    }
    match data_type {
        DataType::Uint8 => {
            if data.len() == 1 {
                Some(CharacteristicValue::of_int(data[0] as i64))
            } else {
                None
            }
        },
        DataType::Uint16 => {
            if data.len() == 2 {
                let value: u64 = data[0] as u64 + 256 * (data[1] as u64);
                Some(CharacteristicValue::of_int(value as i64))
            } else {
                None
            }
        },
        DataType::Uint32 => {
            if data.len() == 4 {
                let value: u64 = data[0] as u64 + 256 * (data[1] as u64) + 65536 * (data[2] as u64)
                    + 16777216 * (data[3] as u64);
                Some(CharacteristicValue::of_int(value as i64))
            } else {
                None
            }
        },
        DataType::Int8 => {
            if data.len() == 1 {
                let u: i64 = data[0] as i64;
                let value: i64 = if u >= 128 { u - 256 } else { u };
                Some(CharacteristicValue::of_int(value))
            } else {
                None
            }
        },
        DataType::Int16 => {
            if data.len() == 2 {
                let u: i64 = data[0] as i64 + 256 * (data[1] as i64);
                let value: i64 = if u >= 32768 { u - 65536 } else { u };
                Some(CharacteristicValue::of_int(value))
            } else {
                None
            }
        },
        DataType::Int32 => {
            if data.len() == 4 {
                let u: i64 = data[0] as i64 + 256 * (data[1] as i64) + 65536 * (data[2] as i64)
                    + 16777216 * (data[3] as i64);
                let value: i64 = if u >= 2147483648 { u - 4294967296 } else { u };
                Some(CharacteristicValue::of_int(value))
            } else {
                None
            }
        },
        DataType::Float => {
            if data.len() == 4 {
                let bits: u32 = data[0] as u32 + 256 * (data[1] as u32) + 65536 * (data[2] as u32)
                    + 16777216 * (data[3] as u32);
                Some(CharacteristicValue::of_double(FloatBits::Single(bits)))
            } else {
                None
            }
        },
        DataType::Double => {
            if data.len() == 8 {
                let bits: u64 = data[0] as u64 + 256 * (data[1] as u64) + 65536 * (data[2] as u64)
                    + 16777216 * (data[3] as u64) + 4294967296 * (data[4] as u64)
                    + 1099511627776 * (data[5] as u64) + 281474976710656 * (data[6] as u64)
                    + 72057594037927936 * (data[7] as u64);
                Some(CharacteristicValue::of_double(FloatBits::Double(bits)))
            } else {
                None
            }
        },
        DataType::Boolean => {
            if data.len() == 1 {
                Some(CharacteristicValue::of_bool(data[0] != 0))
            } else {
                None
            }
        },
        DataType::Utf8String => {
            match utf8_string(data) {
                Some(s) => Some(CharacteristicValue::of_string(s)),
                None => None,
            }
        },
        DataType::RawData => Some(CharacteristicValue::of_data(vstd::slice::slice_to_vec(data))),
    }
}

/// Decoding of a value whose UUID is already in upper-case, 128-bit form:
/// heart-rate measurements have their own layout, other catalogued UUIDs are
/// read by their catalogued type, uncatalogued ones are not decoded.
pub open spec fn decode_expanded_spec(key: Seq<char>, d: Seq<u8>) -> Option<CharacteristicValueView> {
    if key == "00002A37-0000-1000-8000-00805F9B34FB"@ {
        match decode_heart_rate_spec(d) {
            Some(rate) => Some(int_view(rate)),
            None => None,
        }
    } else {
        match catalog_entry_spec(key) {
            Some((_, t)) => decode_typed_spec(t, d),
            None => None,
        }
    }
}

/// Decodes `data` for the characteristic whose expanded UUID is `expanded_uuid`.
pub fn decode_expanded(expanded_uuid: &str, data: &[u8]) -> (res: Option<CharacteristicValue>)
    ensures
        match (res, decode_expanded_spec(expanded_uuid@, data@)) {
            (Some(v), Some(m)) => v@ == m,
            (None, None) => true,
            _ => false,
        },
{
    if str_eq(expanded_uuid, "00002A37-0000-1000-8000-00805F9B34FB") {
        return match decode_heart_rate(data) {
            Some(heart_rate) => Some(CharacteristicValue::of_int(heart_rate)),
            None => None,
        };
    }
    match catalog_entry(expanded_uuid) {
        Some((_, data_type)) => decode_typed(data_type, data),
        None => None,
    }
}

/// Decodes the bytes of the characteristic `uuid_string` according to the
/// catalogue (the UUID may be given in short or full form, in any case).
pub fn decode_value(uuid_string: &str, data: &[u8]) -> (res: Option<CharacteristicValue>)
    ensures
        match (res, decode_expanded_spec(expand_short_uuid_spec(uuid_string@), data@)) {
            (Some(v), Some(m)) => v@ == m,
            (None, None) => true,
            _ => false,
        },
{
    let expanded = expand_short_uuid(uuid_string);
    decode_expanded(expanded.as_str(), data)
}


/// Decoded integers lie in the range of the type they were read as.
pub proof fn lemma_decoded_integers_in_range(t: DataType, d: Seq<u8>)
    ensures
        decode_typed_spec(t, d) matches Some(v) ==> match t {
            DataType::Uint8 => v.int_value matches Some(x) && 0 <= x <= 255,
            DataType::Uint16 => v.int_value matches Some(x) && 0 <= x <= 65535,
            DataType::Uint32 => v.int_value matches Some(x) && 0 <= x <= 4294967295,
            DataType::Int8 => v.int_value matches Some(x) && -128 <= x <= 127,
            DataType::Int16 => v.int_value matches Some(x) && -32768 <= x <= 32767,
            DataType::Int32 => v.int_value matches Some(x) && -2147483648 <= x <= 2147483647,
            _ => true,
        },
{
    lemma_le_unsigned_unfold(d);
    lemma_pow256_values();
    reveal_with_fuel(pow256, 5);
}

/// A heart-rate value is a `u8` in the short format and a `u16` in the long one.
pub proof fn lemma_heart_rate_in_range(d: Seq<u8>)
    ensures
        decode_heart_rate_spec(d) matches Some(x) ==> 0 <= x <= 65535,
        d.len() > 0 && d[0] % 2 == 0 ==> (decode_heart_rate_spec(d) matches Some(x) ==> x <= 255),
{
}

proof fn lemma_base_uuid_ascii()
    ensures
        is_ascii_chars("0000"@),
        is_ascii_chars("-0000-1000-8000-00805F9B34FB"@),
        ascii_uppercase("0000"@) == "0000"@,
        ascii_uppercase("-0000-1000-8000-00805F9B34FB"@) == "-0000-1000-8000-00805F9B34FB"@,
        ("-0000-1000-8000-00805F9B34FB"@).len() == 28,
        ("0000"@).len() == 4,
{
    reveal_strlit("0000");
    reveal_strlit("-0000-1000-8000-00805F9B34FB");
    assert(ascii_uppercase("0000"@) =~= "0000"@);
    assert(ascii_uppercase("-0000-1000-8000-00805F9B34FB"@) =~= "-0000-1000-8000-00805F9B34FB"@);
}

proof fn lemma_ascii_uppercase_facts(s: Seq<char>)
    ensures
        ascii_uppercase(s).len() == s.len(),
        ascii_lowercase(s).len() == s.len(),
        is_ascii_chars(s) ==> is_ascii_chars(ascii_uppercase(s)),
        is_ascii_chars(s) ==> is_ascii_chars(ascii_lowercase(s)),
        ascii_uppercase(ascii_uppercase(s)) == ascii_uppercase(s),
        ascii_uppercase(ascii_lowercase(s)) == ascii_uppercase(s),
        forall|i: int| 0 <= i < s.len() ==> !is_ascii_lower(#[trigger] ascii_uppercase(s)[i]),
{
    assert forall|i: int| 0 <= i < s.len() implies {
        &&& !is_ascii_lower(#[trigger] ascii_uppercase(s)[i])
        &&& ascii_upper_char(ascii_upper_char(s[i])) == ascii_upper_char(s[i])
        &&& ascii_upper_char(ascii_lower_char(s[i])) == ascii_upper_char(s[i])
        &&& ((s[i] as u32) < 128 ==> (ascii_upper_char(s[i]) as u32) < 128 && (ascii_lower_char(s[i]) as u32) < 128)
    } by {
        lemma_ascii_upper_char(s[i]);
    }
    if is_ascii_chars(s) {
        assert forall|i: int| 0 <= i < ascii_uppercase(s).len() implies '\0' <= #[trigger] ascii_uppercase(s)[i] <= '\u{7f}' by {
            lemma_ascii_upper_char(s[i]);
        }
        assert forall|i: int| 0 <= i < ascii_lowercase(s).len() implies '\0' <= #[trigger] ascii_lowercase(s)[i] <= '\u{7f}' by {
            lemma_ascii_upper_char(s[i]);
        }
    }
    assert(ascii_uppercase(ascii_uppercase(s)) =~= ascii_uppercase(s));
    assert(ascii_uppercase(ascii_lowercase(s)) =~= ascii_uppercase(s));
}

proof fn lemma_ascii_uppercase_concat(a: Seq<char>, b: Seq<char>)
    ensures
        ascii_uppercase(a + b) == ascii_uppercase(a) + ascii_uppercase(b),
{
    assert(ascii_uppercase(a + b) =~= ascii_uppercase(a) + ascii_uppercase(b));
}

/// For ASCII text the expansion depends on the text only up to letter
/// case: it is the upper-cased source, taken from the upper-cased text.
proof fn lemma_expansion_of_ascii(s: Seq<char>)
    requires
        is_ascii_chars(s),
        s.len() <= usize::MAX,
    ensures
        is_ascii_chars(expansion_source(s)),
        expand_short_uuid_spec(s) == ascii_uppercase(expansion_source(s)),
        expand_short_uuid_spec(s) == ascii_uppercase(expansion_source(ascii_uppercase(s))),
        expansion_source(s).len() == 36 || expansion_source(s) == s,
        encode_utf8(s).len() == s.len(),
{
    lemma_base_uuid_ascii();
    lemma_ascii_uppercase_facts(s);
    is_ascii_chars_encode_utf8(s);
    let u = ascii_uppercase(s);
    is_ascii_chars_encode_utf8(u);
    let a = "0000"@;
    let b = "-0000-1000-8000-00805F9B34FB"@;
    is_ascii_chars_concat(a + s, a, s);
    is_ascii_chars_concat(a + s + b, a + s, b);
    lemma_ascii_uppercase_concat(a, s);
    lemma_ascii_uppercase_concat(a + s, b);
    lemma_ascii_uppercase_concat(a, u);
    lemma_ascii_uppercase_concat(a + u, b);
}

/// Expanding a UUID string that is already expanded changes nothing, and the
/// expanded form of ASCII text holds no lower-case ASCII letter.
pub proof fn lemma_expansion_is_stable(s: Seq<char>)
    requires
        is_ascii_chars(s),
        s.len() <= usize::MAX,
    ensures
        expand_short_uuid_spec(expand_short_uuid_spec(s)) == expand_short_uuid_spec(s),
        forall|i: int| 0 <= i < expand_short_uuid_spec(s).len() ==> !is_ascii_lower(#[trigger] expand_short_uuid_spec(s)[i]),
{
    lemma_expansion_of_ascii(s);
    let t = expansion_source(s);
    let e = expand_short_uuid_spec(s);
    lemma_ascii_uppercase_facts(t);
    lemma_expansion_of_ascii(e);
    is_ascii_chars_encode_utf8(s);
    is_ascii_chars_encode_utf8(e);
    assert(expansion_source(e) == e);
    lemma_ascii_uppercase_facts(e);
}

/// For an ASCII UUID string, letter case does not matter, and the short
/// form, the full form and the expanded form all name the same catalogue key.
pub proof fn lemma_uuid_forms_decode_alike(u: Seq<char>, d: Seq<u8>)
    requires
        is_ascii_chars(u),
        u.len() <= usize::MAX,
    ensures
        expand_short_uuid_spec(ascii_lowercase(u)) == expand_short_uuid_spec(u),
        expand_short_uuid_spec(ascii_uppercase(u)) == expand_short_uuid_spec(u),
        decode_expanded_spec(expand_short_uuid_spec(expand_short_uuid_spec(u)), d)
            == decode_expanded_spec(expand_short_uuid_spec(u), d),
        decode_expanded_spec(expand_short_uuid_spec(ascii_lowercase(u)), d)
            == decode_expanded_spec(expand_short_uuid_spec(ascii_uppercase(u)), d),
{
    lemma_ascii_uppercase_facts(u);
    lemma_expansion_of_ascii(u);
    lemma_expansion_of_ascii(ascii_lowercase(u));
    lemma_expansion_of_ascii(ascii_uppercase(u));
    lemma_ascii_uppercase_facts(ascii_lowercase(u));
    lemma_expansion_is_stable(u);
}

} // verus!
