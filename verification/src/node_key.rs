//! Resolution of JSON object keys to the closed set of recognized
//! semantic keys. Unknown keys are expected and are not an error: they
//! keep the decoders forward-compatible with fields added later.

use vstd::prelude::*;
use vstd::string::StringSliceAdditionalSpecFns;
use crate::text::bytes_eq;

verus! {

/// The recognized object keys, by their literal wire names.
#[derive(Clone, Copy, Debug, PartialEq, Eq, Structural)]
pub enum ModelNodeKey {
    Name,
    Id,
    CreatedAt,
    UpdatedAt,
    MacAddress,
    BtMacAddress,
    SerialNumber,
    FirmwareVersion,
    TemperatureOffset,
    HumidityOffset,
    Users,
    NickName,
    SuperUser,
    NewestEvents,
    Te,
    Hu,
    Il,
    Mo,
    Val,
    Device,
    Model,
    Type,
    Manufacturer,
    Country,
    RemoteName,
    Series,
    Image,
    SmartMeter,
    EchonetLiteProperties,
    Epc,
}

/// The key that the given bytes name, case-sensitively and exactly, or
/// `None` for any other bytes.
pub open spec fn key_of(s: Seq<u8>) -> Option<ModelNodeKey> {
    if s == "name".spec_bytes() {
        Some(ModelNodeKey::Name)
    } else if s == "id".spec_bytes() {
        Some(ModelNodeKey::Id)
    } else if s == "created_at".spec_bytes() {
        Some(ModelNodeKey::CreatedAt)
    } else if s == "updated_at".spec_bytes() {
        Some(ModelNodeKey::UpdatedAt)
    } else if s == "mac_address".spec_bytes() {
        Some(ModelNodeKey::MacAddress)
    } else if s == "bt_mac_address".spec_bytes() {
        Some(ModelNodeKey::BtMacAddress)
    } else if s == "serial_number".spec_bytes() {
        Some(ModelNodeKey::SerialNumber)
    } else if s == "firmware_version".spec_bytes() {
        Some(ModelNodeKey::FirmwareVersion)
    } else if s == "temperature_offset".spec_bytes() {
        Some(ModelNodeKey::TemperatureOffset)
    } else if s == "humidity_offset".spec_bytes() {
        Some(ModelNodeKey::HumidityOffset)
    } else if s == "users".spec_bytes() {
        Some(ModelNodeKey::Users)
    } else if s == "nickname".spec_bytes() {
        Some(ModelNodeKey::NickName)
    } else if s == "superuser".spec_bytes() {
        Some(ModelNodeKey::SuperUser)
    } else if s == "newest_events".spec_bytes() {
        Some(ModelNodeKey::NewestEvents)
    } else if s == "te".spec_bytes() {
        Some(ModelNodeKey::Te)
    } else if s == "hu".spec_bytes() {
        Some(ModelNodeKey::Hu)
    } else if s == "il".spec_bytes() {
        Some(ModelNodeKey::Il)
    } else if s == "mo".spec_bytes() {
        Some(ModelNodeKey::Mo)
    } else if s == "val".spec_bytes() {
        Some(ModelNodeKey::Val)
    } else if s == "device".spec_bytes() {
        Some(ModelNodeKey::Device)
    } else if s == "type".spec_bytes() {
        Some(ModelNodeKey::Type)
    } else if s == "model".spec_bytes() {
        Some(ModelNodeKey::Model)
    } else if s == "manufacturer".spec_bytes() {
        Some(ModelNodeKey::Manufacturer)
    } else if s == "country".spec_bytes() {
        Some(ModelNodeKey::Country)
    } else if s == "remote_name".spec_bytes() {
        Some(ModelNodeKey::RemoteName)
    } else if s == "series".spec_bytes() {
        Some(ModelNodeKey::Series)
    } else if s == "image".spec_bytes() {
        Some(ModelNodeKey::Image)
    } else if s == "smart_meter".spec_bytes() {
        Some(ModelNodeKey::SmartMeter)
    } else if s == "echonetlite_properties".spec_bytes() {
        Some(ModelNodeKey::EchonetLiteProperties)
    } else if s == "epc".spec_bytes() {
        Some(ModelNodeKey::Epc)
    } else {
        None
    }
}

impl ModelNodeKey {
    /// Resolve an object key: the recognized key the bytes name exactly,
    /// or `Err` for any other bytes.
    pub fn try_from(s: &[u8]) -> (r: Result<ModelNodeKey, ()>)
        ensures
            match r {
                Ok(k) => key_of(s@) == Some(k),
                Err(_) => key_of(s@) is None,
            },
    {
        if bytes_eq(s, "name".as_bytes()) {
            Ok(ModelNodeKey::Name)
        } else if bytes_eq(s, "id".as_bytes()) {
            Ok(ModelNodeKey::Id)
        } else if bytes_eq(s, "created_at".as_bytes()) {
            Ok(ModelNodeKey::CreatedAt)
        } else if bytes_eq(s, "updated_at".as_bytes()) {
            Ok(ModelNodeKey::UpdatedAt)
        } else if bytes_eq(s, "mac_address".as_bytes()) {
            Ok(ModelNodeKey::MacAddress)
        } else if bytes_eq(s, "bt_mac_address".as_bytes()) {
            Ok(ModelNodeKey::BtMacAddress)
        } else if bytes_eq(s, "serial_number".as_bytes()) {
            Ok(ModelNodeKey::SerialNumber)
        } else if bytes_eq(s, "firmware_version".as_bytes()) {
            Ok(ModelNodeKey::FirmwareVersion)
        } else if bytes_eq(s, "temperature_offset".as_bytes()) {
            Ok(ModelNodeKey::TemperatureOffset)
        } else if bytes_eq(s, "humidity_offset".as_bytes()) {
            Ok(ModelNodeKey::HumidityOffset)
        } else if bytes_eq(s, "users".as_bytes()) {
            Ok(ModelNodeKey::Users)
        } else if bytes_eq(s, "nickname".as_bytes()) {
            Ok(ModelNodeKey::NickName)
        } else if bytes_eq(s, "superuser".as_bytes()) {
            Ok(ModelNodeKey::SuperUser)
        } else if bytes_eq(s, "newest_events".as_bytes()) {
            Ok(ModelNodeKey::NewestEvents)
        } else if bytes_eq(s, "te".as_bytes()) {
            Ok(ModelNodeKey::Te)
        } else if bytes_eq(s, "hu".as_bytes()) {
            Ok(ModelNodeKey::Hu)
        } else if bytes_eq(s, "il".as_bytes()) {
            Ok(ModelNodeKey::Il)
        } else if bytes_eq(s, "mo".as_bytes()) {
            Ok(ModelNodeKey::Mo)
        } else if bytes_eq(s, "val".as_bytes()) {
            Ok(ModelNodeKey::Val)
        } else if bytes_eq(s, "device".as_bytes()) {
            Ok(ModelNodeKey::Device)
        } else if bytes_eq(s, "type".as_bytes()) {
            Ok(ModelNodeKey::Type)
        } else if bytes_eq(s, "model".as_bytes()) {
            Ok(ModelNodeKey::Model)
        } else if bytes_eq(s, "manufacturer".as_bytes()) {
            Ok(ModelNodeKey::Manufacturer)
        } else if bytes_eq(s, "country".as_bytes()) {
            Ok(ModelNodeKey::Country)
        } else if bytes_eq(s, "remote_name".as_bytes()) {
            Ok(ModelNodeKey::RemoteName)
        } else if bytes_eq(s, "series".as_bytes()) {
            Ok(ModelNodeKey::Series)
        } else if bytes_eq(s, "image".as_bytes()) {
            Ok(ModelNodeKey::Image)
        } else if bytes_eq(s, "smart_meter".as_bytes()) {
            Ok(ModelNodeKey::SmartMeter)
        } else if bytes_eq(s, "echonetlite_properties".as_bytes()) {
            Ok(ModelNodeKey::EchonetLiteProperties)
        } else if bytes_eq(s, "epc".as_bytes()) {
            Ok(ModelNodeKey::Epc)
        } else {
            Err(())
        }
    }
}

} // verus!
