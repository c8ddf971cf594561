//! The appliance record schema: appliances with their embedded device,
//! model and echonet-lite-property sub-records, and the event-driven
//! decoder that assembles them.

use vstd::prelude::*;
use vstd::string::StringSliceAdditionalSpecFns;
use crate::common_types::{
    datetime_of, describe_pair, pair_description, step_result_view, uuid_of, ModelNodeParseError,
    ParseErrorView, Timestamp, Uuid,
};
use crate::config::{
    MAX_COUNTRY_LEN, MAX_ECHONET_LITE_NAME_LEN, MAX_ECHONET_LITE_VALUE_LEN, MAX_IMAGE_LEN,
    MAX_MANUFACTURER_LEN, MAX_MODEL_NAME_LEN, MAX_NICKNAME_LEN, MAX_NODE_DEPTH,
    MAX_REMOTE_NAME_LEN, MAX_SERIES_LEN,
};
use crate::device::{apply_device_field, device_default, device_field_update, Device, DeviceView};
use crate::events::{subtree_events, Emit, EventView, JsonEvent, Number, ScalarValue, ScalarView};
use crate::node_key::{key_of, ModelNodeKey};
use crate::parser_options::{copied_string, copy_string_option, ParserOptions};
use crate::text::{bytes_eq, BoundedString};

verus! {

// ---------------------------------------------------------------------
// Appliance records
// ---------------------------------------------------------------------

/// The closed set of appliance category tags. A tag outside this set is
/// the fatal `UnexpectedEnumValue`, never silently dropped.
#[derive(Clone, Copy, Debug, PartialEq, Eq, Structural)]
pub enum ApplianceType {
    AC,
    TV,
    Light,
    IR,
    SmartMeter,
    ElectricWaterHeater,
    PowerDistMeter,
    EVCD,
    SolarPower,
    StorageBattery,
    QrioLock,
    MorninPlus,
}

/// The appliance type the given tag bytes name, exactly, or `None` for
/// a tag outside the known set.
pub open spec fn appliance_type_of(s: Seq<u8>) -> Option<ApplianceType> {
    if s == "AC".spec_bytes() {
        Some(ApplianceType::AC)
    } else if s == "TV".spec_bytes() {
        Some(ApplianceType::TV)
    } else if s == "LIGHT".spec_bytes() {
        Some(ApplianceType::Light)
    } else if s == "IR".spec_bytes() {
        Some(ApplianceType::IR)
    } else if s == "EL_SMART_METER".spec_bytes() {
        Some(ApplianceType::SmartMeter)
    } else if s == "EL_ELECTRIC_WATER_HEATER".spec_bytes() {
        Some(ApplianceType::ElectricWaterHeater)
    } else if s == "EL_POWER_DIST_METER".spec_bytes() {
        Some(ApplianceType::PowerDistMeter)
    } else if s == "EL_EVCD".spec_bytes() {
        Some(ApplianceType::EVCD)
    } else if s == "EL_SOLAR_POWER".spec_bytes() {
        Some(ApplianceType::SolarPower)
    } else if s == "EL_STORAGE_BATTERY".spec_bytes() {
        Some(ApplianceType::StorageBattery)
    } else if s == "QRIO_LOCK".spec_bytes() {
        Some(ApplianceType::QrioLock)
    } else if s == "MORNIN_PLUS".spec_bytes() {
        Some(ApplianceType::MorninPlus)
    } else {
        None
    }
}

impl ApplianceType {
    /// Resolve a category tag against the fixed literal table.
    pub fn try_from(s: &[u8]) -> (r: Result<ApplianceType, ()>)
        ensures
            match r {
                Ok(t) => appliance_type_of(s@) == Some(t),
                Err(_) => appliance_type_of(s@) is None,
            },
    {
        if bytes_eq(s, "AC".as_bytes()) {
            Ok(ApplianceType::AC)
        } else if bytes_eq(s, "TV".as_bytes()) {
            Ok(ApplianceType::TV)
        } else if bytes_eq(s, "LIGHT".as_bytes()) {
            Ok(ApplianceType::Light)
        } else if bytes_eq(s, "IR".as_bytes()) {
            Ok(ApplianceType::IR)
        } else if bytes_eq(s, "EL_SMART_METER".as_bytes()) {
            Ok(ApplianceType::SmartMeter)
        } else if bytes_eq(s, "EL_ELECTRIC_WATER_HEATER".as_bytes()) {
            Ok(ApplianceType::ElectricWaterHeater)
        } else if bytes_eq(s, "EL_POWER_DIST_METER".as_bytes()) {
            Ok(ApplianceType::PowerDistMeter)
        } else if bytes_eq(s, "EL_EVCD".as_bytes()) {
            Ok(ApplianceType::EVCD)
        } else if bytes_eq(s, "EL_SOLAR_POWER".as_bytes()) {
            Ok(ApplianceType::SolarPower)
        } else if bytes_eq(s, "EL_STORAGE_BATTERY".as_bytes()) {
            Ok(ApplianceType::StorageBattery)
        } else if bytes_eq(s, "QRIO_LOCK".as_bytes()) {
            Ok(ApplianceType::QrioLock)
        } else if bytes_eq(s, "MORNIN_PLUS".as_bytes()) {
            Ok(ApplianceType::MorninPlus)
        } else {
            Err(())
        }
    }
}

impl Default for ApplianceType {
    /// The air-conditioner tag.
    fn default() -> (r: Self)
        ensures
            r == ApplianceType::AC,
    {
        ApplianceType::AC
    }
}

/// An appliance listing record.
#[derive(Debug, PartialEq)]
pub struct Appliance {
    pub id: Uuid,
    pub type_: ApplianceType,
    pub nickname: BoundedString<MAX_NICKNAME_LEN>,
    pub image: BoundedString<MAX_IMAGE_LEN>,
}

/// Mathematical image of `Appliance`.
pub struct ApplianceView {
    pub id: u128,
    pub type_: ApplianceType,
    pub nickname: Seq<u8>,
    pub image: Seq<u8>,
}

impl View for Appliance {
    type V = ApplianceView;

    open spec fn view(&self) -> ApplianceView {
        ApplianceView {
            id: self.id.0,
            type_: self.type_,
            nickname: self.nickname@,
            image: self.image@,
        }
    }
}

/// The record all of whose fields hold their defaults.
pub open spec fn appliance_default() -> ApplianceView {
    ApplianceView { id: 0, type_: ApplianceType::AC, nickname: Seq::empty(), image: Seq::empty() }
}

impl Default for Appliance {
    /// The record all of whose fields hold their defaults.
    fn default() -> (r: Self)
        ensures
            r@ == appliance_default(),
    {
        Appliance {
            id: Uuid(0),
            type_: ApplianceType::AC,
            nickname: BoundedString::new(),
            image: BoundedString::new(),
        }
    }
}

impl Clone for Appliance {
    /// An exact copy.
    fn clone(&self) -> (r: Self)
        ensures
            r@ == self@,
    {
        Appliance {
            id: self.id,
            type_: self.type_,
            nickname: self.nickname.clone(),
            image: self.image.clone(),
        }
    }
}

/// One echonet-lite property of a smart meter.
#[derive(Debug, PartialEq)]
pub struct EchonetLiteProperty {
    pub name: BoundedString<MAX_ECHONET_LITE_NAME_LEN>,
    pub epc: u32,
    pub val: BoundedString<MAX_ECHONET_LITE_VALUE_LEN>,
    pub updated_at: Timestamp,
}

/// Mathematical image of `EchonetLiteProperty`.
pub struct EchonetLitePropertyView {
    pub name: Seq<u8>,
    pub epc: u32,
    pub val: Seq<u8>,
    pub updated_at: i128,
}

impl View for EchonetLiteProperty {
    type V = EchonetLitePropertyView;

    open spec fn view(&self) -> EchonetLitePropertyView {
        EchonetLitePropertyView {
            name: self.name@,
            epc: self.epc,
            val: self.val@,
            updated_at: self.updated_at.0,
        }
    }
}

/// The property all of whose fields hold their defaults.
pub open spec fn echonet_property_default() -> EchonetLitePropertyView {
    EchonetLitePropertyView { name: Seq::empty(), epc: 0, val: Seq::empty(), updated_at: 0 }
}

impl Default for EchonetLiteProperty {
    /// The property all of whose fields hold their defaults.
    fn default() -> (r: Self)
        ensures
            r@ == echonet_property_default(),
    {
        EchonetLiteProperty {
            name: BoundedString::new(),
            epc: 0,
            val: BoundedString::new(),
            updated_at: Timestamp(0),
        }
    }
}

impl Clone for EchonetLiteProperty {
    /// An exact copy.
    fn clone(&self) -> (r: Self)
        ensures
            r@ == self@,
    {
        EchonetLiteProperty {
            name: self.name.clone(),
            epc: self.epc,
            val: self.val.clone(),
            updated_at: self.updated_at,
        }
    }
}

/// The model record embedded in an appliance.
#[derive(Debug, PartialEq)]
pub struct ApplianceModel {
    pub id: Uuid,
    pub country: BoundedString<MAX_COUNTRY_LEN>,
    pub manufacturer: BoundedString<MAX_MANUFACTURER_LEN>,
    pub remote_name: BoundedString<MAX_REMOTE_NAME_LEN>,
    pub series: BoundedString<MAX_SERIES_LEN>,
    pub name: BoundedString<MAX_MODEL_NAME_LEN>,
    pub image: BoundedString<MAX_IMAGE_LEN>,
}

/// Mathematical image of `ApplianceModel`.
pub struct ApplianceModelView {
    pub id: u128,
    pub country: Seq<u8>,
    pub manufacturer: Seq<u8>,
    pub remote_name: Seq<u8>,
    pub series: Seq<u8>,
    pub name: Seq<u8>,
    pub image: Seq<u8>,
}

impl View for ApplianceModel {
    type V = ApplianceModelView;

    open spec fn view(&self) -> ApplianceModelView {
        ApplianceModelView {
            id: self.id.0,
            country: self.country@,
            manufacturer: self.manufacturer@,
            remote_name: self.remote_name@,
            series: self.series@,
            name: self.name@,
            image: self.image@,
        }
    }
}

/// The record all of whose fields hold their defaults.
pub open spec fn appliance_model_default() -> ApplianceModelView {
    ApplianceModelView {
        id: 0,
        country: Seq::empty(),
        manufacturer: Seq::empty(),
        remote_name: Seq::empty(),
        series: Seq::empty(),
        name: Seq::empty(),
        image: Seq::empty(),
    }
}

impl Default for ApplianceModel {
    /// The record all of whose fields hold their defaults.
    fn default() -> (r: Self)
        ensures
            r@ == appliance_model_default(),
    {
        ApplianceModel {
            id: Uuid(0),
            country: BoundedString::new(),
            manufacturer: BoundedString::new(),
            remote_name: BoundedString::new(),
            series: BoundedString::new(),
            name: BoundedString::new(),
            image: BoundedString::new(),
        }
    }
}

impl Clone for ApplianceModel {
    /// An exact copy.
    fn clone(&self) -> (r: Self)
        ensures
            r@ == self@,
    {
        ApplianceModel {
            id: self.id,
            country: self.country.clone(),
            manufacturer: self.manufacturer.clone(),
            remote_name: self.remote_name.clone(),
            series: self.series.clone(),
            name: self.name.clone(),
            image: self.image.clone(),
        }
    }
}

/// The sub-record slot of the appliance decoder: exactly one sub-record
/// is active at a time.
#[derive(Debug, PartialEq)]
pub enum ApplianceSubNode {
    Device(Device),
    Model(ApplianceModel),
    EchonetLiteProperty(EchonetLiteProperty),
}

/// Mathematical image of `ApplianceSubNode`.
pub enum ApplianceSubNodeView {
    Device(DeviceView),
    Model(ApplianceModelView),
    EchonetLiteProperty(EchonetLitePropertyView),
}

impl View for ApplianceSubNode {
    type V = ApplianceSubNodeView;

    open spec fn view(&self) -> ApplianceSubNodeView {
        match self {
            ApplianceSubNode::Device(d) => ApplianceSubNodeView::Device(d@),
            ApplianceSubNode::Model(m) => ApplianceSubNodeView::Model(m@),
            ApplianceSubNode::EchonetLiteProperty(p) => ApplianceSubNodeView::EchonetLiteProperty(
                p@,
            ),
        }
    }
}

impl Clone for ApplianceSubNode {
    /// An exact copy.
    fn clone(&self) -> (r: Self)
        ensures
            r@ == self@,
    {
        match self {
            ApplianceSubNode::Device(d) => ApplianceSubNode::Device(d.clone()),
            ApplianceSubNode::Model(m) => ApplianceSubNode::Model(m.clone()),
            ApplianceSubNode::EchonetLiteProperty(p) => ApplianceSubNode::EchonetLiteProperty(
                p.clone(),
            ),
        }
    }
}

// ---------------------------------------------------------------------
// Scalar routing
// ---------------------------------------------------------------------

/// How a scalar under the given key changes an appliance record. An
/// unknown category tag under `type` is fatal; any unrecognized
/// (key, kind) pair leaves the record as it was.
pub open spec fn appliance_field_update(
    a: ApplianceView,
    key: ModelNodeKey,
    v: ScalarView,
    truncate: bool,
) -> Result<ApplianceView, ParseErrorView> {
    match (key, v) {
        (ModelNodeKey::NickName, ScalarView::Text(s)) => match copied_string(
            s,
            MAX_NICKNAME_LEN as int,
            truncate,
        ) {
            Ok(t) => Ok(ApplianceView { nickname: t, ..a }),
            Err(e) => Err(e),
        },
        (ModelNodeKey::Id, ScalarView::Text(s)) => match uuid_of(s) {
            Some(u) => Ok(ApplianceView { id: u, ..a }),
            None => Err(ParseErrorView::UuidParseError),
        },
        (ModelNodeKey::Type, ScalarView::Text(s)) => match appliance_type_of(s) {
            Some(t) => Ok(ApplianceView { type_: t, ..a }),
            None => Err(ParseErrorView::UnexpectedEnumValue),
        },
        (ModelNodeKey::Image, ScalarView::Text(s)) => match copied_string(
            s,
            MAX_IMAGE_LEN as int,
            truncate,
        ) {
            Ok(t) => Ok(ApplianceView { image: t, ..a }),
            Err(e) => Err(e),
        },
        _ => Ok(a),
    }
}

/// Apply one scalar to an appliance record as `appliance_field_update`
/// says; on an error the record is left as it was.
pub fn apply_appliance_field(
    appliance: &mut Appliance,
    key: ModelNodeKey,
    value: &ScalarValue,
    options: &ParserOptions,
) -> (r: Result<(), ModelNodeParseError>)
    ensures
        match appliance_field_update(old(appliance)@, key, value@, options.spec_truncate()) {
            Ok(a2) => r is Ok && final(appliance)@ == a2,
            Err(e) => (r matches Err(e2) && e2@ == e) && final(appliance)@ == old(appliance)@,
        },
{
    match (key, value) {
        (ModelNodeKey::NickName, ScalarValue::Text(s)) => {
            appliance.nickname = copy_string_option(s.as_slice(), options)?;
            Ok(())
        },
        (ModelNodeKey::Id, ScalarValue::Text(s)) => {
            appliance.id = Uuid::parse(s.as_slice())?;
            Ok(())
        },
        (ModelNodeKey::Type, ScalarValue::Text(s)) => {
            match ApplianceType::try_from(s.as_slice()) {
                Ok(t) => {
                    appliance.type_ = t;
                    Ok(())
                },
                Err(_) => Err(ModelNodeParseError::UnexpectedEnumValue),
            }
        },
        (ModelNodeKey::Image, ScalarValue::Text(s)) => {
            appliance.image = copy_string_option(s.as_slice(), options)?;
            Ok(())
        },
        _ => Ok(()),
    }
}

/// How a scalar under the given key changes a model sub-record.
pub open spec fn model_field_update(
    m: ApplianceModelView,
    key: ModelNodeKey,
    v: ScalarView,
    truncate: bool,
) -> Result<ApplianceModelView, ParseErrorView> {
    match (key, v) {
        (ModelNodeKey::Name, ScalarView::Text(s)) => match copied_string(
            s,
            MAX_MODEL_NAME_LEN as int,
            truncate,
        ) {
            Ok(t) => Ok(ApplianceModelView { name: t, ..m }),
            Err(e) => Err(e),
        },
        (ModelNodeKey::Id, ScalarView::Text(s)) => match uuid_of(s) {
            Some(u) => Ok(ApplianceModelView { id: u, ..m }),
            None => Err(ParseErrorView::UuidParseError),
        },
        (ModelNodeKey::Country, ScalarView::Text(s)) => match copied_string(
            s,
            MAX_COUNTRY_LEN as int,
            truncate,
        ) {
            Ok(t) => Ok(ApplianceModelView { country: t, ..m }),
            Err(e) => Err(e),
        },
        (ModelNodeKey::Manufacturer, ScalarView::Text(s)) => match copied_string(
            s,
            MAX_MANUFACTURER_LEN as int,
            truncate,
        ) {
            Ok(t) => Ok(ApplianceModelView { manufacturer: t, ..m }),
            Err(e) => Err(e),
        },
        (ModelNodeKey::RemoteName, ScalarView::Text(s)) => match copied_string(
            s,
            MAX_REMOTE_NAME_LEN as int,
            truncate,
        ) {
            Ok(t) => Ok(ApplianceModelView { remote_name: t, ..m }),
            Err(e) => Err(e),
        },
        (ModelNodeKey::Series, ScalarView::Text(s)) => match copied_string(
            s,
            MAX_SERIES_LEN as int,
            truncate,
        ) {
            Ok(t) => Ok(ApplianceModelView { series: t, ..m }),
            Err(e) => Err(e),
        },
        (ModelNodeKey::Image, ScalarView::Text(s)) => match copied_string(
            s,
            MAX_IMAGE_LEN as int,
            truncate,
        ) {
            Ok(t) => Ok(ApplianceModelView { image: t, ..m }),
            Err(e) => Err(e),
        },
        _ => Ok(m),
    }
}

/// Apply one scalar to a model sub-record as `model_field_update` says;
/// on an error the sub-record is left as it was.
pub fn apply_model_field(
    model: &mut ApplianceModel,
    key: ModelNodeKey,
    value: &ScalarValue,
    options: &ParserOptions,
) -> (r: Result<(), ModelNodeParseError>)
    ensures
        match model_field_update(old(model)@, key, value@, options.spec_truncate()) {
            Ok(m2) => r is Ok && final(model)@ == m2,
            Err(e) => (r matches Err(e2) && e2@ == e) && final(model)@ == old(model)@,
        },
{
    match (key, value) {
        (ModelNodeKey::Name, ScalarValue::Text(s)) => {
            model.name = copy_string_option(s.as_slice(), options)?;
            Ok(())
        },
        (ModelNodeKey::Id, ScalarValue::Text(s)) => {
            model.id = Uuid::parse(s.as_slice())?;
            Ok(())
        },
        (ModelNodeKey::Country, ScalarValue::Text(s)) => {
            model.country = copy_string_option(s.as_slice(), options)?;
            Ok(())
        },
        (ModelNodeKey::Manufacturer, ScalarValue::Text(s)) => {
            model.manufacturer = copy_string_option(s.as_slice(), options)?;
            Ok(())
        },
        (ModelNodeKey::RemoteName, ScalarValue::Text(s)) => {
            model.remote_name = copy_string_option(s.as_slice(), options)?;
            Ok(())
        },
        (ModelNodeKey::Series, ScalarValue::Text(s)) => {
            model.series = copy_string_option(s.as_slice(), options)?;
            Ok(())
        },
        (ModelNodeKey::Image, ScalarValue::Text(s)) => {
            model.image = copy_string_option(s.as_slice(), options)?;
            Ok(())
        },
        _ => Ok(()),
    }
}

/// The numeric code a 32-bit signed number names, read as the unsigned
/// code the wire carries (two's complement for a negative value).
pub open spec fn epc_code_of(n: i32) -> u32 {
    if n >= 0 {
        n as u32
    } else {
        (n + 0x1_0000_0000) as u32
    }
}

/// Read a 32-bit signed number as the unsigned code the wire carries.
pub fn epc_code(n: i32) -> (r: u32)
    ensures
        r == epc_code_of(n),
{
    if n >= 0 {
        n as u32
    } else {
        ((n as i64) + 0x1_0000_0000) as u32
    }
}

/// How a scalar under the given key changes an echonet-lite property.
/// Only a number the tokenizer classified as a 32-bit signed integer
/// sets the code.
pub open spec fn echonet_field_update(
    p: EchonetLitePropertyView,
    key: ModelNodeKey,
    v: ScalarView,
    truncate: bool,
) -> Result<EchonetLitePropertyView, ParseErrorView> {
    match (key, v) {
        (ModelNodeKey::Name, ScalarView::Text(s)) => match copied_string(
            s,
            MAX_ECHONET_LITE_NAME_LEN as int,
            truncate,
        ) {
            Ok(t) => Ok(EchonetLitePropertyView { name: t, ..p }),
            Err(e) => Err(e),
        },
        (ModelNodeKey::Epc, ScalarView::Number(Number::I32(n))) => Ok(
            EchonetLitePropertyView { epc: epc_code_of(n), ..p },
        ),
        (ModelNodeKey::Val, ScalarView::Text(s)) => match copied_string(
            s,
            MAX_ECHONET_LITE_VALUE_LEN as int,
            truncate,
        ) {
            Ok(t) => Ok(EchonetLitePropertyView { val: t, ..p }),
            Err(e) => Err(e),
        },
        (ModelNodeKey::UpdatedAt, ScalarView::Text(s)) => match datetime_of(s) {
            Some(t) => Ok(EchonetLitePropertyView { updated_at: t, ..p }),
            None => Err(ParseErrorView::TimestampParseError),
        },
        _ => Ok(p),
    }
}

/// Apply one scalar to an echonet-lite property as
/// `echonet_field_update` says; on an error the property is left as it
/// was.
pub fn apply_echonet_field(
    property: &mut EchonetLiteProperty,
    key: ModelNodeKey,
    value: &ScalarValue,
    options: &ParserOptions,
) -> (r: Result<(), ModelNodeParseError>)
    ensures
        match echonet_field_update(old(property)@, key, value@, options.spec_truncate()) {
            Ok(p2) => r is Ok && final(property)@ == p2,
            Err(e) => (r matches Err(e2) && e2@ == e) && final(property)@ == old(property)@,
        },
{
    match (key, value) {
        (ModelNodeKey::Name, ScalarValue::Text(s)) => {
            property.name = copy_string_option(s.as_slice(), options)?;
            Ok(())
        },
        (ModelNodeKey::Epc, ScalarValue::Number(Number::I32(n))) => {
            property.epc = epc_code(*n);
            Ok(())
        },
        (ModelNodeKey::Val, ScalarValue::Text(s)) => {
            property.val = copy_string_option(s.as_slice(), options)?;
            Ok(())
        },
        (ModelNodeKey::UpdatedAt, ScalarValue::Text(s)) => {
            property.updated_at = Timestamp::parse(s.as_slice())?;
            Ok(())
        },
        _ => Ok(()),
    }
}


// ---------------------------------------------------------------------
// The appliance decoder
// ---------------------------------------------------------------------

/// The structural context of the appliance decoder.
#[derive(Clone, Copy, Debug, PartialEq, Eq, Structural)]
pub enum AppliancesParserState {
    Start,
    AppliancesArray,
    ApplianceMap,
    DeviceMap,
    ModelMap,
    SmartMeterMap,
    EchonetLitePropertiesArray,
    EchonetLitePropertyMap,
    UnknownMap,
    UnknownArray,
}

impl AppliancesParserState {
    /// Whether the context is one that an end-of-object event may close.
    pub open spec fn spec_is_map_state(self) -> bool {
        match self {
            AppliancesParserState::ApplianceMap => true,
            AppliancesParserState::DeviceMap => true,
            AppliancesParserState::ModelMap => true,
            AppliancesParserState::SmartMeterMap => true,
            AppliancesParserState::EchonetLitePropertyMap => true,
            AppliancesParserState::UnknownMap => true,
            _ => false,
        }
    }

    /// Whether the context is one that an end-of-object event may close.
    pub fn is_map_state(&self) -> (r: bool)
        ensures
            r == self.spec_is_map_state(),
    {
        match self {
            AppliancesParserState::ApplianceMap => true,
            AppliancesParserState::DeviceMap => true,
            AppliancesParserState::ModelMap => true,
            AppliancesParserState::SmartMeterMap => true,
            AppliancesParserState::EchonetLitePropertyMap => true,
            AppliancesParserState::UnknownMap => true,
            _ => false,
        }
    }

    /// Whether the context is one that an end-of-array event may close.
    pub open spec fn spec_is_array_state(self) -> bool {
        match self {
            AppliancesParserState::AppliancesArray => true,
            AppliancesParserState::EchonetLitePropertiesArray => true,
            AppliancesParserState::UnknownArray => true,
            _ => false,
        }
    }

    /// Whether the context is one that an end-of-array event may close.
    pub fn is_array_state(&self) -> (r: bool)
        ensures
            r == self.spec_is_array_state(),
    {
        match self {
            AppliancesParserState::AppliancesArray => true,
            AppliancesParserState::EchonetLitePropertiesArray => true,
            AppliancesParserState::UnknownArray => true,
            _ => false,
        }
    }

    /// Context name, for the diagnostic text of an error.
    pub open spec fn spec_name(self) -> Seq<u8> {
        match self {
            AppliancesParserState::Start => "Start".spec_bytes(),
            AppliancesParserState::AppliancesArray => "AppliancesArray".spec_bytes(),
            AppliancesParserState::ApplianceMap => "ApplianceMap".spec_bytes(),
            AppliancesParserState::DeviceMap => "DeviceMap".spec_bytes(),
            AppliancesParserState::ModelMap => "ModelMap".spec_bytes(),
            AppliancesParserState::SmartMeterMap => "SmartMeterMap".spec_bytes(),
            AppliancesParserState::EchonetLitePropertiesArray => "EchonetLitePropertiesArray".spec_bytes(),
            AppliancesParserState::EchonetLitePropertyMap => "EchonetLitePropertyMap".spec_bytes(),
            AppliancesParserState::UnknownMap => "UnknownMap".spec_bytes(),
            AppliancesParserState::UnknownArray => "UnknownArray".spec_bytes(),
        }
    }

    /// Context name, as bytes.
    pub fn name_bytes(&self) -> (r: &'static [u8])
        ensures
            r@ == self.spec_name(),
    {
        match self {
            AppliancesParserState::Start => "Start".as_bytes(),
            AppliancesParserState::AppliancesArray => "AppliancesArray".as_bytes(),
            AppliancesParserState::ApplianceMap => "ApplianceMap".as_bytes(),
            AppliancesParserState::DeviceMap => "DeviceMap".as_bytes(),
            AppliancesParserState::ModelMap => "ModelMap".as_bytes(),
            AppliancesParserState::SmartMeterMap => "SmartMeterMap".as_bytes(),
            AppliancesParserState::EchonetLitePropertiesArray => "EchonetLitePropertiesArray".as_bytes(),
            AppliancesParserState::EchonetLitePropertyMap => "EchonetLitePropertyMap".as_bytes(),
            AppliancesParserState::UnknownMap => "UnknownMap".as_bytes(),
            AppliancesParserState::UnknownArray => "UnknownArray".as_bytes(),
        }
    }
}

/// Mathematical image of the appliance decoder.
pub struct AppliancesParserView {
    pub state: AppliancesParserState,
    pub stack: Seq<AppliancesParserState>,
    pub appliance: ApplianceView,
    pub subnode: ApplianceSubNodeView,
    pub node_key: Option<ModelNodeKey>,
    pub truncate: bool,
}

/// The decoder before any event, under the given overflow policy.
pub open spec fn appliance_parser_init(truncate: bool) -> AppliancesParserView {
    AppliancesParserView {
        state: AppliancesParserState::Start,
        stack: Seq::empty(),
        appliance: appliance_default(),
        subnode: ApplianceSubNodeView::Device(device_default()),
        node_key: None,
        truncate,
    }
}

/// Routing of one scalar value in the appliance decoder: into a field of
/// the record or sub-record the context names, dropped where the pending
/// key or the scalar's kind does not fit, fatal outside any record
/// context. The pending key is consumed. `ev` is the whole event, for
/// the diagnostic text of an error.
pub open spec fn appliance_value_step(m: AppliancesParserView, ev: EventView, v: ScalarView) -> (
    AppliancesParserView,
    Result<Emit, ParseErrorView>,
) {
    match m.state {
        AppliancesParserState::ApplianceMap => match m.node_key {
            Some(k) => match appliance_field_update(m.appliance, k, v, m.truncate) {
                Ok(a2) => (
                    AppliancesParserView { appliance: a2, node_key: None, ..m },
                    Ok(Emit::Nothing),
                ),
                Err(e) => (m, Err(e)),
            },
            None => (m, Ok(Emit::Nothing)),
        },
        AppliancesParserState::DeviceMap => match m.subnode {
            ApplianceSubNodeView::Device(d) => match m.node_key {
                Some(k) => match device_field_update(d, k, v, m.truncate) {
                    Ok(d2) => (
                        AppliancesParserView {
                            subnode: ApplianceSubNodeView::Device(d2),
                            node_key: None,
                            ..m
                        },
                        Ok(Emit::Nothing),
                    ),
                    Err(e) => (m, Err(e)),
                },
                None => (m, Ok(Emit::Nothing)),
            },
            _ => (m, Err(ParseErrorView::UnexpectedParserState)),
        },
        AppliancesParserState::ModelMap => match m.subnode {
            ApplianceSubNodeView::Model(md) => match m.node_key {
                Some(k) => match model_field_update(md, k, v, m.truncate) {
                    Ok(m2) => (
                        AppliancesParserView {
                            subnode: ApplianceSubNodeView::Model(m2),
                            node_key: None,
                            ..m
                        },
                        Ok(Emit::Nothing),
                    ),
                    Err(e) => (m, Err(e)),
                },
                None => (m, Ok(Emit::Nothing)),
            },
            _ => (m, Err(ParseErrorView::UnexpectedParserState)),
        },
        AppliancesParserState::EchonetLitePropertyMap => match m.subnode {
            ApplianceSubNodeView::EchonetLiteProperty(p) => match m.node_key {
                Some(k) => match echonet_field_update(p, k, v, m.truncate) {
                    Ok(p2) => (
                        AppliancesParserView {
                            subnode: ApplianceSubNodeView::EchonetLiteProperty(p2),
                            node_key: None,
                            ..m
                        },
                        Ok(Emit::Nothing),
                    ),
                    Err(e) => (m, Err(e)),
                },
                None => (m, Ok(Emit::Nothing)),
            },
            _ => (m, Err(ParseErrorView::UnexpectedParserState)),
        },
        AppliancesParserState::UnknownMap => (
            AppliancesParserView { node_key: None, ..m },
            Ok(Emit::Nothing),
        ),
        AppliancesParserState::UnknownArray => (
            AppliancesParserView { node_key: None, ..m },
            Ok(Emit::Nothing),
        ),
        _ => (m, Err(ParseErrorView::UnexpectedNode(pair_description(m.state.spec_name(), ev)))),
    }
}

/// The transition of the appliance decoder on one event: the machine
/// after the event, and what it asks the driver to report, or the error
/// that aborts the decode. On an error the machine is left as it was.
pub open spec fn appliance_step(m: AppliancesParserView, ev: EventView) -> (
    AppliancesParserView,
    Result<Emit, ParseErrorView>,
) {
    match ev {
        EventView::StartArray => {
            if m.stack.len() >= MAX_NODE_DEPTH {
                (m, Err(ParseErrorView::NodeTooDeep))
            } else {
                let next = match (m.state, m.node_key) {
                    (AppliancesParserState::Start, _) => AppliancesParserState::AppliancesArray,
                    (
                        AppliancesParserState::SmartMeterMap,
                        Some(ModelNodeKey::EchonetLiteProperties),
                    ) => AppliancesParserState::EchonetLitePropertiesArray,
                    _ => AppliancesParserState::UnknownArray,
                };
                (
                    AppliancesParserView {
                        state: next,
                        stack: m.stack.push(m.state),
                        node_key: None,
                        ..m
                    },
                    Ok(Emit::Nothing),
                )
            }
        },
        EventView::StartMap => {
            if m.stack.len() >= MAX_NODE_DEPTH {
                (m, Err(ParseErrorView::NodeTooDeep))
            } else {
                match (m.state, m.node_key) {
                    (AppliancesParserState::AppliancesArray, _) => (
                        AppliancesParserView {
                            state: AppliancesParserState::ApplianceMap,
                            stack: m.stack.push(m.state),
                            node_key: None,
                            ..m
                        },
                        Ok(Emit::Nothing),
                    ),
                    (AppliancesParserState::ApplianceMap, Some(ModelNodeKey::Device)) => (
                        AppliancesParserView {
                            state: AppliancesParserState::DeviceMap,
                            stack: m.stack.push(m.state),
                            subnode: ApplianceSubNodeView::Device(device_default()),
                            node_key: None,
                            ..m
                        },
                        Ok(Emit::Nothing),
                    ),
                    (AppliancesParserState::ApplianceMap, Some(ModelNodeKey::Model)) => (
                        AppliancesParserView {
                            state: AppliancesParserState::ModelMap,
                            stack: m.stack.push(m.state),
                            subnode: ApplianceSubNodeView::Model(appliance_model_default()),
                            node_key: None,
                            ..m
                        },
                        Ok(Emit::Nothing),
                    ),
                    (AppliancesParserState::ApplianceMap, Some(ModelNodeKey::SmartMeter)) => (
                        AppliancesParserView {
                            state: AppliancesParserState::SmartMeterMap,
                            stack: m.stack.push(m.state),
                            node_key: None,
                            ..m
                        },
                        Ok(Emit::Nothing),
                    ),
                    (AppliancesParserState::EchonetLitePropertiesArray, _) => (
                        AppliancesParserView {
                            state: AppliancesParserState::EchonetLitePropertyMap,
                            stack: m.stack.push(m.state),
                            subnode: ApplianceSubNodeView::EchonetLiteProperty(
                                echonet_property_default(),
                            ),
                            node_key: None,
                            ..m
                        },
                        Ok(Emit::Nothing),
                    ),
                    (_, _) => (
                        AppliancesParserView {
                            state: AppliancesParserState::UnknownMap,
                            stack: m.stack.push(m.state),
                            node_key: None,
                            ..m
                        },
                        Ok(Emit::Nothing),
                    ),
                }
            }
        },
        EventView::EndArray => {
            if !m.state.spec_is_array_state() || m.stack.len() == 0 {
                (m, Err(ParseErrorView::UnexpectedMapArrayEnd))
            } else {
                (
                    AppliancesParserView {
                        state: m.stack.last(),
                        stack: m.stack.drop_last(),
                        ..m
                    },
                    Ok(Emit::Nothing),
                )
            }
        },
        EventView::EndMap => {
            if !m.state.spec_is_map_state() || m.stack.len() == 0 {
                (m, Err(ParseErrorView::UnexpectedMapArrayEnd))
            } else {
                let emit = match m.state {
                    AppliancesParserState::ApplianceMap => Emit::Record,
                    AppliancesParserState::DeviceMap => Emit::RecordAndSubNode,
                    AppliancesParserState::ModelMap => Emit::RecordAndSubNode,
                    AppliancesParserState::EchonetLitePropertyMap => Emit::RecordAndSubNode,
                    _ => Emit::Nothing,
                };
                (
                    AppliancesParserView {
                        state: m.stack.last(),
                        stack: m.stack.drop_last(),
                        ..m
                    },
                    Ok(emit),
                )
            }
        },
        EventView::Key(s) => match s {
            ScalarView::Text(t) => (
                AppliancesParserView { node_key: key_of(t), ..m },
                Ok(Emit::Nothing),
            ),
            _ => (m, Ok(Emit::Nothing)),
        },
        EventView::Value(v) => appliance_value_step(m, ev, v),
    }
}

/// The event-driven decoder of an appliances document: a bounded context
/// stack, the record and sub-record being filled, and the pending key.
#[derive(Debug)]
pub struct AppliancesParser {
    pub state: AppliancesParserState,
    pub state_stack: Vec<AppliancesParserState>,
    pub appliance: Appliance,
    pub subnode: ApplianceSubNode,
    pub node_key: Option<ModelNodeKey>,
    pub truncate_too_long_string: bool,
}

impl View for AppliancesParser {
    type V = AppliancesParserView;

    open spec fn view(&self) -> AppliancesParserView {
        AppliancesParserView {
            state: self.state,
            stack: self.state_stack@,
            appliance: self.appliance@,
            subnode: self.subnode@,
            node_key: self.node_key,
            truncate: self.truncate_too_long_string,
        }
    }
}

impl AppliancesParser {
    /// A decoder before any event, under the given overflow policy.
    pub fn new(options: &ParserOptions) -> (r: Self)
        ensures
            r@ == appliance_parser_init(options.spec_truncate()),
    {
        AppliancesParser {
            state: AppliancesParserState::Start,
            state_stack: Vec::new(),
            appliance: Appliance::default(),
            subnode: ApplianceSubNode::Device(Device::default()),
            node_key: None,
            truncate_too_long_string: options.truncates(),
        }
    }

    /// Route one scalar value, as `appliance_value_step` says.
    fn feed_value(&mut self, event: &JsonEvent, value: &ScalarValue) -> (r: Result<
        Emit,
        ModelNodeParseError,
    >)
        requires
            event@ matches EventView::Value(v) && v == value@,
        ensures
            ({
                let (m2, r2) = appliance_value_step(old(self)@, event@, value@);
                final(self)@ == m2 && step_result_view(r) == r2
            }),
    {
        match self.state {
            AppliancesParserState::ApplianceMap => match self.node_key {
                Some(k) => {
                    let opts = ParserOptions::new(self.truncate_too_long_string);
                    match apply_appliance_field(&mut self.appliance, k, value, &opts) {
                        Ok(()) => {
                            self.node_key = None;
                            Ok(Emit::Nothing)
                        },
                        Err(e) => Err(e),
                    }
                },
                None => Ok(Emit::Nothing),
            },
            AppliancesParserState::DeviceMap => {
                let sub = self.subnode.clone();
                match sub {
                    ApplianceSubNode::Device(mut d) => match self.node_key {
                        Some(k) => {
                            let opts = ParserOptions::new(self.truncate_too_long_string);
                            match apply_device_field(&mut d, k, value, &opts) {
                                Ok(()) => {
                                    self.subnode = ApplianceSubNode::Device(d);
                                    self.node_key = None;
                                    Ok(Emit::Nothing)
                                },
                                Err(e) => Err(e),
                            }
                        },
                        None => Ok(Emit::Nothing),
                    },
                    _ => Err(ModelNodeParseError::UnexpectedParserState),
                }
            },
            AppliancesParserState::ModelMap => {
                let sub = self.subnode.clone();
                match sub {
                    ApplianceSubNode::Model(mut md) => match self.node_key {
                        Some(k) => {
                            let opts = ParserOptions::new(self.truncate_too_long_string);
                            match apply_model_field(&mut md, k, value, &opts) {
                                Ok(()) => {
                                    self.subnode = ApplianceSubNode::Model(md);
                                    self.node_key = None;
                                    Ok(Emit::Nothing)
                                },
                                Err(e) => Err(e),
                            }
                        },
                        None => Ok(Emit::Nothing),
                    },
                    _ => Err(ModelNodeParseError::UnexpectedParserState),
                }
            },
            AppliancesParserState::EchonetLitePropertyMap => {
                let sub = self.subnode.clone();
                match sub {
                    ApplianceSubNode::EchonetLiteProperty(mut p) => match self.node_key {
                        Some(k) => {
                            let opts = ParserOptions::new(self.truncate_too_long_string);
                            match apply_echonet_field(&mut p, k, value, &opts) {
                                Ok(()) => {
                                    self.subnode = ApplianceSubNode::EchonetLiteProperty(p);
                                    self.node_key = None;
                                    Ok(Emit::Nothing)
                                },
                                Err(e) => Err(e),
                            }
                        },
                        None => Ok(Emit::Nothing),
                    },
                    _ => Err(ModelNodeParseError::UnexpectedParserState),
                }
            },
            AppliancesParserState::UnknownMap => {
                self.node_key = None;
                Ok(Emit::Nothing)
            },
            AppliancesParserState::UnknownArray => {
                self.node_key = None;
                Ok(Emit::Nothing)
            },
            _ => Err(
                ModelNodeParseError::UnexpectedNode(describe_pair(self.state.name_bytes(), event)),
            ),
        }
    }

    /// Consume one structural event, as `appliance_step` says: the
    /// context stack and records are updated, and the result asks the
    /// driver to report a completed record, a record with its
    /// just-completed sub-record, or nothing. On an error the decoder is
    /// left as it was and the decode must be aborted.
    pub fn feed(&mut self, event: &JsonEvent) -> (r: Result<Emit, ModelNodeParseError>)
        ensures
            ({
                let (m2, r2) = appliance_step(old(self)@, event@);
                final(self)@ == m2 && step_result_view(r) == r2
            }),
    {
        match event {
            JsonEvent::StartArray => {
                if self.state_stack.len() >= MAX_NODE_DEPTH {
                    return Err(ModelNodeParseError::NodeTooDeep);
                }
                let next = match (self.state, self.node_key) {
                    (AppliancesParserState::Start, _) => AppliancesParserState::AppliancesArray,
                    (
                        AppliancesParserState::SmartMeterMap,
                        Some(ModelNodeKey::EchonetLiteProperties),
                    ) => AppliancesParserState::EchonetLitePropertiesArray,
                    _ => AppliancesParserState::UnknownArray,
                };
                self.state_stack.push(self.state);
                self.state = next;
                self.node_key = None;
                Ok(Emit::Nothing)
            },
            JsonEvent::StartMap => {
                if self.state_stack.len() >= MAX_NODE_DEPTH {
                    return Err(ModelNodeParseError::NodeTooDeep);
                }
                match (self.state, self.node_key) {
                    (AppliancesParserState::AppliancesArray, _) => {
                        self.state_stack.push(self.state);
                        self.state = AppliancesParserState::ApplianceMap;
                        self.node_key = None;
                        Ok(Emit::Nothing)
                    },
                    (AppliancesParserState::ApplianceMap, Some(ModelNodeKey::Device)) => {
                        self.subnode = ApplianceSubNode::Device(Device::default());
                        self.state_stack.push(self.state);
                        self.state = AppliancesParserState::DeviceMap;
                        self.node_key = None;
                        Ok(Emit::Nothing)
                    },
                    (AppliancesParserState::ApplianceMap, Some(ModelNodeKey::Model)) => {
                        self.subnode = ApplianceSubNode::Model(ApplianceModel::default());
                        self.state_stack.push(self.state);
                        self.state = AppliancesParserState::ModelMap;
                        self.node_key = None;
                        Ok(Emit::Nothing)
                    },
                    (AppliancesParserState::ApplianceMap, Some(ModelNodeKey::SmartMeter)) => {
                        self.state_stack.push(self.state);
                        self.state = AppliancesParserState::SmartMeterMap;
                        self.node_key = None;
                        Ok(Emit::Nothing)
                    },
                    (AppliancesParserState::EchonetLitePropertiesArray, _) => {
                        self.subnode = ApplianceSubNode::EchonetLiteProperty(
                            EchonetLiteProperty::default(),
                        );
                        self.state_stack.push(self.state);
                        self.state = AppliancesParserState::EchonetLitePropertyMap;
                        self.node_key = None;
                        Ok(Emit::Nothing)
                    },
                    (_, _) => {
                        self.state_stack.push(self.state);
                        self.state = AppliancesParserState::UnknownMap;
                        self.node_key = None;
                        Ok(Emit::Nothing)
                    },
                }
            },
            JsonEvent::EndArray => {
                if !self.state.is_array_state() {
                    return Err(ModelNodeParseError::UnexpectedMapArrayEnd);
                }
                match self.state_stack.pop() {
                    Some(prev) => {
                        self.state = prev;
                        proof {
                            assert(self.state_stack@ =~= old(self)@.stack.drop_last());
                        }
                        Ok(Emit::Nothing)
                    },
                    None => Err(ModelNodeParseError::UnexpectedMapArrayEnd),
                }
            },
            JsonEvent::EndMap => {
                if !self.state.is_map_state() {
                    return Err(ModelNodeParseError::UnexpectedMapArrayEnd);
                }
                let emit = match self.state {
                    AppliancesParserState::ApplianceMap => Emit::Record,
                    AppliancesParserState::DeviceMap => Emit::RecordAndSubNode,
                    AppliancesParserState::ModelMap => Emit::RecordAndSubNode,
                    AppliancesParserState::EchonetLitePropertyMap => Emit::RecordAndSubNode,
                    _ => Emit::Nothing,
                };
                match self.state_stack.pop() {
                    Some(prev) => {
                        self.state = prev;
                        proof {
                            assert(self.state_stack@ =~= old(self)@.stack.drop_last());
                        }
                        Ok(emit)
                    },
                    None => Err(ModelNodeParseError::UnexpectedMapArrayEnd),
                }
            },
            JsonEvent::Key(s) => match s {
                ScalarValue::Text(t) => {
                    self.node_key = match ModelNodeKey::try_from(t.as_slice()) {
                        Ok(k) => Some(k),
                        Err(_) => None,
                    };
                    Ok(Emit::Nothing)
                },
                _ => Ok(Emit::Nothing),
            },
            JsonEvent::Value(v) => self.feed_value(event, v),
        }
    }
}


// ---------------------------------------------------------------------
// Laws of the appliance decoder
// ---------------------------------------------------------------------

/// The decoder run over a sequence of events: the machine at the end,
/// the emissions it requested (in document order, `Nothing` dropped),
/// and the error that stopped it, if one did. After an error nothing
/// further is consumed and no further emission is requested.
pub open spec fn appliance_run(m: AppliancesParserView, evs: Seq<EventView>) -> (
    AppliancesParserView,
    Seq<Emit>,
    Option<ParseErrorView>,
)
    decreases evs.len(),
{
    if evs.len() == 0 {
        (m, Seq::empty(), None)
    } else {
        let (m1, r1) = appliance_step(m, evs[0]);
        match r1 {
            Ok(e) => {
                let (m2, es, err) = appliance_run(m1, evs.drop_first());
                (m2, if e is Nothing { es } else { seq![e] + es }, err)
            },
            Err(e) => (m, Seq::empty(), Some(e)),
        }
    }
}

/// For an empty top-level array the decoder requests no emission (the
/// callback is never invoked) and succeeds, back in its start context
/// with the records still at their defaults.
pub proof fn lemma_appliance_empty_document(truncate: bool)
    ensures
        ({
            let (m, emits, err) = appliance_run(
                appliance_parser_init(truncate),
                seq![EventView::StartArray, EventView::EndArray],
            );
            emits == Seq::<Emit>::empty() && err is None && m == appliance_parser_init(truncate)
        }),
{
    let m0 = appliance_parser_init(truncate);
    let evs = seq![EventView::StartArray, EventView::EndArray];
    let (m1, r1) = appliance_step(m0, evs[0]);
    assert(m1.stack =~= m0.stack.push(AppliancesParserState::Start));
    let rest = evs.drop_first();
    assert(rest =~= seq![EventView::EndArray]);
    let (m2, r2) = appliance_step(m1, rest[0]);
    assert(m2.stack =~= m0.stack);
    assert(m2 == m0);
    let rest2 = rest.drop_first();
    assert(rest2 =~= Seq::<EventView>::empty());
    let (m3, es3, err3) = appliance_run(m2, rest2);
    let (mr, es, err) = appliance_run(m1, rest);
    assert(es =~= Seq::<Emit>::empty());
    let (mf, esf, errf) = appliance_run(m0, evs);
    assert(esf =~= Seq::<Emit>::empty());
}

/// Opening another container when the context stack is full fails with
/// `NodeTooDeep`, requests no emission, and leaves the decoder as it
/// was: the error fires before any further callback could.
pub proof fn lemma_appliance_node_too_deep(m: AppliancesParserView, ev: EventView)
    requires
        m.stack.len() >= MAX_NODE_DEPTH,
        ev == EventView::StartMap || ev == EventView::StartArray,
    ensures
        appliance_step(m, ev) == (m, Err::<Emit, ParseErrorView>(ParseErrorView::NodeTooDeep)),
{
}

/// A category tag outside the known set under the `type` key is the
/// fatal `UnexpectedEnumValue`: nothing is emitted and the decoder is
/// left as it was.
pub proof fn lemma_appliance_unknown_type_rejected(
    m: AppliancesParserView,
    ev: EventView,
    s: Seq<u8>,
)
    requires
        m.state == AppliancesParserState::ApplianceMap,
        m.node_key == Some(ModelNodeKey::Type),
        ev == EventView::Value(ScalarView::Text(s)),
        appliance_type_of(s) is None,
    ensures
        appliance_step(m, ev) == (
            m,
            Err::<Emit, ParseErrorView>(ParseErrorView::UnexpectedEnumValue),
        ),
{
}

/// A decoder inside an unrecognized subtree of an appliances document:
/// `k` containers of the subtree are open (its root included); the
/// records, the policy, and everything at or below the context the
/// subtree was entered from are those of `m0`.
pub open spec fn appliance_unknown_excursion(
    m: AppliancesParserView,
    m0: AppliancesParserView,
    k: int,
) -> bool {
    &&& k >= 1
    &&& (m.state == AppliancesParserState::UnknownMap || m.state
        == AppliancesParserState::UnknownArray)
    &&& m.stack.len() == m0.stack.len() + k
    &&& m.stack.subrange(0, m0.stack.len() as int) == m0.stack
    &&& m.stack[m0.stack.len() as int] == m0.state
    &&& (forall|i: int|
        m0.stack.len() < i < m.stack.len() ==> (m.stack[i] == AppliancesParserState::UnknownMap
            || m.stack[i] == AppliancesParserState::UnknownArray))
    &&& m.appliance == m0.appliance
    &&& m.subnode == m0.subnode
    &&& m.truncate == m0.truncate
}

/// Opening an unrecognized object or array inside an appliance record
/// enters an unrecognized subtree, with nothing emitted and the records
/// untouched.
pub proof fn lemma_appliance_unknown_subtree_entered(m: AppliancesParserView, ev: EventView)
    requires
        m.stack.len() < MAX_NODE_DEPTH,
        m.state == AppliancesParserState::ApplianceMap,
        (ev == EventView::StartMap && m.node_key != Some(ModelNodeKey::Device) && m.node_key
            != Some(ModelNodeKey::Model) && m.node_key != Some(ModelNodeKey::SmartMeter)) || ev
            == EventView::StartArray,
    ensures
        ({
            let (m2, r) = appliance_step(m, ev);
            r == Ok::<Emit, ParseErrorView>(Emit::Nothing) && appliance_unknown_excursion(m2, m, 1)
        }),
{
    let (m2, r) = appliance_step(m, ev);
    assert(m2.stack.subrange(0, m.stack.len() as int) =~= m.stack);
}

/// An unrecognized subtree of any shape is fully skipped. While inside
/// one: no event requests an emission; keys and scalars are consumed
/// without touching the records; an open deepens the excursion (or
/// fails with `NodeTooDeep` at the depth bound, the decoder unchanged);
/// the matching close of an inner container stays inside; and the
/// matching close of the subtree's root returns to the context the
/// subtree was entered from with the record and sub-record exactly as
/// they were, so the following sibling fields decode as if the subtree
/// had not been there. A close of the wrong container kind is the fatal
/// `UnexpectedMapArrayEnd`, the decoder unchanged.
pub proof fn lemma_appliance_unknown_subtree_skipped(
    m: AppliancesParserView,
    m0: AppliancesParserView,
    k: int,
    ev: EventView,
)
    requires
        appliance_unknown_excursion(m, m0, k),
    ensures
        ({
            let (m2, r) = appliance_step(m, ev);
            match r {
                Ok(e) => e == Emit::Nothing && (match ev {
                    EventView::StartMap => appliance_unknown_excursion(m2, m0, k + 1),
                    EventView::StartArray => appliance_unknown_excursion(m2, m0, k + 1),
                    EventView::EndMap => (k > 1 && appliance_unknown_excursion(m2, m0, k - 1)) || (
                    k == 1 && m2 == AppliancesParserView { node_key: m.node_key, ..m0 }),
                    EventView::EndArray => (k > 1 && appliance_unknown_excursion(m2, m0, k - 1))
                        || (k == 1 && m2 == AppliancesParserView { node_key: m.node_key, ..m0 }),
                    _ => appliance_unknown_excursion(m2, m0, k),
                }),
                Err(e) => m2 == m && (e == ParseErrorView::NodeTooDeep
                    || e == ParseErrorView::UnexpectedMapArrayEnd),
            }
        }),
{
    let (m2, r) = appliance_step(m, ev);
    match ev {
        EventView::StartMap => {
            if m.stack.len() < MAX_NODE_DEPTH {
                assert(m2.stack.subrange(0, m0.stack.len() as int) =~= m0.stack);
            }
        },
        EventView::StartArray => {
            if m.stack.len() < MAX_NODE_DEPTH {
                assert(m2.stack.subrange(0, m0.stack.len() as int) =~= m0.stack);
            }
        },
        EventView::EndMap => {
            if m.state == AppliancesParserState::UnknownMap {
                if k > 1 {
                    assert(m2.stack =~= m.stack.drop_last());
                    assert(m2.stack.subrange(0, m0.stack.len() as int) =~= m0.stack);
                } else {
                    assert(m.stack.drop_last() =~= m0.stack);
                }
            }
        },
        EventView::EndArray => {
            if m.state == AppliancesParserState::UnknownArray {
                if k > 1 {
                    assert(m2.stack =~= m.stack.drop_last());
                    assert(m2.stack.subrange(0, m0.stack.len() as int) =~= m0.stack);
                } else {
                    assert(m.stack.drop_last() =~= m0.stack);
                }
            }
        },
        _ => {},
    }
}


/// The emission protocol: a callback is requested at most once per
/// event, only by a close-of-object event, and exactly as the closing
/// context says: the appliance record alone when the record's own map
/// closes; the record with its sub-record when an embedded device, an
/// embedded model or an echonet-lite property closes; nothing for any
/// other closing (the smart-meter wrapper map and unknown subtrees
/// among them).
pub proof fn lemma_appliance_emission_protocol(m: AppliancesParserView, ev: EventView)
    ensures
        ({
            let (m2, r) = appliance_step(m, ev);
            match r {
                Ok(e) => {
                    &&& (e == Emit::Record <==> ev == EventView::EndMap && m.state
                        == AppliancesParserState::ApplianceMap && m.stack.len() > 0)
                    &&& (e == Emit::RecordAndSubNode <==> ev == EventView::EndMap && (m.state
                        == AppliancesParserState::DeviceMap || m.state
                        == AppliancesParserState::ModelMap || m.state
                        == AppliancesParserState::EchonetLitePropertyMap) && m.stack.len() > 0)
                },
                Err(_) => m2 == m,
            }
        }),
{
}

/// A decoder inside an unrecognized subtree, with the kinds of the
/// subtree's open containers written out: `true` for an object, `false`
/// for an array, innermost last. The innermost kind is the current
/// context; the outer ones sit on the stack above the context the
/// subtree was entered from, which everything of `m0` still holds.
pub open spec fn appliance_excursion_matches(
    m: AppliancesParserView,
    m0: AppliancesParserView,
    kinds: Seq<bool>,
) -> bool {
    &&& kinds.len() >= 1
    &&& m.state == (if kinds.last() {
        AppliancesParserState::UnknownMap
    } else {
        AppliancesParserState::UnknownArray
    })
    &&& m.stack.len() == m0.stack.len() + kinds.len()
    &&& m.stack.subrange(0, m0.stack.len() as int) == m0.stack
    &&& m.stack[m0.stack.len() as int] == m0.state
    &&& (forall|i: int|
        0 <= i < kinds.len() - 1 ==> m.stack[m0.stack.len() + 1 + i] == (if kinds[i] {
            AppliancesParserState::UnknownMap
        } else {
            AppliancesParserState::UnknownArray
        }))
    &&& m.appliance == m0.appliance
    &&& m.subnode == m0.subnode
    &&& m.truncate == m0.truncate
}

proof fn lemma_appliance_excursion_step_open(
    m: AppliancesParserView,
    m0: AppliancesParserView,
    kinds: Seq<bool>,
    ev: EventView,
)
    requires
        appliance_excursion_matches(m, m0, kinds),
        m.stack.len() < MAX_NODE_DEPTH,
        ev == EventView::StartMap || ev == EventView::StartArray,
    ensures
        ({
            let (m1, r1) = appliance_step(m, ev);
            r1 == Ok::<Emit, ParseErrorView>(Emit::Nothing) && appliance_excursion_matches(
                m1,
                m0,
                kinds.push(ev == EventView::StartMap),
            )
        }),
{
    let (m1, r1) = appliance_step(m, ev);
    let kinds2 = kinds.push(ev == EventView::StartMap);
    assert(m1.stack.subrange(0, m0.stack.len() as int) =~= m0.stack);
    assert(m1.stack[m0.stack.len() + 1 + (kinds2.len() - 2)] == m.state);
}

proof fn lemma_appliance_excursion_step_close_inner(
    m: AppliancesParserView,
    m0: AppliancesParserView,
    kinds: Seq<bool>,
    ev: EventView,
)
    requires
        appliance_excursion_matches(m, m0, kinds),
        kinds.len() > 1,
        (ev == EventView::EndMap && kinds.last()) || (ev == EventView::EndArray
            && !kinds.last()),
    ensures
        ({
            let (m1, r1) = appliance_step(m, ev);
            r1 == Ok::<Emit, ParseErrorView>(Emit::Nothing) && appliance_excursion_matches(
                m1,
                m0,
                kinds.drop_last(),
            )
        }),
{
    let (m1, r1) = appliance_step(m, ev);
    let kinds2 = kinds.drop_last();
    assert(m1.stack =~= m.stack.drop_last());
    assert(m1.stack.subrange(0, m0.stack.len() as int) =~= m0.stack);
    assert(m1.state == m.stack[m0.stack.len() + 1 + (kinds2.len() - 1)]);
}

proof fn lemma_appliance_excursion_step_close_root(
    m: AppliancesParserView,
    m0: AppliancesParserView,
    kinds: Seq<bool>,
    ev: EventView,
)
    requires
        appliance_excursion_matches(m, m0, kinds),
        kinds.len() == 1,
        (ev == EventView::EndMap && kinds.last()) || (ev == EventView::EndArray
            && !kinds.last()),
    ensures
        ({
            let (m1, r1) = appliance_step(m, ev);
            r1 == Ok::<Emit, ParseErrorView>(Emit::Nothing) && m1 == AppliancesParserView {
                node_key: m.node_key,
                ..m0
            }
        }),
{
    let (m1, r1) = appliance_step(m, ev);
    assert(m1.stack =~= m.stack.drop_last());
    assert(m.stack.drop_last() =~= m0.stack);
}

proof fn lemma_appliance_excursion_step_scalar(
    m: AppliancesParserView,
    m0: AppliancesParserView,
    kinds: Seq<bool>,
    ev: EventView,
)
    requires
        appliance_excursion_matches(m, m0, kinds),
        ev matches EventView::Key(_) || ev matches EventView::Value(_),
    ensures
        ({
            let (m1, r1) = appliance_step(m, ev);
            r1 == Ok::<Emit, ParseErrorView>(Emit::Nothing) && appliance_excursion_matches(
                m1,
                m0,
                kinds,
            )
        }),
{
}

/// An unrecognized subtree of any shape, nested below the depth limit,
/// is fully skipped: running the decoder over any event sequence that
/// stays inside the subtree's open containers and finally closes them
/// requests no emission, reports no error, and ends with the context,
/// the stack, the record and the sub-record exactly as they were when
/// the subtree was entered, so the following sibling fields decode as
/// if the subtree had not been there.
#[verifier::rlimit(100)]
#[verifier::spinoff_prover]
pub proof fn lemma_appliance_subtree_run_skipped(
    m: AppliancesParserView,
    m0: AppliancesParserView,
    kinds: Seq<bool>,
    evs: Seq<EventView>,
)
    requires
        appliance_excursion_matches(m, m0, kinds),
        subtree_events(evs, kinds, MAX_NODE_DEPTH - m0.stack.len()),
    ensures
        ({
            let (m2, emits, err) = appliance_run(m, evs);
            &&& err is None
            &&& emits == Seq::<Emit>::empty()
            &&& m2.state == m0.state
            &&& m2.stack == m0.stack
            &&& m2.appliance == m0.appliance
            &&& m2.subnode == m0.subnode
            &&& m2.truncate == m0.truncate
        }),
    decreases evs.len(),
{
    let rest = evs.drop_first();
    let (m1, r1) = appliance_step(m, evs[0]);
    match evs[0] {
        EventView::StartMap => {
            lemma_appliance_excursion_step_open(m, m0, kinds, evs[0]);
            lemma_appliance_subtree_run_skipped(m1, m0, kinds.push(true), rest);
            assert(appliance_run(m, evs) == appliance_run(m1, rest));
        },
        EventView::StartArray => {
            lemma_appliance_excursion_step_open(m, m0, kinds, evs[0]);
            lemma_appliance_subtree_run_skipped(m1, m0, kinds.push(false), rest);
            assert(appliance_run(m, evs) == appliance_run(m1, rest));
        },
        EventView::EndMap => {
            if kinds.len() > 1 {
                lemma_appliance_excursion_step_close_inner(m, m0, kinds, evs[0]);
                lemma_appliance_subtree_run_skipped(m1, m0, kinds.drop_last(), rest);
                assert(appliance_run(m, evs) == appliance_run(m1, rest));
            } else {
                lemma_appliance_excursion_step_close_root(m, m0, kinds, evs[0]);
                assert(subtree_events(rest, kinds.drop_last(), MAX_NODE_DEPTH - m0.stack.len()));
                assert(rest.len() == 0);
                assert(appliance_run(m1, rest) == (
                    m1,
                    Seq::<Emit>::empty(),
                    None::<ParseErrorView>,
                ));
                assert(appliance_run(m, evs) == appliance_run(m1, rest));
            }
        },
        EventView::EndArray => {
            if kinds.len() > 1 {
                lemma_appliance_excursion_step_close_inner(m, m0, kinds, evs[0]);
                lemma_appliance_subtree_run_skipped(m1, m0, kinds.drop_last(), rest);
                assert(appliance_run(m, evs) == appliance_run(m1, rest));
            } else {
                lemma_appliance_excursion_step_close_root(m, m0, kinds, evs[0]);
                assert(subtree_events(rest, kinds.drop_last(), MAX_NODE_DEPTH - m0.stack.len()));
                assert(rest.len() == 0);
                assert(appliance_run(m1, rest) == (
                    m1,
                    Seq::<Emit>::empty(),
                    None::<ParseErrorView>,
                ));
                assert(appliance_run(m, evs) == appliance_run(m1, rest));
            }
        },
        EventView::Key(_) => {
            lemma_appliance_excursion_step_scalar(m, m0, kinds, evs[0]);
            lemma_appliance_subtree_run_skipped(m1, m0, kinds, rest);
            assert(appliance_run(m, evs) == appliance_run(m1, rest));
        },
        EventView::Value(_) => {
            lemma_appliance_excursion_step_scalar(m, m0, kinds, evs[0]);
            lemma_appliance_subtree_run_skipped(m1, m0, kinds, rest);
            assert(appliance_run(m, evs) == appliance_run(m1, rest));
        },
    }
}

/// Opening an unrecognized object or array inside an appliance record
/// and then feeding any event sequence that stays inside it and finally
/// closes it: no emission is requested, no error is reported, and the
/// decoder ends back in the appliance record context with the record
/// and sub-record untouched.
pub proof fn lemma_appliance_unknown_container_skipped(
    m0: AppliancesParserView,
    open_ev: EventView,
    body: Seq<EventView>,
)
    requires
        m0.stack.len() < MAX_NODE_DEPTH,
        m0.state == AppliancesParserState::ApplianceMap,
        (open_ev == EventView::StartMap && m0.node_key != Some(ModelNodeKey::Device)
            && m0.node_key != Some(ModelNodeKey::Model) && m0.node_key != Some(
            ModelNodeKey::SmartMeter,
        )) || open_ev == EventView::StartArray,
        subtree_events(
            body,
            seq![open_ev == EventView::StartMap],
            MAX_NODE_DEPTH - m0.stack.len(),
        ),
    ensures
        ({
            let (m2, emits, err) = appliance_run(m0, seq![open_ev] + body);
            &&& err is None
            &&& emits == Seq::<Emit>::empty()
            &&& m2.state == m0.state
            &&& m2.stack == m0.stack
            &&& m2.appliance == m0.appliance
            &&& m2.subnode == m0.subnode
            &&& m2.truncate == m0.truncate
        }),
{
    let evs = seq![open_ev] + body;
    assert(evs[0] == open_ev);
    let (m1, r1) = appliance_step(m0, evs[0]);
    lemma_appliance_unknown_subtree_entered(m0, open_ev);
    let kinds = seq![open_ev == EventView::StartMap];
    assert(appliance_excursion_matches(m1, m0, kinds)) by {
        assert(m1.stack.subrange(0, m0.stack.len() as int) =~= m0.stack);
    }
    assert(evs.drop_first() =~= body);
    lemma_appliance_subtree_run_skipped(m1, m0, kinds, body);
}


/// A context of an unrecognized subtree.
pub open spec fn appliance_is_unknown_state(s: AppliancesParserState) -> bool {
    s == AppliancesParserState::UnknownMap || s == AppliancesParserState::UnknownArray
}

/// Every entry of `c` from index `k` on belongs to an unrecognized
/// subtree.
pub open spec fn appliance_unknown_from(c: Seq<AppliancesParserState>, k: int) -> bool {
    forall|i: int| k <= i < c.len() ==> appliance_is_unknown_state(#[trigger] c[i])
}

/// The reachable configurations of the appliance decoder. The context
/// chain (the stack with the current context on top) is one of the
/// schema's nesting chains, possibly continued by an unrecognized
/// subtree; and wherever the chain reaches a sub-record context, the
/// active sub-record slot holds the matching discriminant.
pub open spec fn appliance_decoder_inv(m: AppliancesParserView) -> bool {
    let c = m.stack.push(m.state);
    ||| (c[0] == AppliancesParserState::Start && appliance_unknown_from(c, 1))
    ||| (c.len() >= 2 && c[0] == AppliancesParserState::Start && c[1]
        == AppliancesParserState::AppliancesArray && appliance_unknown_from(c, 2))
    ||| (c.len() >= 3 && c[0] == AppliancesParserState::Start && c[1]
        == AppliancesParserState::AppliancesArray && c[2] == AppliancesParserState::ApplianceMap
        && appliance_unknown_from(c, 3))
    ||| (c.len() >= 4 && c[0] == AppliancesParserState::Start && c[1]
        == AppliancesParserState::AppliancesArray && c[2] == AppliancesParserState::ApplianceMap
        && c[3] == AppliancesParserState::DeviceMap && (m.subnode
        matches ApplianceSubNodeView::Device(_)) && appliance_unknown_from(c, 4))
    ||| (c.len() >= 4 && c[0] == AppliancesParserState::Start && c[1]
        == AppliancesParserState::AppliancesArray && c[2] == AppliancesParserState::ApplianceMap
        && c[3] == AppliancesParserState::ModelMap && (m.subnode
        matches ApplianceSubNodeView::Model(_)) && appliance_unknown_from(c, 4))
    ||| (c.len() >= 4 && c[0] == AppliancesParserState::Start && c[1]
        == AppliancesParserState::AppliancesArray && c[2] == AppliancesParserState::ApplianceMap
        && c[3] == AppliancesParserState::SmartMeterMap && appliance_unknown_from(c, 4))
    ||| (c.len() >= 5 && c[0] == AppliancesParserState::Start && c[1]
        == AppliancesParserState::AppliancesArray && c[2] == AppliancesParserState::ApplianceMap
        && c[3] == AppliancesParserState::SmartMeterMap && c[4]
        == AppliancesParserState::EchonetLitePropertiesArray && appliance_unknown_from(c, 5))
    ||| (c.len() >= 6 && c[0] == AppliancesParserState::Start && c[1]
        == AppliancesParserState::AppliancesArray && c[2] == AppliancesParserState::ApplianceMap
        && c[3] == AppliancesParserState::SmartMeterMap && c[4]
        == AppliancesParserState::EchonetLitePropertiesArray && c[5]
        == AppliancesParserState::EchonetLitePropertyMap && (m.subnode
        matches ApplianceSubNodeView::EchonetLiteProperty(_)) && appliance_unknown_from(c, 6))
}

/// The decoder starts in a reachable configuration.
pub proof fn lemma_appliance_decoder_inv_init(truncate: bool)
    ensures
        appliance_decoder_inv(appliance_parser_init(truncate)),
{
    let m = appliance_parser_init(truncate);
    assert(m.stack.push(m.state)[0] == AppliancesParserState::Start);
}

/// The sub-record slot's discriminant always matches the context: from
/// a reachable configuration every event leads to a reachable
/// configuration, and the internal-inconsistency error
/// `UnexpectedParserState` is never reported. A mismatch would signal a
/// bug in the transition table, not bad input, and there is none.
#[verifier::rlimit(100)]
#[verifier::spinoff_prover]
pub proof fn lemma_appliance_decoder_inv_preserved(m: AppliancesParserView, ev: EventView)
    requires
        appliance_decoder_inv(m),
    ensures
        ({
            let (m2, r) = appliance_step(m, ev);
            &&& appliance_decoder_inv(m2)
            &&& !(r matches Err(e) && e == ParseErrorView::UnexpectedParserState)
        }),
{
    let c = m.stack.push(m.state);
    let (m2, r) = appliance_step(m, ev);
    let c2 = m2.stack.push(m2.state);
    assert(c[c.len() - 1] == m.state);
    match ev {
        EventView::StartArray => {
            if m.stack.len() < MAX_NODE_DEPTH {
                assert(c2 =~= c.push(m2.state));
            }
        },
        EventView::StartMap => {
            if m.stack.len() < MAX_NODE_DEPTH {
                assert(c2 =~= c.push(m2.state));
            }
        },
        EventView::EndArray => {
            if m.state.spec_is_array_state() && m.stack.len() > 0 {
                assert(c2 =~= m.stack);
                assert(forall|i: int| 0 <= i < c2.len() ==> c2[i] == c[i]);
            }
        },
        EventView::EndMap => {
            if m.state.spec_is_map_state() && m.stack.len() > 0 {
                assert(c2 =~= m.stack);
                assert(forall|i: int| 0 <= i < c2.len() ==> c2[i] == c[i]);
            }
        },
        EventView::Key(_) => {
            assert(c2 =~= c);
        },
        EventView::Value(_) => {
            assert(c2 =~= c);
        },
    }
}

} // verus!
