//! The device record schema: its records, sub-records, MAC addresses,
//! and the event-driven decoder that assembles them.

use vstd::prelude::*;
use vstd::string::StringSliceAdditionalSpecFns;
use crate::common_types::{
    datetime_of, describe_pair, pair_description, step_result_view, uuid_of, ModelNodeParseError,
    ParseErrorView, SerialNumber, Timestamp, Uuid,
};
use crate::config::{
    MAX_COUNTRY_LEN, MAX_DEVICE_NAME_LEN, MAX_FIRMWARE_VERSION_LEN, MAX_IMAGE_LEN,
    MAX_MANUFACTURER_LEN, MAX_MODEL_NAME_LEN, MAX_NICKNAME_LEN, MAX_NODE_DEPTH,
    MAX_REMOTE_NAME_LEN, MAX_SERIES_LEN, SERIAL_NUMBER_LEN,
};
use crate::events::{subtree_events, Emit, EventView, JsonEvent, Number, ScalarValue, ScalarView};
use crate::node_key::{key_of, ModelNodeKey};
use crate::parser_options::{copied_string, copy_string_option, ParserOptions};
use crate::text::BoundedString;

verus! {

// ---------------------------------------------------------------------
// MAC addresses
// ---------------------------------------------------------------------

/// A hardware address of exactly six octets.
#[derive(Clone, Copy, Debug, PartialEq, Eq)]
pub struct MacAddress(pub [u8; 6]);

impl View for MacAddress {
    type V = Seq<u8>;

    open spec fn view(&self) -> Seq<u8> {
        self.0@
    }
}

impl Default for MacAddress {
    /// The all-zero address.
    fn default() -> (r: Self)
        ensures
            r@ == mac_default(),
    {
        let r = MacAddress([0u8; 6]);
        proof {
            assert(r@ =~= mac_default());
        }
        r
    }
}

/// The all-zero address.
pub open spec fn mac_default() -> Seq<u8> {
    seq![0u8, 0u8, 0u8, 0u8, 0u8, 0u8]
}

/// Value of an ASCII hexadecimal digit, upper or lower case; `None` for
/// any other byte.
pub open spec fn hex_digit_value(b: u8) -> Option<u8> {
    if 0x30 <= b && b <= 0x39 {
        Some((b - 0x30) as u8)
    } else if 0x41 <= b && b <= 0x46 {
        Some((b - 0x41 + 10) as u8)
    } else if 0x61 <= b && b <= 0x66 {
        Some((b - 0x61 + 10) as u8)
    } else {
        None
    }
}

/// An accepted octet separator: ':' or '-'.
pub open spec fn is_mac_delimiter(b: u8) -> bool {
    b == 0x3au8 || b == 0x2du8
}

/// The octet written as two hexadecimal digits at positions `i`, `i + 1`.
pub open spec fn mac_octet_of(s: Seq<u8>, i: int) -> Option<u8> {
    match (hex_digit_value(s[i]), hex_digit_value(s[i + 1])) {
        (Some(h), Some(l)) => Some((h * 16 + l) as u8),
        _ => None,
    }
}

/// The six octets named by a textual MAC address: twelve hexadecimal
/// digits in pairs, separated by ':' or '-' (chosen independently at
/// each of the five positions). Only the first seventeen bytes are read;
/// anything after them is ignored.
pub open spec fn mac_of(s: Seq<u8>) -> Option<Seq<u8>> {
    if s.len() >= 17 && is_mac_delimiter(s[2]) && is_mac_delimiter(s[5]) && is_mac_delimiter(s[8])
        && is_mac_delimiter(s[11]) && is_mac_delimiter(s[14]) && mac_octet_of(s, 0) is Some
        && mac_octet_of(s, 3) is Some && mac_octet_of(s, 6) is Some && mac_octet_of(s, 9) is Some
        && mac_octet_of(s, 12) is Some && mac_octet_of(s, 15) is Some {
        Some(
            seq![
                mac_octet_of(s, 0).unwrap(),
                mac_octet_of(s, 3).unwrap(),
                mac_octet_of(s, 6).unwrap(),
                mac_octet_of(s, 9).unwrap(),
                mac_octet_of(s, 12).unwrap(),
                mac_octet_of(s, 15).unwrap(),
            ],
        )
    } else {
        None
    }
}

/// Value of one hexadecimal digit.
fn hex_digit(b: u8) -> (r: Option<u8>)
    ensures
        r == hex_digit_value(b),
{
    if 0x30 <= b && b <= 0x39 {
        Some(b - 0x30)
    } else if 0x41 <= b && b <= 0x46 {
        Some(b - 0x41 + 10)
    } else if 0x61 <= b && b <= 0x66 {
        Some(b - 0x61 + 10)
    } else {
        None
    }
}

/// Parse the two hexadecimal digits at positions `i`, `i + 1`.
fn parse_mac_octet(s: &[u8], i: usize) -> (r: Option<u8>)
    requires
        i + 1 < s@.len(),
    ensures
        r == mac_octet_of(s@, i as int),
{
    match (hex_digit(s[i]), hex_digit(s[i + 1])) {
        (Some(h), Some(l)) => Some(h * 16 + l),
        _ => None,
    }
}

/// Parse a textual MAC address: twelve hexadecimal digits in pairs with
/// a ':' or '-' between the pairs. Bytes past the seventeenth are
/// ignored; anything else is refused.
pub fn parse_mac_address(s: &[u8]) -> (r: Option<MacAddress>)
    ensures
        match r {
            Some(m) => mac_of(s@) == Some(m@),
            None => mac_of(s@) is None,
        },
{
    if s.len() < 17 {
        return None;
    }
    let d2 = s[2];
    let d5 = s[5];
    let d8 = s[8];
    let d11 = s[11];
    let d14 = s[14];
    if !((d2 == 0x3a || d2 == 0x2d) && (d5 == 0x3a || d5 == 0x2d) && (d8 == 0x3a || d8 == 0x2d)
        && (d11 == 0x3a || d11 == 0x2d) && (d14 == 0x3a || d14 == 0x2d)) {
        return None;
    }
    match (
        parse_mac_octet(s, 0),
        parse_mac_octet(s, 3),
        parse_mac_octet(s, 6),
        parse_mac_octet(s, 9),
        parse_mac_octet(s, 12),
        parse_mac_octet(s, 15),
    ) {
        (Some(a), Some(b), Some(c), Some(d), Some(e), Some(f)) => {
            let m = MacAddress([a, b, c, d, e, f]);
            proof {
                assert(m@ =~= mac_of(s@).unwrap());
            }
            Some(m)
        },
        _ => None,
    }
}

impl MacAddress {
    /// Parse from text. Succeeds on exactly the colon- or
    /// hyphen-delimited two-digit hexadecimal form.
    pub fn from_str(s: &str) -> (r: Result<Self, ModelNodeParseError>)
        ensures
            match r {
                Ok(m) => mac_of(s.spec_bytes()) == Some(m@),
                Err(e) => mac_of(s.spec_bytes()) is None && e is MacAddressParseError,
            },
    {
        match parse_mac_address(s.as_bytes()) {
            Some(m) => Ok(m),
            None => Err(ModelNodeParseError::MacAddressParseError),
        }
    }
}

// ---------------------------------------------------------------------
// Records and sub-records
// ---------------------------------------------------------------------

/// One sensor reading: a value and when it was taken.
#[derive(Clone, Copy, Debug, PartialEq)]
pub struct SensorValue {
    pub val: Number,
    pub created_at: Timestamp,
}

/// The zero reading at the epoch.
pub open spec fn sensor_value_default() -> SensorValue {
    SensorValue { val: Number::I32(0), created_at: Timestamp(0) }
}

impl Default for SensorValue {
    /// The zero reading at the epoch.
    fn default() -> (r: Self)
        ensures
            r == sensor_value_default(),
    {
        SensorValue { val: Number::I32(0), created_at: Timestamp(0) }
    }
}

/// A user entry of a device's `users` array.
#[derive(Debug, PartialEq)]
pub struct User {
    pub id: Uuid,
    pub nickname: BoundedString<MAX_NICKNAME_LEN>,
    pub superuser: bool,
}

/// Mathematical image of `User`.
pub struct UserView {
    pub id: u128,
    pub nickname: Seq<u8>,
    pub superuser: bool,
}

impl View for User {
    type V = UserView;

    open spec fn view(&self) -> UserView {
        UserView { id: self.id.0, nickname: self.nickname@, superuser: self.superuser }
    }
}

/// The user with the nil identifier, an empty nickname and no flag.
pub open spec fn user_default() -> UserView {
    UserView { id: 0, nickname: Seq::empty(), superuser: false }
}

impl Default for User {
    /// The user with the nil identifier, an empty nickname and no flag.
    fn default() -> (r: Self)
        ensures
            r@ == user_default(),
    {
        User { id: Uuid(0), nickname: BoundedString::new(), superuser: false }
    }
}

impl Clone for User {
    /// An exact copy.
    fn clone(&self) -> (r: Self)
        ensures
            r@ == self@,
    {
        User { id: self.id, nickname: self.nickname.clone(), superuser: self.superuser }
    }
}

/// The newest reading of each sensor a device reported, if any.
#[derive(Clone, Copy, Debug, Default, PartialEq)]
pub struct NewestEvents {
    pub temperature: Option<SensorValue>,
    pub humidity: Option<SensorValue>,
    pub illumination: Option<SensorValue>,
    pub motion: Option<SensorValue>,
}

/// No readings at all.
pub open spec fn newest_events_default() -> NewestEvents {
    NewestEvents { temperature: None, humidity: None, illumination: None, motion: None }
}

impl NewestEvents {
    /// No readings at all.
    pub fn new() -> (r: Self)
        ensures
            r == newest_events_default(),
    {
        NewestEvents { temperature: None, humidity: None, illumination: None, motion: None }
    }
}

/// A device listing record.
#[derive(Debug, PartialEq)]
pub struct Device {
    pub id: Uuid,
    pub name: BoundedString<MAX_DEVICE_NAME_LEN>,
    pub temperature_offset: Number,
    pub humidity_offset: Number,
    pub created_at: Timestamp,
    pub updated_at: Timestamp,
    pub firmware_version: BoundedString<MAX_FIRMWARE_VERSION_LEN>,
    pub mac_address: MacAddress,
    pub bt_mac_address: MacAddress,
    pub serial_number: SerialNumber,
}

/// Mathematical image of `Device`.
pub struct DeviceView {
    pub id: u128,
    pub name: Seq<u8>,
    pub temperature_offset: Number,
    pub humidity_offset: Number,
    pub created_at: i128,
    pub updated_at: i128,
    pub firmware_version: Seq<u8>,
    pub mac_address: Seq<u8>,
    pub bt_mac_address: Seq<u8>,
    pub serial_number: Seq<u8>,
}

impl View for Device {
    type V = DeviceView;

    open spec fn view(&self) -> DeviceView {
        DeviceView {
            id: self.id.0,
            name: self.name@,
            temperature_offset: self.temperature_offset,
            humidity_offset: self.humidity_offset,
            created_at: self.created_at.0,
            updated_at: self.updated_at.0,
            firmware_version: self.firmware_version@,
            mac_address: self.mac_address@,
            bt_mac_address: self.bt_mac_address@,
            serial_number: self.serial_number@,
        }
    }
}

/// The record all of whose fields hold their defaults.
pub open spec fn device_default() -> DeviceView {
    DeviceView {
        id: 0,
        name: Seq::empty(),
        temperature_offset: Number::I32(0),
        humidity_offset: Number::I32(0),
        created_at: 0,
        updated_at: 0,
        firmware_version: Seq::empty(),
        mac_address: mac_default(),
        bt_mac_address: mac_default(),
        serial_number: Seq::empty(),
    }
}

impl Default for Device {
    /// The record all of whose fields hold their defaults.
    fn default() -> (r: Self)
        ensures
            r@ == device_default(),
    {
        Device {
            id: Uuid(0),
            name: BoundedString::new(),
            temperature_offset: Number::I32(0),
            humidity_offset: Number::I32(0),
            created_at: Timestamp(0),
            updated_at: Timestamp(0),
            firmware_version: BoundedString::new(),
            mac_address: MacAddress::default(),
            bt_mac_address: MacAddress::default(),
            serial_number: BoundedString::new(),
        }
    }
}

impl Clone for Device {
    /// An exact copy.
    fn clone(&self) -> (r: Self)
        ensures
            r@ == self@,
    {
        Device {
            id: self.id,
            name: self.name.clone(),
            temperature_offset: self.temperature_offset,
            humidity_offset: self.humidity_offset,
            created_at: self.created_at,
            updated_at: self.updated_at,
            firmware_version: self.firmware_version.clone(),
            mac_address: self.mac_address,
            bt_mac_address: self.bt_mac_address,
            serial_number: self.serial_number.clone(),
        }
    }
}

/// An embedded model record of the device schema. The devices document
/// does not carry one, but the record belongs to the schema's data model
/// and callers of the appliance decoder may convert into it.
#[derive(Debug, PartialEq)]
pub struct Model {
    pub id: Uuid,
    pub country: BoundedString<MAX_COUNTRY_LEN>,
    pub manifacturer: BoundedString<MAX_MANUFACTURER_LEN>,
    pub remote_name: BoundedString<MAX_REMOTE_NAME_LEN>,
    pub series: BoundedString<MAX_SERIES_LEN>,
    pub name: BoundedString<MAX_MODEL_NAME_LEN>,
    pub image: BoundedString<MAX_IMAGE_LEN>,
}

impl Default for Model {
    /// The record all of whose fields hold their defaults.
    fn default() -> (r: Self)
        ensures
            r.id.0 == 0,
            r.country@ == Seq::<u8>::empty(),
            r.manifacturer@ == Seq::<u8>::empty(),
            r.remote_name@ == Seq::<u8>::empty(),
            r.series@ == Seq::<u8>::empty(),
            r.name@ == Seq::<u8>::empty(),
            r.image@ == Seq::<u8>::empty(),
    {
        Model {
            id: Uuid(0),
            country: BoundedString::new(),
            manifacturer: BoundedString::new(),
            remote_name: BoundedString::new(),
            series: BoundedString::new(),
            name: BoundedString::new(),
            image: BoundedString::new(),
        }
    }
}

/// The sub-record slot of the device decoder: exactly one sub-record is
/// active at a time.
#[derive(Debug, PartialEq)]
pub enum DeviceSubNode {
    User(User),
    NewestEvents(NewestEvents),
}

/// Mathematical image of `DeviceSubNode`.
pub enum DeviceSubNodeView {
    User(UserView),
    NewestEvents(NewestEvents),
}

impl View for DeviceSubNode {
    type V = DeviceSubNodeView;

    open spec fn view(&self) -> DeviceSubNodeView {
        match self {
            DeviceSubNode::User(u) => DeviceSubNodeView::User(u@),
            DeviceSubNode::NewestEvents(n) => DeviceSubNodeView::NewestEvents(*n),
        }
    }
}

impl Clone for DeviceSubNode {
    /// An exact copy.
    fn clone(&self) -> (r: Self)
        ensures
            r@ == self@,
    {
        match self {
            DeviceSubNode::User(u) => DeviceSubNode::User(u.clone()),
            DeviceSubNode::NewestEvents(n) => DeviceSubNode::NewestEvents(*n),
        }
    }
}

// ---------------------------------------------------------------------
// Scalar routing: one recognized (key, scalar) pair into one field
// ---------------------------------------------------------------------

/// How a scalar under the given key changes a device record: recognized
/// (key, kind) pairs set their field (fallibly for the validated
/// formats); every other pair leaves the record as it was.
pub open spec fn device_field_update(
    d: DeviceView,
    key: ModelNodeKey,
    v: ScalarView,
    truncate: bool,
) -> Result<DeviceView, ParseErrorView> {
    match (key, v) {
        (ModelNodeKey::Name, ScalarView::Text(s)) => match copied_string(
            s,
            MAX_DEVICE_NAME_LEN as int,
            truncate,
        ) {
            Ok(t) => Ok(DeviceView { name: t, ..d }),
            Err(e) => Err(e),
        },
        (ModelNodeKey::Id, ScalarView::Text(s)) => match uuid_of(s) {
            Some(u) => Ok(DeviceView { id: u, ..d }),
            None => Err(ParseErrorView::UuidParseError),
        },
        (ModelNodeKey::CreatedAt, ScalarView::Text(s)) => match datetime_of(s) {
            Some(t) => Ok(DeviceView { created_at: t, ..d }),
            None => Err(ParseErrorView::TimestampParseError),
        },
        (ModelNodeKey::UpdatedAt, ScalarView::Text(s)) => match datetime_of(s) {
            Some(t) => Ok(DeviceView { updated_at: t, ..d }),
            None => Err(ParseErrorView::TimestampParseError),
        },
        (ModelNodeKey::MacAddress, ScalarView::Text(s)) => match mac_of(s) {
            Some(m) => Ok(DeviceView { mac_address: m, ..d }),
            None => Err(ParseErrorView::MacAddressParseError),
        },
        (ModelNodeKey::BtMacAddress, ScalarView::Text(s)) => match mac_of(s) {
            Some(m) => Ok(DeviceView { bt_mac_address: m, ..d }),
            None => Err(ParseErrorView::MacAddressParseError),
        },
        (ModelNodeKey::SerialNumber, ScalarView::Text(s)) => match copied_string(
            s,
            SERIAL_NUMBER_LEN as int,
            truncate,
        ) {
            Ok(t) => Ok(DeviceView { serial_number: t, ..d }),
            Err(e) => Err(e),
        },
        (ModelNodeKey::FirmwareVersion, ScalarView::Text(s)) => match copied_string(
            s,
            MAX_FIRMWARE_VERSION_LEN as int,
            truncate,
        ) {
            Ok(t) => Ok(DeviceView { firmware_version: t, ..d }),
            Err(e) => Err(e),
        },
        (ModelNodeKey::TemperatureOffset, ScalarView::Number(n)) => Ok(
            DeviceView { temperature_offset: n, ..d },
        ),
        (ModelNodeKey::HumidityOffset, ScalarView::Number(n)) => Ok(
            DeviceView { humidity_offset: n, ..d },
        ),
        _ => Ok(d),
    }
}

/// Apply one scalar to a device record as `device_field_update` says;
/// on an error the record is left as it was.
pub fn apply_device_field(
    device: &mut Device,
    key: ModelNodeKey,
    value: &ScalarValue,
    options: &ParserOptions,
) -> (r: Result<(), ModelNodeParseError>)
    ensures
        match device_field_update(old(device)@, key, value@, options.spec_truncate()) {
            Ok(d2) => r is Ok && final(device)@ == d2,
            Err(e) => (r matches Err(e2) && e2@ == e) && final(device)@ == old(device)@,
        },
{
    match (key, value) {
        (ModelNodeKey::Name, ScalarValue::Text(s)) => {
            device.name = copy_string_option(s.as_slice(), options)?;
            Ok(())
        },
        (ModelNodeKey::Id, ScalarValue::Text(s)) => {
            device.id = Uuid::parse(s.as_slice())?;
            Ok(())
        },
        (ModelNodeKey::CreatedAt, ScalarValue::Text(s)) => {
            device.created_at = Timestamp::parse(s.as_slice())?;
            Ok(())
        },
        (ModelNodeKey::UpdatedAt, ScalarValue::Text(s)) => {
            device.updated_at = Timestamp::parse(s.as_slice())?;
            Ok(())
        },
        (ModelNodeKey::MacAddress, ScalarValue::Text(s)) => {
            match parse_mac_address(s.as_slice()) {
                Some(m) => {
                    device.mac_address = m;
                    Ok(())
                },
                None => Err(ModelNodeParseError::MacAddressParseError),
            }
        },
        (ModelNodeKey::BtMacAddress, ScalarValue::Text(s)) => {
            match parse_mac_address(s.as_slice()) {
                Some(m) => {
                    device.bt_mac_address = m;
                    Ok(())
                },
                None => Err(ModelNodeParseError::MacAddressParseError),
            }
        },
        (ModelNodeKey::SerialNumber, ScalarValue::Text(s)) => {
            device.serial_number = copy_string_option(s.as_slice(), options)?;
            Ok(())
        },
        (ModelNodeKey::FirmwareVersion, ScalarValue::Text(s)) => {
            device.firmware_version = copy_string_option(s.as_slice(), options)?;
            Ok(())
        },
        (ModelNodeKey::TemperatureOffset, ScalarValue::Number(n)) => {
            device.temperature_offset = *n;
            Ok(())
        },
        (ModelNodeKey::HumidityOffset, ScalarValue::Number(n)) => {
            device.humidity_offset = *n;
            Ok(())
        },
        _ => Ok(()),
    }
}

/// How a scalar under the given key changes a user sub-record.
pub open spec fn user_field_update(
    u: UserView,
    key: ModelNodeKey,
    v: ScalarView,
    truncate: bool,
) -> Result<UserView, ParseErrorView> {
    match (key, v) {
        (ModelNodeKey::Id, ScalarView::Text(s)) => match uuid_of(s) {
            Some(id) => Ok(UserView { id, ..u }),
            None => Err(ParseErrorView::UuidParseError),
        },
        (ModelNodeKey::NickName, ScalarView::Text(s)) => match copied_string(
            s,
            MAX_NICKNAME_LEN as int,
            truncate,
        ) {
            Ok(t) => Ok(UserView { nickname: t, ..u }),
            Err(e) => Err(e),
        },
        (ModelNodeKey::SuperUser, ScalarView::Boolean(b)) => Ok(UserView { superuser: b, ..u }),
        _ => Ok(u),
    }
}

/// Apply one scalar to a user sub-record as `user_field_update` says;
/// on an error the sub-record is left as it was.
pub fn apply_user_field(
    user: &mut User,
    key: ModelNodeKey,
    value: &ScalarValue,
    options: &ParserOptions,
) -> (r: Result<(), ModelNodeParseError>)
    ensures
        match user_field_update(old(user)@, key, value@, options.spec_truncate()) {
            Ok(u2) => r is Ok && final(user)@ == u2,
            Err(e) => (r matches Err(e2) && e2@ == e) && final(user)@ == old(user)@,
        },
{
    match (key, value) {
        (ModelNodeKey::Id, ScalarValue::Text(s)) => {
            user.id = Uuid::parse(s.as_slice())?;
            Ok(())
        },
        (ModelNodeKey::NickName, ScalarValue::Text(s)) => {
            user.nickname = copy_string_option(s.as_slice(), options)?;
            Ok(())
        },
        (ModelNodeKey::SuperUser, ScalarValue::Boolean(b)) => {
            user.superuser = *b;
            Ok(())
        },
        _ => Ok(()),
    }
}

/// How a scalar under the given key changes a sensor reading.
pub open spec fn sensor_field_update(
    sv: SensorValue,
    key: ModelNodeKey,
    v: ScalarView,
) -> Result<SensorValue, ParseErrorView> {
    match (key, v) {
        (ModelNodeKey::Val, ScalarView::Number(n)) => Ok(SensorValue { val: n, ..sv }),
        (ModelNodeKey::CreatedAt, ScalarView::Text(s)) => match datetime_of(s) {
            Some(t) => Ok(SensorValue { created_at: Timestamp(t), ..sv }),
            None => Err(ParseErrorView::TimestampParseError),
        },
        _ => Ok(sv),
    }
}

/// Apply one scalar to a sensor reading as `sensor_field_update` says;
/// on an error the reading is left as it was.
pub fn apply_sensor_field(sv: &mut SensorValue, key: ModelNodeKey, value: &ScalarValue) -> (r:
    Result<(), ModelNodeParseError>)
    ensures
        match sensor_field_update(*old(sv), key, value@) {
            Ok(s2) => r is Ok && *final(sv) == s2,
            Err(e) => (r matches Err(e2) && e2@ == e) && *final(sv) == *old(sv),
        },
{
    match (key, value) {
        (ModelNodeKey::Val, ScalarValue::Number(n)) => {
            sv.val = *n;
            Ok(())
        },
        (ModelNodeKey::CreatedAt, ScalarValue::Text(s)) => {
            sv.created_at = Timestamp::parse(s.as_slice())?;
            Ok(())
        },
        _ => Ok(()),
    }
}


// ---------------------------------------------------------------------
// The device decoder
// ---------------------------------------------------------------------

/// Which sensor's reading is being filled.
#[derive(Clone, Copy, Debug, PartialEq, Eq, Structural)]
pub enum NewestEventType {
    Temperature,
    Humidity,
    Illumination,
    Motion,
}

/// The reading slot of the given sensor.
pub open spec fn sensor_slot(ne: NewestEvents, t: NewestEventType) -> Option<SensorValue> {
    match t {
        NewestEventType::Temperature => ne.temperature,
        NewestEventType::Humidity => ne.humidity,
        NewestEventType::Illumination => ne.illumination,
        NewestEventType::Motion => ne.motion,
    }
}

/// `ne` with the given sensor's slot replaced.
pub open spec fn with_sensor_slot(
    ne: NewestEvents,
    t: NewestEventType,
    sv: Option<SensorValue>,
) -> NewestEvents {
    match t {
        NewestEventType::Temperature => NewestEvents { temperature: sv, ..ne },
        NewestEventType::Humidity => NewestEvents { humidity: sv, ..ne },
        NewestEventType::Illumination => NewestEvents { illumination: sv, ..ne },
        NewestEventType::Motion => NewestEvents { motion: sv, ..ne },
    }
}

/// Read the given sensor's slot.
fn get_sensor_slot(ne: &NewestEvents, t: NewestEventType) -> (r: Option<SensorValue>)
    ensures
        r == sensor_slot(*ne, t),
{
    match t {
        NewestEventType::Temperature => ne.temperature,
        NewestEventType::Humidity => ne.humidity,
        NewestEventType::Illumination => ne.illumination,
        NewestEventType::Motion => ne.motion,
    }
}

/// Replace the given sensor's slot.
fn set_sensor_slot(ne: &mut NewestEvents, t: NewestEventType, sv: Option<SensorValue>)
    ensures
        *final(ne) == with_sensor_slot(*old(ne), t, sv),
{
    match t {
        NewestEventType::Temperature => ne.temperature = sv,
        NewestEventType::Humidity => ne.humidity = sv,
        NewestEventType::Illumination => ne.illumination = sv,
        NewestEventType::Motion => ne.motion = sv,
    }
}

/// The structural context of the device decoder.
#[derive(Clone, Copy, Debug, PartialEq, Eq, Structural)]
pub enum DevicesParserState {
    Start,
    DevicesArray,
    DeviceMap,
    UsersArray,
    UserMap,
    NewestEventsMap,
    NewestEventMap(NewestEventType),
    UnknownMap,
    UnknownArray,
}

impl DevicesParserState {
    /// Whether the context is one that an end-of-object event may close.
    pub open spec fn spec_is_map_state(self) -> bool {
        match self {
            DevicesParserState::DeviceMap => true,
            DevicesParserState::UserMap => true,
            DevicesParserState::NewestEventsMap => true,
            DevicesParserState::NewestEventMap(_) => true,
            DevicesParserState::UnknownMap => true,
            _ => false,
        }
    }

    /// Whether the context is one that an end-of-object event may close.
    pub fn is_map_state(&self) -> (r: bool)
        ensures
            r == self.spec_is_map_state(),
    {
        match self {
            DevicesParserState::DeviceMap => true,
            DevicesParserState::UserMap => true,
            DevicesParserState::NewestEventsMap => true,
            DevicesParserState::NewestEventMap(_) => true,
            DevicesParserState::UnknownMap => true,
            _ => false,
        }
    }

    /// Whether the context is one that an end-of-array event may close.
    pub open spec fn spec_is_array_state(self) -> bool {
        match self {
            DevicesParserState::DevicesArray => true,
            DevicesParserState::UsersArray => true,
            DevicesParserState::UnknownArray => true,
            _ => false,
        }
    }

    /// Whether the context is one that an end-of-array event may close.
    pub fn is_array_state(&self) -> (r: bool)
        ensures
            r == self.spec_is_array_state(),
    {
        match self {
            DevicesParserState::DevicesArray => true,
            DevicesParserState::UsersArray => true,
            DevicesParserState::UnknownArray => true,
            _ => false,
        }
    }

    /// Context name, for the diagnostic text of an error.
    pub open spec fn spec_name(self) -> Seq<u8> {
        match self {
            DevicesParserState::Start => "Start".spec_bytes(),
            DevicesParserState::DevicesArray => "DevicesArray".spec_bytes(),
            DevicesParserState::DeviceMap => "DeviceMap".spec_bytes(),
            DevicesParserState::UsersArray => "UsersArray".spec_bytes(),
            DevicesParserState::UserMap => "UserMap".spec_bytes(),
            DevicesParserState::NewestEventsMap => "NewestEventsMap".spec_bytes(),
            DevicesParserState::NewestEventMap(_) => "NewestEventMap".spec_bytes(),
            DevicesParserState::UnknownMap => "UnknownMap".spec_bytes(),
            DevicesParserState::UnknownArray => "UnknownArray".spec_bytes(),
        }
    }

    /// Context name, as bytes.
    pub fn name_bytes(&self) -> (r: &'static [u8])
        ensures
            r@ == self.spec_name(),
    {
        match self {
            DevicesParserState::Start => "Start".as_bytes(),
            DevicesParserState::DevicesArray => "DevicesArray".as_bytes(),
            DevicesParserState::DeviceMap => "DeviceMap".as_bytes(),
            DevicesParserState::UsersArray => "UsersArray".as_bytes(),
            DevicesParserState::UserMap => "UserMap".as_bytes(),
            DevicesParserState::NewestEventsMap => "NewestEventsMap".as_bytes(),
            DevicesParserState::NewestEventMap(_) => "NewestEventMap".as_bytes(),
            DevicesParserState::UnknownMap => "UnknownMap".as_bytes(),
            DevicesParserState::UnknownArray => "UnknownArray".as_bytes(),
        }
    }
}

/// Mathematical image of the device decoder.
pub struct DevicesParserView {
    pub state: DevicesParserState,
    pub stack: Seq<DevicesParserState>,
    pub device: DeviceView,
    pub subnode: DeviceSubNodeView,
    pub node_key: Option<ModelNodeKey>,
    pub truncate: bool,
}

/// The decoder before any event, under the given overflow policy.
pub open spec fn device_parser_init(truncate: bool) -> DevicesParserView {
    DevicesParserView {
        state: DevicesParserState::Start,
        stack: Seq::empty(),
        device: device_default(),
        subnode: DeviceSubNodeView::User(user_default()),
        node_key: None,
        truncate,
    }
}

/// Routing of one scalar value in the device decoder: into a field of
/// the record or sub-record the context names, dropped where the pending
/// key or the scalar's kind does not fit, fatal outside any record
/// context. The pending key is consumed. `ev` is the whole event, for
/// the diagnostic text of an error.
pub open spec fn device_value_step(m: DevicesParserView, ev: EventView, v: ScalarView) -> (
    DevicesParserView,
    Result<Emit, ParseErrorView>,
) {
    match m.state {
        DevicesParserState::DeviceMap => match m.node_key {
            Some(k) => match device_field_update(m.device, k, v, m.truncate) {
                Ok(d2) => (
                    DevicesParserView { device: d2, node_key: None, ..m },
                    Ok(Emit::Nothing),
                ),
                Err(e) => (m, Err(e)),
            },
            None => (m, Ok(Emit::Nothing)),
        },
        DevicesParserState::UserMap => match m.subnode {
            DeviceSubNodeView::User(u) => match m.node_key {
                Some(k) => match user_field_update(u, k, v, m.truncate) {
                    Ok(u2) => (
                        DevicesParserView {
                            subnode: DeviceSubNodeView::User(u2),
                            node_key: None,
                            ..m
                        },
                        Ok(Emit::Nothing),
                    ),
                    Err(e) => (m, Err(e)),
                },
                None => (m, Ok(Emit::Nothing)),
            },
            _ => (m, Err(ParseErrorView::UnexpectedParserState)),
        },
        DevicesParserState::NewestEventMap(t) => match m.subnode {
            DeviceSubNodeView::NewestEvents(ne) => match sensor_slot(ne, t) {
                Some(sv) => match m.node_key {
                    Some(k) => match sensor_field_update(sv, k, v) {
                        Ok(s2) => (
                            DevicesParserView {
                                subnode: DeviceSubNodeView::NewestEvents(
                                    with_sensor_slot(ne, t, Some(s2)),
                                ),
                                node_key: None,
                                ..m
                            },
                            Ok(Emit::Nothing),
                        ),
                        Err(e) => (m, Err(e)),
                    },
                    None => (m, Ok(Emit::Nothing)),
                },
                None => (m, Err(ParseErrorView::UnexpectedParserState)),
            },
            _ => (m, Err(ParseErrorView::UnexpectedParserState)),
        },
        DevicesParserState::UnknownMap => (
            DevicesParserView { node_key: None, ..m },
            Ok(Emit::Nothing),
        ),
        DevicesParserState::UnknownArray => (
            DevicesParserView { node_key: None, ..m },
            Ok(Emit::Nothing),
        ),
        _ => (m, Err(ParseErrorView::UnexpectedNode(pair_description(m.state.spec_name(), ev)))),
    }
}

/// The transition of the device decoder on one event: the machine after
/// the event, and what it asks the driver to report, or the error that
/// aborts the decode. On an error the machine is left as it was.
pub open spec fn device_step(m: DevicesParserView, ev: EventView) -> (
    DevicesParserView,
    Result<Emit, ParseErrorView>,
) {
    match ev {
        EventView::StartArray => {
            if m.stack.len() >= MAX_NODE_DEPTH {
                (m, Err(ParseErrorView::NodeTooDeep))
            } else {
                let next = match (m.state, m.node_key) {
                    (DevicesParserState::Start, _) => DevicesParserState::DevicesArray,
                    (
                        DevicesParserState::DeviceMap,
                        Some(ModelNodeKey::Users),
                    ) => DevicesParserState::UsersArray,
                    _ => DevicesParserState::UnknownArray,
                };
                (
                    DevicesParserView {
                        state: next,
                        stack: m.stack.push(m.state),
                        node_key: None,
                        ..m
                    },
                    Ok(Emit::Nothing),
                )
            }
        },
        EventView::StartMap => {
            if m.stack.len() >= MAX_NODE_DEPTH {
                (m, Err(ParseErrorView::NodeTooDeep))
            } else {
                match (m.state, m.node_key) {
                    (DevicesParserState::DevicesArray, _) => (
                        DevicesParserView {
                            state: DevicesParserState::DeviceMap,
                            stack: m.stack.push(m.state),
                            node_key: None,
                            ..m
                        },
                        Ok(Emit::Nothing),
                    ),
                    (DevicesParserState::DeviceMap, Some(ModelNodeKey::NewestEvents)) => (
                        DevicesParserView {
                            state: DevicesParserState::NewestEventsMap,
                            stack: m.stack.push(m.state),
                            subnode: DeviceSubNodeView::NewestEvents(newest_events_default()),
                            node_key: None,
                            ..m
                        },
                        Ok(Emit::Nothing),
                    ),
                    (DevicesParserState::UsersArray, _) => (
                        DevicesParserView {
                            state: DevicesParserState::UserMap,
                            stack: m.stack.push(m.state),
                            subnode: DeviceSubNodeView::User(user_default()),
                            node_key: None,
                            ..m
                        },
                        Ok(Emit::Nothing),
                    ),
                    (DevicesParserState::NewestEventsMap, k) => match m.subnode {
                        DeviceSubNodeView::NewestEvents(ne) => {
                            let t = match k {
                                Some(ModelNodeKey::Te) => Some(NewestEventType::Temperature),
                                Some(ModelNodeKey::Hu) => Some(NewestEventType::Humidity),
                                Some(ModelNodeKey::Il) => Some(NewestEventType::Illumination),
                                Some(ModelNodeKey::Mo) => Some(NewestEventType::Motion),
                                _ => None,
                            };
                            match t {
                                Some(t) => (
                                    DevicesParserView {
                                        state: DevicesParserState::NewestEventMap(t),
                                        stack: m.stack.push(m.state),
                                        subnode: DeviceSubNodeView::NewestEvents(
                                            with_sensor_slot(ne, t, Some(sensor_value_default())),
                                        ),
                                        node_key: None,
                                        ..m
                                    },
                                    Ok(Emit::Nothing),
                                ),
                                None => (m, Err(ParseErrorView::UnknownNewestEventsType)),
                            }
                        },
                        _ => (m, Err(ParseErrorView::UnexpectedParserState)),
                    },
                    (_, _) => (
                        DevicesParserView {
                            state: DevicesParserState::UnknownMap,
                            stack: m.stack.push(m.state),
                            node_key: None,
                            ..m
                        },
                        Ok(Emit::Nothing),
                    ),
                }
            }
        },
        EventView::EndArray => {
            if !m.state.spec_is_array_state() || m.stack.len() == 0 {
                (m, Err(ParseErrorView::UnexpectedMapArrayEnd))
            } else {
                (
                    DevicesParserView { state: m.stack.last(), stack: m.stack.drop_last(), ..m },
                    Ok(Emit::Nothing),
                )
            }
        },
        EventView::EndMap => {
            if !m.state.spec_is_map_state() || m.stack.len() == 0 {
                (m, Err(ParseErrorView::UnexpectedMapArrayEnd))
            } else {
                let emit = match m.state {
                    DevicesParserState::DeviceMap => Emit::Record,
                    DevicesParserState::UserMap => Emit::RecordAndSubNode,
                    DevicesParserState::NewestEventsMap => Emit::RecordAndSubNode,
                    _ => Emit::Nothing,
                };
                (
                    DevicesParserView { state: m.stack.last(), stack: m.stack.drop_last(), ..m },
                    Ok(emit),
                )
            }
        },
        EventView::Key(s) => match s {
            ScalarView::Text(t) => (
                DevicesParserView { node_key: key_of(t), ..m },
                Ok(Emit::Nothing),
            ),
            _ => (m, Ok(Emit::Nothing)),
        },
        EventView::Value(v) => device_value_step(m, ev, v),
    }
}

/// The event-driven decoder of a devices document: a bounded context
/// stack, the record and sub-record being filled, and the pending key.
#[derive(Debug)]
pub struct DevicesParser {
    pub state: DevicesParserState,
    pub state_stack: Vec<DevicesParserState>,
    pub device: Device,
    pub subnode: DeviceSubNode,
    pub node_key: Option<ModelNodeKey>,
    pub truncate_too_long_string: bool,
}

impl View for DevicesParser {
    type V = DevicesParserView;

    open spec fn view(&self) -> DevicesParserView {
        DevicesParserView {
            state: self.state,
            stack: self.state_stack@,
            device: self.device@,
            subnode: self.subnode@,
            node_key: self.node_key,
            truncate: self.truncate_too_long_string,
        }
    }
}

impl DevicesParser {
    /// A decoder before any event, under the given overflow policy.
    pub fn new(options: &ParserOptions) -> (r: Self)
        ensures
            r@ == device_parser_init(options.spec_truncate()),
    {
        DevicesParser {
            state: DevicesParserState::Start,
            state_stack: Vec::new(),
            device: Device::default(),
            subnode: DeviceSubNode::User(User::default()),
            node_key: None,
            truncate_too_long_string: options.truncates(),
        }
    }

    /// Route one scalar value, as `device_value_step` says.
    fn feed_value(&mut self, event: &JsonEvent, value: &ScalarValue) -> (r: Result<
        Emit,
        ModelNodeParseError,
    >)
        requires
            event@ matches EventView::Value(v) && v == value@,
        ensures
            ({
                let (m2, r2) = device_value_step(old(self)@, event@, value@);
                final(self)@ == m2 && step_result_view(r) == r2
            }),
    {
        match self.state {
            DevicesParserState::DeviceMap => match self.node_key {
                Some(k) => {
                    let opts = ParserOptions::new(self.truncate_too_long_string);
                    match apply_device_field(&mut self.device, k, value, &opts) {
                        Ok(()) => {
                            self.node_key = None;
                            Ok(Emit::Nothing)
                        },
                        Err(e) => Err(e),
                    }
                },
                None => Ok(Emit::Nothing),
            },
            DevicesParserState::UserMap => {
                let sub = self.subnode.clone();
                match sub {
                    DeviceSubNode::User(mut u) => match self.node_key {
                        Some(k) => {
                            let opts = ParserOptions::new(self.truncate_too_long_string);
                            match apply_user_field(&mut u, k, value, &opts) {
                                Ok(()) => {
                                    self.subnode = DeviceSubNode::User(u);
                                    self.node_key = None;
                                    Ok(Emit::Nothing)
                                },
                                Err(e) => Err(e),
                            }
                        },
                        None => Ok(Emit::Nothing),
                    },
                    _ => Err(ModelNodeParseError::UnexpectedParserState),
                }
            },
            DevicesParserState::NewestEventMap(t) => {
                let sub = self.subnode.clone();
                match sub {
                    DeviceSubNode::NewestEvents(mut ne) => match get_sensor_slot(&ne, t) {
                        Some(mut sv) => match self.node_key {
                            Some(k) => match apply_sensor_field(&mut sv, k, value) {
                                Ok(()) => {
                                    set_sensor_slot(&mut ne, t, Some(sv));
                                    self.subnode = DeviceSubNode::NewestEvents(ne);
                                    self.node_key = None;
                                    Ok(Emit::Nothing)
                                },
                                Err(e) => Err(e),
                            },
                            None => Ok(Emit::Nothing),
                        },
                        None => Err(ModelNodeParseError::UnexpectedParserState),
                    },
                    _ => Err(ModelNodeParseError::UnexpectedParserState),
                }
            },
            DevicesParserState::UnknownMap => {
                self.node_key = None;
                Ok(Emit::Nothing)
            },
            DevicesParserState::UnknownArray => {
                self.node_key = None;
                Ok(Emit::Nothing)
            },
            _ => Err(
                ModelNodeParseError::UnexpectedNode(describe_pair(self.state.name_bytes(), event)),
            ),
        }
    }

    /// Consume one structural event, as `device_step` says: the context
    /// stack and records are updated, and the result asks the driver to
    /// report a completed record, a record with its just-completed
    /// sub-record, or nothing. On an error the decoder is left as it
    /// was and the decode must be aborted.
    pub fn feed(&mut self, event: &JsonEvent) -> (r: Result<Emit, ModelNodeParseError>)
        ensures
            ({
                let (m2, r2) = device_step(old(self)@, event@);
                final(self)@ == m2 && step_result_view(r) == r2
            }),
    {
        match event {
            JsonEvent::StartArray => {
                if self.state_stack.len() >= MAX_NODE_DEPTH {
                    return Err(ModelNodeParseError::NodeTooDeep);
                }
                let next = match (self.state, self.node_key) {
                    (DevicesParserState::Start, _) => DevicesParserState::DevicesArray,
                    (
                        DevicesParserState::DeviceMap,
                        Some(ModelNodeKey::Users),
                    ) => DevicesParserState::UsersArray,
                    _ => DevicesParserState::UnknownArray,
                };
                self.state_stack.push(self.state);
                self.state = next;
                self.node_key = None;
                Ok(Emit::Nothing)
            },
            JsonEvent::StartMap => {
                if self.state_stack.len() >= MAX_NODE_DEPTH {
                    return Err(ModelNodeParseError::NodeTooDeep);
                }
                match (self.state, self.node_key) {
                    (DevicesParserState::DevicesArray, _) => {
                        self.state_stack.push(self.state);
                        self.state = DevicesParserState::DeviceMap;
                        self.node_key = None;
                        Ok(Emit::Nothing)
                    },
                    (DevicesParserState::DeviceMap, Some(ModelNodeKey::NewestEvents)) => {
                        self.subnode = DeviceSubNode::NewestEvents(NewestEvents::new());
                        self.state_stack.push(self.state);
                        self.state = DevicesParserState::NewestEventsMap;
                        self.node_key = None;
                        Ok(Emit::Nothing)
                    },
                    (DevicesParserState::UsersArray, _) => {
                        self.subnode = DeviceSubNode::User(User::default());
                        self.state_stack.push(self.state);
                        self.state = DevicesParserState::UserMap;
                        self.node_key = None;
                        Ok(Emit::Nothing)
                    },
                    (DevicesParserState::NewestEventsMap, k) => {
                        let sub = self.subnode.clone();
                        match sub {
                            DeviceSubNode::NewestEvents(mut ne) => {
                                let t = match k {
                                    Some(ModelNodeKey::Te) => NewestEventType::Temperature,
                                    Some(ModelNodeKey::Hu) => NewestEventType::Humidity,
                                    Some(ModelNodeKey::Il) => NewestEventType::Illumination,
                                    Some(ModelNodeKey::Mo) => NewestEventType::Motion,
                                    _ => {
                                        return Err(ModelNodeParseError::UnknownNewestEventsType);
                                    },
                                };
                                set_sensor_slot(&mut ne, t, Some(SensorValue::default()));
                                self.subnode = DeviceSubNode::NewestEvents(ne);
                                self.state_stack.push(self.state);
                                self.state = DevicesParserState::NewestEventMap(t);
                                self.node_key = None;
                                Ok(Emit::Nothing)
                            },
                            _ => Err(ModelNodeParseError::UnexpectedParserState),
                        }
                    },
                    (_, _) => {
                        self.state_stack.push(self.state);
                        self.state = DevicesParserState::UnknownMap;
                        self.node_key = None;
                        Ok(Emit::Nothing)
                    },
                }
            },
            JsonEvent::EndArray => {
                if !self.state.is_array_state() {
                    return Err(ModelNodeParseError::UnexpectedMapArrayEnd);
                }
                match self.state_stack.pop() {
                    Some(prev) => {
                        self.state = prev;
                        proof {
                            assert(self.state_stack@ =~= old(self)@.stack.drop_last());
                        }
                        Ok(Emit::Nothing)
                    },
                    None => Err(ModelNodeParseError::UnexpectedMapArrayEnd),
                }
            },
            JsonEvent::EndMap => {
                if !self.state.is_map_state() {
                    return Err(ModelNodeParseError::UnexpectedMapArrayEnd);
                }
                let emit = match self.state {
                    DevicesParserState::DeviceMap => Emit::Record,
                    DevicesParserState::UserMap => Emit::RecordAndSubNode,
                    DevicesParserState::NewestEventsMap => Emit::RecordAndSubNode,
                    _ => Emit::Nothing,
                };
                match self.state_stack.pop() {
                    Some(prev) => {
                        self.state = prev;
                        proof {
                            assert(self.state_stack@ =~= old(self)@.stack.drop_last());
                        }
                        Ok(emit)
                    },
                    None => Err(ModelNodeParseError::UnexpectedMapArrayEnd),
                }
            },
            JsonEvent::Key(s) => match s {
                ScalarValue::Text(t) => {
                    self.node_key = match ModelNodeKey::try_from(t.as_slice()) {
                        Ok(k) => Some(k),
                        Err(_) => None,
                    };
                    Ok(Emit::Nothing)
                },
                _ => Ok(Emit::Nothing),
            },
            JsonEvent::Value(v) => self.feed_value(event, v),
        }
    }
}


// ---------------------------------------------------------------------
// Laws of the device decoder
// ---------------------------------------------------------------------

/// The decoder run over a sequence of events: the machine at the end,
/// the emissions it requested (in document order, `Nothing` dropped),
/// and the error that stopped it, if one did. After an error nothing
/// further is consumed and no further emission is requested.
pub open spec fn device_run(m: DevicesParserView, evs: Seq<EventView>) -> (
    DevicesParserView,
    Seq<Emit>,
    Option<ParseErrorView>,
)
    decreases evs.len(),
{
    if evs.len() == 0 {
        (m, Seq::empty(), None)
    } else {
        let (m1, r1) = device_step(m, evs[0]);
        match r1 {
            Ok(e) => {
                let (m2, es, err) = device_run(m1, evs.drop_first());
                (m2, if e is Nothing { es } else { seq![e] + es }, err)
            },
            Err(e) => (m, Seq::empty(), Some(e)),
        }
    }
}

/// For an empty top-level array the decoder requests no emission (the
/// callback is never invoked) and succeeds, back in its start context
/// with the records still at their defaults.
pub proof fn lemma_device_empty_document(truncate: bool)
    ensures
        ({
            let (m, emits, err) = device_run(
                device_parser_init(truncate),
                seq![EventView::StartArray, EventView::EndArray],
            );
            emits == Seq::<Emit>::empty() && err is None && m == device_parser_init(truncate)
        }),
{
    let m0 = device_parser_init(truncate);
    let evs = seq![EventView::StartArray, EventView::EndArray];
    let (m1, r1) = device_step(m0, evs[0]);
    assert(m1.stack =~= m0.stack.push(DevicesParserState::Start));
    let rest = evs.drop_first();
    assert(rest =~= seq![EventView::EndArray]);
    let (m2, r2) = device_step(m1, rest[0]);
    assert(m2.stack =~= m0.stack);
    assert(m2 == m0);
    let rest2 = rest.drop_first();
    assert(rest2 =~= Seq::<EventView>::empty());
    let (m3, es3, err3) = device_run(m2, rest2);
    let (mr, es, err) = device_run(m1, rest);
    assert(es =~= Seq::<Emit>::empty());
    let (mf, esf, errf) = device_run(m0, evs);
    assert(esf =~= Seq::<Emit>::empty());
}

/// Opening another container when the context stack is full fails with
/// `NodeTooDeep`, requests no emission, and leaves the decoder as it
/// was: the error fires before any further callback could.
pub proof fn lemma_device_node_too_deep(m: DevicesParserView, ev: EventView)
    requires
        m.stack.len() >= MAX_NODE_DEPTH,
        ev == EventView::StartMap || ev == EventView::StartArray,
    ensures
        device_step(m, ev) == (m, Err::<Emit, ParseErrorView>(ParseErrorView::NodeTooDeep)),
{
}

/// A decoder inside an unrecognized subtree of a devices document: `k`
/// containers of the subtree are open (its root included); the records,
/// the policy, and everything at or below the context the subtree was
/// entered from are those of `m0`.
pub open spec fn device_unknown_excursion(
    m: DevicesParserView,
    m0: DevicesParserView,
    k: int,
) -> bool {
    &&& k >= 1
    &&& (m.state == DevicesParserState::UnknownMap || m.state == DevicesParserState::UnknownArray)
    &&& m.stack.len() == m0.stack.len() + k
    &&& m.stack.subrange(0, m0.stack.len() as int) == m0.stack
    &&& m.stack[m0.stack.len() as int] == m0.state
    &&& (forall|i: int|
        m0.stack.len() < i < m.stack.len() ==> (m.stack[i] == DevicesParserState::UnknownMap
            || m.stack[i] == DevicesParserState::UnknownArray))
    &&& m.device == m0.device
    &&& m.subnode == m0.subnode
    &&& m.truncate == m0.truncate
}

/// Opening an unrecognized object or array inside a device record
/// enters an unrecognized subtree, with nothing emitted and the records
/// untouched.
pub proof fn lemma_device_unknown_subtree_entered(m: DevicesParserView, ev: EventView)
    requires
        m.stack.len() < MAX_NODE_DEPTH,
        m.state == DevicesParserState::DeviceMap,
        (ev == EventView::StartMap && m.node_key != Some(ModelNodeKey::NewestEvents)) || (ev
            == EventView::StartArray && m.node_key != Some(ModelNodeKey::Users)),
    ensures
        ({
            let (m2, r) = device_step(m, ev);
            r == Ok::<Emit, ParseErrorView>(Emit::Nothing) && device_unknown_excursion(m2, m, 1)
        }),
{
    let (m2, r) = device_step(m, ev);
    assert(m2.stack.subrange(0, m.stack.len() as int) =~= m.stack);
}

/// An unrecognized subtree of any shape is fully skipped. While inside
/// one: no event requests an emission; keys and scalars are consumed
/// without touching the records; an open deepens the excursion (or
/// fails with `NodeTooDeep` at the depth bound, the decoder unchanged);
/// the matching close of an inner container stays inside; and the
/// matching close of the subtree's root returns to the context the
/// subtree was entered from with the record and sub-record exactly as
/// they were, so the following sibling fields decode as if the subtree
/// had not been there. A close of the wrong container kind is the fatal
/// `UnexpectedMapArrayEnd`, the decoder unchanged.
pub proof fn lemma_device_unknown_subtree_skipped(
    m: DevicesParserView,
    m0: DevicesParserView,
    k: int,
    ev: EventView,
)
    requires
        device_unknown_excursion(m, m0, k),
    ensures
        ({
            let (m2, r) = device_step(m, ev);
            match r {
                Ok(e) => e == Emit::Nothing && (match ev {
                    EventView::StartMap => device_unknown_excursion(m2, m0, k + 1),
                    EventView::StartArray => device_unknown_excursion(m2, m0, k + 1),
                    EventView::EndMap => (k > 1 && device_unknown_excursion(m2, m0, k - 1)) || (k
                        == 1 && m2 == DevicesParserView { node_key: m.node_key, ..m0 }),
                    EventView::EndArray => (k > 1 && device_unknown_excursion(m2, m0, k - 1)) || (
                    k == 1 && m2 == DevicesParserView { node_key: m.node_key, ..m0 }),
                    _ => device_unknown_excursion(m2, m0, k),
                }),
                Err(e) => m2 == m && (e == ParseErrorView::NodeTooDeep
                    || e == ParseErrorView::UnexpectedMapArrayEnd),
            }
        }),
{
    let (m2, r) = device_step(m, ev);
    match ev {
        EventView::StartMap => {
            if m.stack.len() < MAX_NODE_DEPTH {
                assert(m2.stack.subrange(0, m0.stack.len() as int) =~= m0.stack);
            }
        },
        EventView::StartArray => {
            if m.stack.len() < MAX_NODE_DEPTH {
                assert(m2.stack.subrange(0, m0.stack.len() as int) =~= m0.stack);
            }
        },
        EventView::EndMap => {
            if m.state == DevicesParserState::UnknownMap {
                if k > 1 {
                    assert(m2.stack =~= m.stack.drop_last());
                    assert(m2.stack.subrange(0, m0.stack.len() as int) =~= m0.stack);
                } else {
                    assert(m.stack.drop_last() =~= m0.stack);
                }
            }
        },
        EventView::EndArray => {
            if m.state == DevicesParserState::UnknownArray {
                if k > 1 {
                    assert(m2.stack =~= m.stack.drop_last());
                    assert(m2.stack.subrange(0, m0.stack.len() as int) =~= m0.stack);
                } else {
                    assert(m.stack.drop_last() =~= m0.stack);
                }
            }
        },
        _ => {},
    }
}


/// The emission protocol: a callback is requested at most once per
/// event, only by a close-of-object event, and exactly as the closing
/// context says: the device record alone when the record's own map
/// closes; the record with its sub-record when a user entry or a
/// newest-events group closes; nothing for any other closing.
pub proof fn lemma_device_emission_protocol(m: DevicesParserView, ev: EventView)
    ensures
        ({
            let (m2, r) = device_step(m, ev);
            match r {
                Ok(e) => {
                    &&& (e == Emit::Record <==> ev == EventView::EndMap && m.state
                        == DevicesParserState::DeviceMap && m.stack.len() > 0)
                    &&& (e == Emit::RecordAndSubNode <==> ev == EventView::EndMap && (m.state
                        == DevicesParserState::UserMap || m.state
                        == DevicesParserState::NewestEventsMap) && m.stack.len() > 0)
                },
                Err(_) => m2 == m,
            }
        }),
{
}

/// A decoder inside an unrecognized subtree, with the kinds of the
/// subtree's open containers written out: `true` for an object, `false`
/// for an array, innermost last. The innermost kind is the current
/// context; the outer ones sit on the stack above the context the
/// subtree was entered from, which everything of `m0` still holds.
pub open spec fn device_excursion_matches(
    m: DevicesParserView,
    m0: DevicesParserView,
    kinds: Seq<bool>,
) -> bool {
    &&& kinds.len() >= 1
    &&& m.state == (if kinds.last() {
        DevicesParserState::UnknownMap
    } else {
        DevicesParserState::UnknownArray
    })
    &&& m.stack.len() == m0.stack.len() + kinds.len()
    &&& m.stack.subrange(0, m0.stack.len() as int) == m0.stack
    &&& m.stack[m0.stack.len() as int] == m0.state
    &&& (forall|i: int|
        0 <= i < kinds.len() - 1 ==> m.stack[m0.stack.len() + 1 + i] == (if kinds[i] {
            DevicesParserState::UnknownMap
        } else {
            DevicesParserState::UnknownArray
        }))
    &&& m.device == m0.device
    &&& m.subnode == m0.subnode
    &&& m.truncate == m0.truncate
}

proof fn lemma_device_excursion_step_open(
    m: DevicesParserView,
    m0: DevicesParserView,
    kinds: Seq<bool>,
    ev: EventView,
)
    requires
        device_excursion_matches(m, m0, kinds),
        m.stack.len() < MAX_NODE_DEPTH,
        ev == EventView::StartMap || ev == EventView::StartArray,
    ensures
        ({
            let (m1, r1) = device_step(m, ev);
            r1 == Ok::<Emit, ParseErrorView>(Emit::Nothing) && device_excursion_matches(
                m1,
                m0,
                kinds.push(ev == EventView::StartMap),
            )
        }),
{
    let (m1, r1) = device_step(m, ev);
    let kinds2 = kinds.push(ev == EventView::StartMap);
    assert(m1.stack.subrange(0, m0.stack.len() as int) =~= m0.stack);
    assert(m1.stack[m0.stack.len() + 1 + (kinds2.len() - 2)] == m.state);
}

proof fn lemma_device_excursion_step_close_inner(
    m: DevicesParserView,
    m0: DevicesParserView,
    kinds: Seq<bool>,
    ev: EventView,
)
    requires
        device_excursion_matches(m, m0, kinds),
        kinds.len() > 1,
        (ev == EventView::EndMap && kinds.last()) || (ev == EventView::EndArray
            && !kinds.last()),
    ensures
        ({
            let (m1, r1) = device_step(m, ev);
            r1 == Ok::<Emit, ParseErrorView>(Emit::Nothing) && device_excursion_matches(
                m1,
                m0,
                kinds.drop_last(),
            )
        }),
{
    let (m1, r1) = device_step(m, ev);
    let kinds2 = kinds.drop_last();
    assert(m1.stack =~= m.stack.drop_last());
    assert(m1.stack.subrange(0, m0.stack.len() as int) =~= m0.stack);
    assert(m1.state == m.stack[m0.stack.len() + 1 + (kinds2.len() - 1)]);
}

proof fn lemma_device_excursion_step_close_root(
    m: DevicesParserView,
    m0: DevicesParserView,
    kinds: Seq<bool>,
    ev: EventView,
)
    requires
        device_excursion_matches(m, m0, kinds),
        kinds.len() == 1,
        (ev == EventView::EndMap && kinds.last()) || (ev == EventView::EndArray
            && !kinds.last()),
    ensures
        ({
            let (m1, r1) = device_step(m, ev);
            r1 == Ok::<Emit, ParseErrorView>(Emit::Nothing) && m1 == DevicesParserView {
                node_key: m.node_key,
                ..m0
            }
        }),
{
    let (m1, r1) = device_step(m, ev);
    assert(m1.stack =~= m.stack.drop_last());
    assert(m.stack.drop_last() =~= m0.stack);
}

proof fn lemma_device_excursion_step_scalar(
    m: DevicesParserView,
    m0: DevicesParserView,
    kinds: Seq<bool>,
    ev: EventView,
)
    requires
        device_excursion_matches(m, m0, kinds),
        ev matches EventView::Key(_) || ev matches EventView::Value(_),
    ensures
        ({
            let (m1, r1) = device_step(m, ev);
            r1 == Ok::<Emit, ParseErrorView>(Emit::Nothing) && device_excursion_matches(
                m1,
                m0,
                kinds,
            )
        }),
{
}

/// An unrecognized subtree of any shape, nested below the depth limit,
/// is fully skipped: running the decoder over any event sequence that
/// stays inside the subtree's open containers and finally closes them
/// requests no emission, reports no error, and ends with the context,
/// the stack, the record and the sub-record exactly as they were when
/// the subtree was entered, so the following sibling fields decode as
/// if the subtree had not been there.
#[verifier::rlimit(100)]
#[verifier::spinoff_prover]
pub proof fn lemma_device_subtree_run_skipped(
    m: DevicesParserView,
    m0: DevicesParserView,
    kinds: Seq<bool>,
    evs: Seq<EventView>,
)
    requires
        device_excursion_matches(m, m0, kinds),
        subtree_events(evs, kinds, MAX_NODE_DEPTH - m0.stack.len()),
    ensures
        ({
            let (m2, emits, err) = device_run(m, evs);
            &&& err is None
            &&& emits == Seq::<Emit>::empty()
            &&& m2.state == m0.state
            &&& m2.stack == m0.stack
            &&& m2.device == m0.device
            &&& m2.subnode == m0.subnode
            &&& m2.truncate == m0.truncate
        }),
    decreases evs.len(),
{
    let rest = evs.drop_first();
    let (m1, r1) = device_step(m, evs[0]);
    match evs[0] {
        EventView::StartMap => {
            lemma_device_excursion_step_open(m, m0, kinds, evs[0]);
            lemma_device_subtree_run_skipped(m1, m0, kinds.push(true), rest);
            assert(device_run(m, evs) == device_run(m1, rest));
        },
        EventView::StartArray => {
            lemma_device_excursion_step_open(m, m0, kinds, evs[0]);
            lemma_device_subtree_run_skipped(m1, m0, kinds.push(false), rest);
            assert(device_run(m, evs) == device_run(m1, rest));
        },
        EventView::EndMap => {
            if kinds.len() > 1 {
                lemma_device_excursion_step_close_inner(m, m0, kinds, evs[0]);
                lemma_device_subtree_run_skipped(m1, m0, kinds.drop_last(), rest);
                assert(device_run(m, evs) == device_run(m1, rest));
            } else {
                lemma_device_excursion_step_close_root(m, m0, kinds, evs[0]);
                assert(subtree_events(rest, kinds.drop_last(), MAX_NODE_DEPTH - m0.stack.len()));
                assert(rest.len() == 0);
                assert(device_run(m1, rest) == (m1, Seq::<Emit>::empty(), None::<ParseErrorView>));
                assert(device_run(m, evs) == device_run(m1, rest));
            }
        },
        EventView::EndArray => {
            if kinds.len() > 1 {
                lemma_device_excursion_step_close_inner(m, m0, kinds, evs[0]);
                lemma_device_subtree_run_skipped(m1, m0, kinds.drop_last(), rest);
                assert(device_run(m, evs) == device_run(m1, rest));
            } else {
                lemma_device_excursion_step_close_root(m, m0, kinds, evs[0]);
                assert(subtree_events(rest, kinds.drop_last(), MAX_NODE_DEPTH - m0.stack.len()));
                assert(rest.len() == 0);
                assert(device_run(m1, rest) == (m1, Seq::<Emit>::empty(), None::<ParseErrorView>));
                assert(device_run(m, evs) == device_run(m1, rest));
            }
        },
        EventView::Key(_) => {
            lemma_device_excursion_step_scalar(m, m0, kinds, evs[0]);
            lemma_device_subtree_run_skipped(m1, m0, kinds, rest);
            assert(device_run(m, evs) == device_run(m1, rest));
        },
        EventView::Value(_) => {
            lemma_device_excursion_step_scalar(m, m0, kinds, evs[0]);
            lemma_device_subtree_run_skipped(m1, m0, kinds, rest);
            assert(device_run(m, evs) == device_run(m1, rest));
        },
    }
}

/// Opening an unrecognized object or array inside a device record and
/// then feeding any event sequence that stays inside it and finally
/// closes it: no emission is requested, no error is reported, and the
/// decoder ends back in the device record context with the record and
/// sub-record untouched.
pub proof fn lemma_device_unknown_container_skipped(
    m0: DevicesParserView,
    open_ev: EventView,
    body: Seq<EventView>,
)
    requires
        m0.stack.len() < MAX_NODE_DEPTH,
        m0.state == DevicesParserState::DeviceMap,
        (open_ev == EventView::StartMap && m0.node_key != Some(ModelNodeKey::NewestEvents)) || (
        open_ev == EventView::StartArray && m0.node_key != Some(ModelNodeKey::Users)),
        subtree_events(
            body,
            seq![open_ev == EventView::StartMap],
            MAX_NODE_DEPTH - m0.stack.len(),
        ),
    ensures
        ({
            let (m2, emits, err) = device_run(m0, seq![open_ev] + body);
            &&& err is None
            &&& emits == Seq::<Emit>::empty()
            &&& m2.state == m0.state
            &&& m2.stack == m0.stack
            &&& m2.device == m0.device
            &&& m2.subnode == m0.subnode
            &&& m2.truncate == m0.truncate
        }),
{
    let evs = seq![open_ev] + body;
    assert(evs[0] == open_ev);
    let (m1, r1) = device_step(m0, evs[0]);
    lemma_device_unknown_subtree_entered(m0, open_ev);
    let kinds = seq![open_ev == EventView::StartMap];
    assert(device_excursion_matches(m1, m0, kinds)) by {
        assert(m1.stack.subrange(0, m0.stack.len() as int) =~= m0.stack);
    }
    assert(evs.drop_first() =~= body);
    lemma_device_subtree_run_skipped(m1, m0, kinds, body);
}


/// A context of an unrecognized subtree.
pub open spec fn device_is_unknown_state(s: DevicesParserState) -> bool {
    s == DevicesParserState::UnknownMap || s == DevicesParserState::UnknownArray
}

/// Every entry of `c` from index `k` on belongs to an unrecognized
/// subtree.
pub open spec fn device_unknown_from(c: Seq<DevicesParserState>, k: int) -> bool {
    forall|i: int| k <= i < c.len() ==> device_is_unknown_state(#[trigger] c[i])
}

/// The reachable configurations of the device decoder. The context
/// chain (the stack with the current context on top) is one of the
/// schema's nesting chains, possibly continued by an unrecognized
/// subtree; and wherever the chain reaches a sub-record context, the
/// active sub-record slot holds the matching discriminant.
pub open spec fn device_decoder_inv(m: DevicesParserView) -> bool {
    let c = m.stack.push(m.state);
    ||| (c[0] == DevicesParserState::Start && device_unknown_from(c, 1))
    ||| (c.len() >= 2 && c[0] == DevicesParserState::Start && c[1]
        == DevicesParserState::DevicesArray && device_unknown_from(c, 2))
    ||| (c.len() >= 3 && c[0] == DevicesParserState::Start && c[1]
        == DevicesParserState::DevicesArray && c[2] == DevicesParserState::DeviceMap
        && device_unknown_from(c, 3))
    ||| (c.len() >= 4 && c[0] == DevicesParserState::Start && c[1]
        == DevicesParserState::DevicesArray && c[2] == DevicesParserState::DeviceMap && c[3]
        == DevicesParserState::UsersArray && device_unknown_from(c, 4))
    ||| (c.len() >= 5 && c[0] == DevicesParserState::Start && c[1]
        == DevicesParserState::DevicesArray && c[2] == DevicesParserState::DeviceMap && c[3]
        == DevicesParserState::UsersArray && c[4] == DevicesParserState::UserMap && (m.subnode
        matches DeviceSubNodeView::User(_)) && device_unknown_from(c, 5))
    ||| (c.len() >= 4 && c[0] == DevicesParserState::Start && c[1]
        == DevicesParserState::DevicesArray && c[2] == DevicesParserState::DeviceMap && c[3]
        == DevicesParserState::NewestEventsMap && (m.subnode
        matches DeviceSubNodeView::NewestEvents(_)) && device_unknown_from(c, 4))
    ||| (c.len() >= 5 && c[0] == DevicesParserState::Start && c[1]
        == DevicesParserState::DevicesArray && c[2] == DevicesParserState::DeviceMap && c[3]
        == DevicesParserState::NewestEventsMap && (c[4] matches DevicesParserState::NewestEventMap(
        t,
    ) && m.subnode matches DeviceSubNodeView::NewestEvents(ne) && sensor_slot(ne, t) is Some)
        && device_unknown_from(c, 5))
}

/// The decoder starts in a reachable configuration.
pub proof fn lemma_device_decoder_inv_init(truncate: bool)
    ensures
        device_decoder_inv(device_parser_init(truncate)),
{
    let m = device_parser_init(truncate);
    assert(m.stack.push(m.state)[0] == DevicesParserState::Start);
}

/// The sub-record slot's discriminant always matches the context: from
/// a reachable configuration every event leads to a reachable
/// configuration, and the internal-inconsistency error
/// `UnexpectedParserState` is never reported. A mismatch would signal a
/// bug in the transition table, not bad input, and there is none.
#[verifier::rlimit(100)]
#[verifier::spinoff_prover]
pub proof fn lemma_device_decoder_inv_preserved(m: DevicesParserView, ev: EventView)
    requires
        device_decoder_inv(m),
    ensures
        ({
            let (m2, r) = device_step(m, ev);
            &&& device_decoder_inv(m2)
            &&& !(r matches Err(e) && e == ParseErrorView::UnexpectedParserState)
        }),
{
    let c = m.stack.push(m.state);
    let (m2, r) = device_step(m, ev);
    let c2 = m2.stack.push(m2.state);
    assert(c[c.len() - 1] == m.state);
    match ev {
        EventView::StartArray => {
            if m.stack.len() < MAX_NODE_DEPTH {
                assert(c2 =~= c.push(m2.state));
            }
        },
        EventView::StartMap => {
            if m.stack.len() < MAX_NODE_DEPTH {
                if m2 != m {
                    assert(c2 =~= c.push(m2.state));
                }
            }
        },
        EventView::EndArray => {
            if m.state.spec_is_array_state() && m.stack.len() > 0 {
                assert(c2 =~= m.stack);
                assert(forall|i: int| 0 <= i < c2.len() ==> c2[i] == c[i]);
            }
        },
        EventView::EndMap => {
            if m.state.spec_is_map_state() && m.stack.len() > 0 {
                assert(c2 =~= m.stack);
                assert(forall|i: int| 0 <= i < c2.len() ==> c2[i] == c[i]);
            }
        },
        EventView::Key(_) => {
            assert(c2 =~= c);
        },
        EventView::Value(_) => {
            assert(c2 =~= c);
        },
    }
}

} // verus!
