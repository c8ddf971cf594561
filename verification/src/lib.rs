//! Streaming decoder for the device and appliance listings of a
//! home-automation cloud API.
//!
//! JSON structural events are fed one at a time into a bounded-memory
//! state machine that assembles fixed-layout records and reports, after
//! each closed container, whether a record or sub-record was completed.
//! The machine tracks nested structural context on a bounded stack,
//! routes each scalar to the typed field its (context, key) pair names,
//! skips unrecognized sub-structures of any shape, and aborts with a
//! typed error on malformed or structurally inconsistent input.

pub mod config;
pub mod text;
pub mod parser_options;
pub mod common_types;
pub mod node_key;
pub mod events;
pub mod device;
pub mod appliances;

pub use common_types::{
    ModelNodeParseError, ParseErrorView, SerialNumber, Timestamp, UnexpectedNodeError, Uuid,
};
pub use device::{
    Device, DeviceSubNode, DevicesParser, DevicesParserState, MacAddress, Model, NewestEventType,
    NewestEvents, SensorValue, User,
};
pub use appliances::{
    Appliance, ApplianceModel, ApplianceSubNode, ApplianceType, AppliancesParser,
    AppliancesParserState, EchonetLiteProperty,
};
pub use events::{Emit, JsonEvent, Number, ScalarValue};
pub use node_key::ModelNodeKey;
pub use parser_options::{copy_string_option, copy_string_possible, ParserOptions};
