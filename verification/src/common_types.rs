//! Types shared by the device and appliance record schemas: identifiers,
//! timestamps, and the error taxonomy of the decoders.

use vstd::prelude::*;
use vstd::string::StringSliceAdditionalSpecFns;
use crate::config::SERIAL_NUMBER_LEN;
use crate::events::{event_kind_name, event_kind_name_bytes, Emit, EventView, JsonEvent};
use crate::text::{append_bytes, truncated_to, BoundedString};

verus! {

pub type SerialNumber = BoundedString<SERIAL_NUMBER_LEN>;

/// Diagnostic text carried by `ModelNodeParseError::UnexpectedNode`.
pub type UnexpectedNodeError = BoundedString<64>;

/// A 128-bit universally unique identifier.
#[derive(Clone, Copy, Debug, PartialEq, Eq, Structural)]
pub struct Uuid(pub u128);

/// An instant in time, counted in nanoseconds since the Unix epoch
/// (seconds times ten to the ninth, plus the sub-second nanoseconds).
#[derive(Clone, Copy, Debug, PartialEq, Eq, Structural)]
pub struct Timestamp(pub i128);

/// What the uuid crate's string parser yields for the given bytes: the
/// 128-bit value of the identifier, or `None` where it refuses them.
pub uninterp spec fn uuid_of(s: Seq<u8>) -> Option<u128>;

/// Relies on `uuid::Uuid::from_str` (the bytes first viewed as text by
/// `core::str::from_utf8`): a pure function of the bytes, yielding the
/// identifier's 128-bit value.
#[verifier::external_body]
fn uuid_parse_raw(s: &[u8]) -> (r: Option<u128>)
    ensures
        r == uuid_of(s@),
{
    match core::str::from_utf8(s) {
        Ok(t) => match <uuid::Uuid as core::str::FromStr>::from_str(t) {
            Ok(u) => Some(u.as_u128()),
            Err(_) => None,
        },
        Err(_) => None,
    }
}

/// What chrono's `DateTime<Utc>` string parser yields for the given
/// bytes: the instant in nanoseconds since the Unix epoch, or `None`
/// where it refuses them.
pub uninterp spec fn datetime_of(s: Seq<u8>) -> Option<i128>;

/// Relies on chrono's `FromStr for DateTime<Utc>` (the bytes first viewed
/// as text by `core::str::from_utf8`): it accepts a relaxed form of
/// RFC 3339, a pure function of the bytes; the instant is reported as
/// `timestamp()` seconds and `timestamp_subsec_nanos()` combined.
#[verifier::external_body]
fn datetime_parse_raw(s: &[u8]) -> (r: Option<i128>)
    ensures
        r == datetime_of(s@),
{
    match core::str::from_utf8(s) {
        Ok(t) => {
            match <chrono::DateTime<chrono::Utc> as core::str::FromStr>::from_str(t) {
                Ok(dt) => Some(
                    dt.timestamp() as i128 * 1_000_000_000 + dt.timestamp_subsec_nanos() as i128,
                ),
                Err(_) => None,
            }
        },
        Err(_) => None,
    }
}

impl Uuid {
    /// The nil identifier, all zero.
    pub fn nil() -> (r: Self)
        ensures
            r.0 == 0,
    {
        Uuid(0)
    }

    /// Parse a textual identifier, in the formats the uuid crate accepts.
    /// Succeeds exactly where that parser does.
    pub fn parse(s: &[u8]) -> (r: Result<Self, ModelNodeParseError>)
        ensures
            match r {
                Ok(u) => uuid_of(s@) == Some(u.0),
                Err(e) => uuid_of(s@) is None && e is UuidParseError,
            },
    {
        match uuid_parse_raw(s) {
            Some(v) => Ok(Uuid(v)),
            None => Err(ModelNodeParseError::UuidParseError),
        }
    }

    /// Parse from text. Succeeds exactly where the uuid crate's string
    /// parser does.
    pub fn from_str(s: &str) -> (r: Result<Self, ModelNodeParseError>)
        ensures
            match r {
                Ok(u) => uuid_of(s.spec_bytes()) == Some(u.0),
                Err(e) => uuid_of(s.spec_bytes()) is None && e is UuidParseError,
            },
    {
        Self::parse(s.as_bytes())
    }
}

impl Default for Uuid {
    /// The nil identifier.
    fn default() -> (r: Self)
        ensures
            r.0 == 0,
    {
        Uuid(0)
    }
}

impl Timestamp {
    /// Parse a textual timestamp (relaxed RFC 3339 with an offset, as
    /// chrono accepts it). Succeeds exactly where chrono's parser does.
    pub fn parse(s: &[u8]) -> (r: Result<Self, ModelNodeParseError>)
        ensures
            match r {
                Ok(t) => datetime_of(s@) == Some(t.0),
                Err(e) => datetime_of(s@) is None && e is TimestampParseError,
            },
    {
        match datetime_parse_raw(s) {
            Some(v) => Ok(Timestamp(v)),
            None => Err(ModelNodeParseError::TimestampParseError),
        }
    }

    /// Parse from text. Succeeds exactly where chrono's parser does.
    pub fn from_str(s: &str) -> (r: Result<Self, ModelNodeParseError>)
        ensures
            match r {
                Ok(t) => datetime_of(s.spec_bytes()) == Some(t.0),
                Err(e) => datetime_of(s.spec_bytes()) is None && e is TimestampParseError,
            },
    {
        Self::parse(s.as_bytes())
    }
}

impl Default for Timestamp {
    /// The Unix epoch.
    fn default() -> (r: Self)
        ensures
            r.0 == 0,
    {
        Timestamp(0)
    }
}

/// Why a decode was aborted. Every variant is fatal: the decoders keep no
/// partial result and cannot be resumed.
#[derive(Debug)]
pub enum ModelNodeParseError {
    /// A recognized identifier field held text the uuid parser refuses.
    UuidParseError,
    /// A recognized timestamp field held text the chrono parser refuses.
    TimestampParseError,
    /// A recognized MAC-address field held text outside the
    /// two-hex-digits-and-delimiter form.
    MacAddressParseError,
    /// An appliance-type tag outside the known set.
    UnexpectedEnumValue,
    /// A sensor group under `newest_events` with an unrecognized key.
    UnknownNewestEventsType,
    /// Structural nesting exceeded the bounded context stack.
    NodeTooDeep,
    /// A string field exceeded its capacity under the reject policy.
    StringTooLong,
    /// A close event with no matching open, or of the wrong container kind.
    UnexpectedMapArrayEnd,
    /// The active sub-record's discriminant did not match the context:
    /// an internal invariant was violated, not bad input.
    UnexpectedParserState,
    /// Any other (context, event) combination, with a short description
    /// of the pair.
    UnexpectedNode(UnexpectedNodeError),
}

/// Mathematical image of `ModelNodeParseError`, with the diagnostic text
/// as a byte sequence.
pub enum ParseErrorView {
    UuidParseError,
    TimestampParseError,
    MacAddressParseError,
    UnexpectedEnumValue,
    UnknownNewestEventsType,
    NodeTooDeep,
    StringTooLong,
    UnexpectedMapArrayEnd,
    UnexpectedParserState,
    UnexpectedNode(Seq<u8>),
}

/// Diagnostic text for an unhandled (context, event) pair:
/// `(<context>, <event>)`, truncated to the diagnostic capacity.
pub open spec fn pair_description(state_name: Seq<u8>, ev: EventView) -> Seq<u8> {
    truncated_to(
        "(".spec_bytes() + state_name + ", ".spec_bytes() + event_kind_name(ev)
            + ")".spec_bytes(),
        64,
    )
}

/// Build the diagnostic text for an unhandled (context, event) pair.
pub fn describe_pair(state_name: &[u8], ev: &JsonEvent) -> (r: UnexpectedNodeError)
    ensures
        r@ == pair_description(state_name@, ev@),
{
    let mut v: Vec<u8> = Vec::new();
    append_bytes(&mut v, "(".as_bytes());
    append_bytes(&mut v, state_name);
    append_bytes(&mut v, ", ".as_bytes());
    append_bytes(&mut v, event_kind_name_bytes(ev));
    append_bytes(&mut v, ")".as_bytes());
    assert(v@ =~= "(".spec_bytes() + state_name@ + ", ".spec_bytes() + event_kind_name(ev@)
        + ")".spec_bytes());
    BoundedString::from_bytes_truncate(v.as_slice())
}

/// Image of a decoding step's outcome: the emission request, or the
/// error in its mathematical form.
pub open spec fn step_result_view(r: Result<Emit, ModelNodeParseError>) -> Result<
    Emit,
    ParseErrorView,
> {
    match r {
        Ok(e) => Ok(e),
        Err(x) => Err(x@),
    }
}

impl View for ModelNodeParseError {
    type V = ParseErrorView;

    open spec fn view(&self) -> ParseErrorView {
        match self {
            ModelNodeParseError::UuidParseError => ParseErrorView::UuidParseError,
            ModelNodeParseError::TimestampParseError => ParseErrorView::TimestampParseError,
            ModelNodeParseError::MacAddressParseError => ParseErrorView::MacAddressParseError,
            ModelNodeParseError::UnexpectedEnumValue => ParseErrorView::UnexpectedEnumValue,
            ModelNodeParseError::UnknownNewestEventsType => ParseErrorView::UnknownNewestEventsType,
            ModelNodeParseError::NodeTooDeep => ParseErrorView::NodeTooDeep,
            ModelNodeParseError::StringTooLong => ParseErrorView::StringTooLong,
            ModelNodeParseError::UnexpectedMapArrayEnd => ParseErrorView::UnexpectedMapArrayEnd,
            ModelNodeParseError::UnexpectedParserState => ParseErrorView::UnexpectedParserState,
            ModelNodeParseError::UnexpectedNode(d) => ParseErrorView::UnexpectedNode(d@),
        }
    }
}

} // verus!
