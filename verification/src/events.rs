//! The JSON structural events that the decoders consume, and what a
//! consumed event asks the driving loop to report.
//!
//! The events mirror what a streaming tokenizer emits: container opens
//! and closes, object keys, and scalar values. Text is carried as UTF-8
//! bytes; floating-point numbers are carried as their IEEE 754 bit
//! patterns, so that the decoders store them without interpreting them.

use vstd::prelude::*;
use vstd::string::StringSliceAdditionalSpecFns;

verus! {

/// A JSON number, as a tokenizer classifies it: the first integer type
/// that holds it, or the bits of the floating value it parsed.
#[derive(Clone, Copy, Debug, PartialEq, Eq, Structural)]
pub enum Number {
    I32(i32),
    U32(u32),
    I64(i64),
    U64(u64),
    /// The IEEE 754 bit pattern of a 32-bit floating value.
    F32Bits(u32),
    /// The IEEE 754 bit pattern of a 64-bit floating value.
    F64Bits(u64),
}

/// A scalar carried by a key or value event. `ContinuingText` is a text
/// fragment whose remainder did not fit the tokenizer's buffer: the
/// offset of the fragment, and whether it is the last one.
#[derive(Clone, Debug)]
pub enum ScalarValue {
    Null,
    Boolean(bool),
    Text(Vec<u8>),
    ContinuingText(Vec<u8>, usize, bool),
    Number(Number),
}

/// Mathematical image of `ScalarValue`.
pub enum ScalarView {
    Null,
    Boolean(bool),
    Text(Seq<u8>),
    ContinuingText(Seq<u8>, usize, bool),
    Number(Number),
}

impl View for ScalarValue {
    type V = ScalarView;

    open spec fn view(&self) -> ScalarView {
        match self {
            ScalarValue::Null => ScalarView::Null,
            ScalarValue::Boolean(b) => ScalarView::Boolean(*b),
            ScalarValue::Text(s) => ScalarView::Text(s@),
            ScalarValue::ContinuingText(s, off, fin) => ScalarView::ContinuingText(s@, *off, *fin),
            ScalarValue::Number(n) => ScalarView::Number(*n),
        }
    }
}

/// One structural event of a JSON document.
#[derive(Clone, Debug)]
pub enum JsonEvent {
    StartMap,
    EndMap,
    StartArray,
    EndArray,
    Key(ScalarValue),
    Value(ScalarValue),
}

/// Mathematical image of `JsonEvent`.
pub enum EventView {
    StartMap,
    EndMap,
    StartArray,
    EndArray,
    Key(ScalarView),
    Value(ScalarView),
}

impl View for JsonEvent {
    type V = EventView;

    open spec fn view(&self) -> EventView {
        match self {
            JsonEvent::StartMap => EventView::StartMap,
            JsonEvent::EndMap => EventView::EndMap,
            JsonEvent::StartArray => EventView::StartArray,
            JsonEvent::EndArray => EventView::EndArray,
            JsonEvent::Key(s) => EventView::Key(s@),
            JsonEvent::Value(s) => EventView::Value(s@),
        }
    }
}

/// What the decoder asks its driver to report after an event: nothing,
/// the completed parent record alone, or the parent record together with
/// the just-completed sub-record.
#[derive(Clone, Copy, Debug, PartialEq, Eq, Structural)]
pub enum Emit {
    Nothing,
    Record,
    RecordAndSubNode,
}

/// The event sequences that remain inside, and at the end close, a set
/// of already-open containers. `kinds` is the stack of open containers,
/// `true` for an object and `false` for an array, innermost last; `cap`
/// bounds how many may be open at once. Keys and scalars stay at the
/// current level; an open deepens the stack within `cap`; a close must
/// match the innermost container's kind; the sequence ends exactly when
/// the last container closes.
pub open spec fn subtree_events(evs: Seq<EventView>, kinds: Seq<bool>, cap: int) -> bool
    decreases evs.len(),
{
    if evs.len() == 0 {
        kinds.len() == 0
    } else if kinds.len() == 0 {
        false
    } else {
        match evs[0] {
            EventView::StartMap => kinds.len() < cap && subtree_events(
                evs.drop_first(),
                kinds.push(true),
                cap,
            ),
            EventView::StartArray => kinds.len() < cap && subtree_events(
                evs.drop_first(),
                kinds.push(false),
                cap,
            ),
            EventView::EndMap => kinds.last() == true && subtree_events(
                evs.drop_first(),
                kinds.drop_last(),
                cap,
            ),
            EventView::EndArray => kinds.last() == false && subtree_events(
                evs.drop_first(),
                kinds.drop_last(),
                cap,
            ),
            EventView::Key(_) => subtree_events(evs.drop_first(), kinds, cap),
            EventView::Value(_) => subtree_events(evs.drop_first(), kinds, cap),
        }
    }
}

/// Short name of an event, for the diagnostic text of an error.
pub open spec fn event_kind_name(ev: EventView) -> Seq<u8> {
    match ev {
        EventView::StartMap => "StartMap".spec_bytes(),
        EventView::EndMap => "EndMap".spec_bytes(),
        EventView::StartArray => "StartArray".spec_bytes(),
        EventView::EndArray => "EndArray".spec_bytes(),
        EventView::Key(_) => "Key".spec_bytes(),
        EventView::Value(ScalarView::Null) => "Value(Null)".spec_bytes(),
        EventView::Value(ScalarView::Boolean(_)) => "Value(Boolean)".spec_bytes(),
        EventView::Value(ScalarView::Text(_)) => "Value(Text)".spec_bytes(),
        EventView::Value(ScalarView::ContinuingText(_, _, _)) => "Value(ContinuingText)".spec_bytes(),
        EventView::Value(ScalarView::Number(_)) => "Value(Number)".spec_bytes(),
    }
}

/// Short name of an event, as bytes.
pub fn event_kind_name_bytes(ev: &JsonEvent) -> (r: &'static [u8])
    ensures
        r@ == event_kind_name(ev@),
{
    match ev {
        JsonEvent::StartMap => "StartMap".as_bytes(),
        JsonEvent::EndMap => "EndMap".as_bytes(),
        JsonEvent::StartArray => "StartArray".as_bytes(),
        JsonEvent::EndArray => "EndArray".as_bytes(),
        JsonEvent::Key(_) => "Key".as_bytes(),
        JsonEvent::Value(ScalarValue::Null) => "Value(Null)".as_bytes(),
        JsonEvent::Value(ScalarValue::Boolean(_)) => "Value(Boolean)".as_bytes(),
        JsonEvent::Value(ScalarValue::Text(_)) => "Value(Text)".as_bytes(),
        JsonEvent::Value(ScalarValue::ContinuingText(_, _, _)) => "Value(ContinuingText)".as_bytes(),
        JsonEvent::Value(ScalarValue::Number(_)) => "Value(Number)".as_bytes(),
    }
}

} // verus!
