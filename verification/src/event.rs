//! What a log line is rendered from: the event and the spans that were
//! active when it fired.

use vstd::prelude::*;

verus! {

/// The severity of a log event.
#[derive(Clone, Copy, Debug, PartialEq, Eq, Structural)]
pub enum Level {
    Trace,
    Debug,
    Info,
    Warn,
    Error,
}

/// A text that may be missing, as plain values.
pub open spec fn optional_text(text: Option<String>) -> Option<Seq<char>> {
    match text {
        Some(t) => Some(t@),
        None => None,
    }
}

/// A number that may be missing, as plain values.
pub open spec fn optional_number(number: Option<u32>) -> Option<nat> {
    match number {
        Some(n) => Some(n as nat),
        None => None,
    }
}

/// One log event.
#[derive(Clone, Debug, PartialEq, Eq)]
pub struct LogEvent {
    pub level: Level,
    /// The event's text, as its fields were formatted.
    pub message: String,
    /// The module or component that the event comes from.
    pub target: String,
    pub source_file: Option<String>,
    pub source_line: Option<u32>,
}

/// A log event as plain values.
pub struct EventView {
    pub level: Level,
    pub message: Seq<char>,
    pub target: Seq<char>,
    pub source_file: Option<Seq<char>>,
    pub source_line: Option<nat>,
}

impl View for LogEvent {
    type V = EventView;

    open spec fn view(&self) -> EventView {
        EventView {
            level: self.level,
            message: self.message@,
            target: self.target@,
            source_file: optional_text(self.source_file),
            source_line: optional_number(self.source_line),
        }
    }
}

/// A named operation that was in progress when an event fired, with the
/// key and value pairs that it carries, in the order in which they were
/// recorded.
#[derive(Clone, Debug, PartialEq, Eq)]
pub struct SpanFrame {
    pub name: String,
    pub fields: Vec<(String, String)>,
}

/// A span as plain values.
pub struct FrameView {
    pub name: Seq<char>,
    pub fields: Seq<(Seq<char>, Seq<char>)>,
}

/// Key and value pairs as plain values.
pub open spec fn fields_view(fields: Seq<(String, String)>) -> Seq<(Seq<char>, Seq<char>)> {
    Seq::new(fields.len(), |i: int| (fields[i].0@, fields[i].1@))
}

impl View for SpanFrame {
    type V = FrameView;

    open spec fn view(&self) -> FrameView {
        FrameView { name: self.name@, fields: fields_view(self.fields@) }
    }
}

/// A stack of spans, from the root to the current one, as plain values.
pub open spec fn frames_view(spans: Seq<SpanFrame>) -> Seq<FrameView> {
    Seq::new(spans.len(), |i: int| spans[i]@)
}

} // verus!
