//! The progress events a conversation publishes, one per visible step.
use vstd::prelude::*;
use crate::text::owned;

verus! {

/// The kinds of progress event.
#[derive(Debug, Clone, Copy, PartialEq, Eq, Structural)]
pub enum EventKind {
    /// The query was received and understood.
    ProcessQuery,
    SearchDocuments,
    SearchFile,
    SearchPath,
    /// The final answer is being written.
    GenerateResponse,
    /// The final answer; ends the stream.
    Done,
    /// The conversation failed; ends the stream.
    Error,
}

/// The tag under which an event kind is published.
pub open spec fn event_tag(k: EventKind) -> Seq<char> {
    match k {
        EventKind::ProcessQuery => "PROCESS_QUERY"@,
        EventKind::SearchDocuments => "SEARCH_DOCUMENTS"@,
        EventKind::SearchFile => "SEARCH_FILE"@,
        EventKind::SearchPath => "SEARCH_PATH"@,
        EventKind::GenerateResponse => "GENERATE_RESPONSE"@,
        EventKind::Done => "DONE"@,
        EventKind::Error => "ERROR"@,
    }
}

/// A progress event: its kind and an optional JSON payload.
#[derive(Debug, Clone)]
pub struct QueryEvent {
    pub kind: EventKind,
    pub data: Option<String>,
}

/// Whether `e` is of kind `k` with the payload `data`.
pub open spec fn event_is(e: QueryEvent, k: EventKind, data: Option<Seq<char>>) -> bool {
    e.kind == k && e.data.deep_view() == data
}

/// The payload as published: `null` when there is none.
pub open spec fn payload_text(data: Option<Seq<char>>) -> Seq<char> {
    match data {
        Some(d) => d,
        None => "null"@,
    }
}

/// Whether an event of this kind ends the stream.
pub open spec fn is_terminal_kind(k: EventKind) -> bool {
    k is Done || k is Error
}

impl QueryEvent {
    /// The tag under which this event is published.
    pub fn event(&self) -> (r: &'static str)
        ensures
            r@ == event_tag(self.kind),
    {
        match self.kind {
            EventKind::ProcessQuery => "PROCESS_QUERY",
            EventKind::SearchDocuments => "SEARCH_DOCUMENTS",
            EventKind::SearchFile => "SEARCH_FILE",
            EventKind::SearchPath => "SEARCH_PATH",
            EventKind::GenerateResponse => "GENERATE_RESPONSE",
            EventKind::Done => "DONE",
            EventKind::Error => "ERROR",
        }
    }

    /// The payload as published.
    pub fn data_text(&self) -> (r: String)
        ensures
            r@ == payload_text(self.data.deep_view()),
    {
        match &self.data {
            Some(d) => d.clone(),
            None => owned("null"),
        }
    }

    /// Whether this event ends the stream.
    pub fn is_terminal(&self) -> (r: bool)
        ensures
            r == is_terminal_kind(self.kind),
    {
        match self.kind {
            EventKind::Done | EventKind::Error => true,
            _ => false,
        }
    }
}

} // verus!
