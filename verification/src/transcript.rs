//! Transcript events as the speech service reports them.
//!
//! An inbound frame is a JSON object with a `type` member. Two values of it
//! are recognised, `partial_transcript` and `final_transcript`; the transcript
//! itself is the `text` member. Only a final transcript with a non-empty text
//! is forwarded; partial ones are observed and dropped.

use vstd::prelude::*;

verus! {

/// Name of the member that tells the kind of an inbound frame.
pub const TYPE_MEMBER: &'static str = "type";

/// Name of the member that carries the transcript.
pub const TEXT_MEMBER: &'static str = "text";

/// Value of the `type` member of a partial transcript.
pub const PARTIAL_TRANSCRIPT: &'static str = "partial_transcript";

/// Value of the `type` member of a final transcript.
pub const FINAL_TRANSCRIPT: &'static str = "final_transcript";

#[verifier::external_type_specification]
#[verifier::external_body]
pub struct ExJsonValue(serde_json::Value);

/// The members of a JSON value that are strings, by member name. A value
/// that is no object has none.
pub uninterp spec fn json_text_members(document: serde_json::Value) -> Map<Seq<char>, Seq<char>>;

/// The string members of the JSON document that `text` spells, or `None`
/// where `text` is not JSON.
pub uninterp spec fn json_document(text: Seq<char>) -> Option<Map<Seq<char>, Seq<char>>>;

/// Calls `serde_json::from_str` for a `serde_json::Value`. Trusted: whether
/// the text parses, and which string members the parsed value has, depend on
/// the text alone.
#[verifier::external_body]
fn parse_json(text: &str) -> (parsed: Option<serde_json::Value>)
    ensures
        match parsed {
            Some(document) => json_document(text@) == Some(json_text_members(document)),
            None => json_document(text@) is None,
        },
{
    serde_json::from_str::<serde_json::Value>(text).ok()
}

/// Calls `serde_json::Value::get` with a member name and
/// `serde_json::Value::as_str` on what it finds. Trusted: the result is the
/// member of that name where the value is an object that has it as a string,
/// and `None` otherwise.
#[verifier::external_body]
fn json_text_member(document: &serde_json::Value, name: &str) -> (member: Option<String>)
    ensures
        match member {
            Some(text) => json_text_members(*document).contains_key(name@) && json_text_members(
                *document,
            )[name@] == text@,
            None => !json_text_members(*document).contains_key(name@),
        },
{
    document.get(name).and_then(|value| value.as_str()).map(|text| text.to_string())
}

/// Kind of a transcript event.
#[derive(Debug, Clone, Copy, PartialEq, Eq, Structural)]
pub enum TranscriptKind {
    Partial,
    Final,
}

/// One transcript event received from the service.
#[derive(Debug, Clone, PartialEq, Eq)]
pub struct TranscriptEvent {
    pub kind: TranscriptKind,
    pub text: Option<String>,
}

/// Mathematical model of a [`TranscriptEvent`].
pub struct TranscriptEventModel {
    pub kind: TranscriptKind,
    pub text: Option<Seq<char>>,
}

/// The kind that a value of the `type` member stands for, if any.
pub open spec fn kind_of_type(name: Seq<char>) -> Option<TranscriptKind> {
    if name == PARTIAL_TRANSCRIPT@ {
        Some(TranscriptKind::Partial)
    } else if name == FINAL_TRANSCRIPT@ {
        Some(TranscriptKind::Final)
    } else {
        None
    }
}

/// The event that a frame's `type` and `text` members describe.
pub open spec fn event_of_fields(type_value: Seq<char>, text: Option<Seq<char>>) -> Option<
    TranscriptEventModel,
> {
    match kind_of_type(type_value) {
        Some(kind) => Some(TranscriptEventModel { kind, text }),
        None => None,
    }
}

/// The event that a parsed document describes: none without a string `type`
/// member of a recognised value.
pub open spec fn event_of_document(document: Option<Map<Seq<char>, Seq<char>>>) -> Option<
    TranscriptEventModel,
> {
    match document {
        Some(members) => if members.contains_key(TYPE_MEMBER@) {
            event_of_fields(
                members[TYPE_MEMBER@],
                if members.contains_key(TEXT_MEMBER@) {
                    Some(members[TEXT_MEMBER@])
                } else {
                    None
                },
            )
        } else {
            None
        },
        None => None,
    }
}

impl TranscriptEventModel {
    /// The text that is handed on for injection: that of a final event, when
    /// there is one and it is not empty.
    pub open spec fn forwarded(self) -> Option<Seq<char>> {
        match self.text {
            Some(text) => if self.kind == TranscriptKind::Final && text.len() > 0 {
                Some(text)
            } else {
                None
            },
            None => None,
        }
    }
}

/// The text to forward for an event that may be absent.
pub open spec fn forwarded_of(event: Option<TranscriptEventModel>) -> Option<Seq<char>> {
    match event {
        Some(event) => event.forwarded(),
        None => None,
    }
}

/// View of an optional string.
pub open spec fn text_view(text: Option<String>) -> Option<Seq<char>> {
    match text {
        Some(text) => Some(text@),
        None => None,
    }
}

impl View for TranscriptEvent {
    type V = TranscriptEventModel;

    open spec fn view(&self) -> TranscriptEventModel {
        TranscriptEventModel { kind: self.kind, text: text_view(self.text) }
    }
}

/// View of an optional event.
pub open spec fn event_view(event: Option<TranscriptEvent>) -> Option<TranscriptEventModel> {
    match event {
        Some(event) => Some(event@),
        None => None,
    }
}

impl TranscriptKind {
    /// Reads the kind from the value of a frame's `type` member.
    pub fn from_type_value(name: &str) -> (kind: Option<TranscriptKind>)
        ensures
            kind == kind_of_type(name@),
    {
        let given = String::from_str(name);
        if given == String::from_str(PARTIAL_TRANSCRIPT) {
            Some(TranscriptKind::Partial)
        } else if given == String::from_str(FINAL_TRANSCRIPT) {
            Some(TranscriptKind::Final)
        } else {
            None
        }
    }
}

impl TranscriptEvent {
    /// Builds the event that a frame's `type` and `text` members describe.
    pub fn from_fields(type_value: &str, text: Option<String>) -> (event: Option<TranscriptEvent>)
        ensures
            event_view(event) == event_of_fields(type_value@, text_view(text)),
    {
        match TranscriptKind::from_type_value(type_value) {
            Some(kind) => Some(TranscriptEvent { kind, text }),
            None => None,
        }
    }

    /// Parses an inbound text frame. Frames that are not JSON, or that carry
    /// no recognised `type`, yield no event.
    pub fn parse(frame: &str) -> (event: Option<TranscriptEvent>)
        ensures
            event_view(event) == event_of_document(json_document(frame@)),
    {
        match parse_json(frame) {
            Some(document) => match json_text_member(&document, TYPE_MEMBER) {
                Some(type_value) => {
                    let text = json_text_member(&document, TEXT_MEMBER);
                    TranscriptEvent::from_fields(type_value.as_str(), text)
                },
                None => None,
            },
            None => None,
        }
    }

    /// The text to hand on for injection, if this event carries one.
    pub fn forwarded_text(self) -> (text: Option<String>)
        ensures
            text_view(text) == self@.forwarded(),
    {
        match self.kind {
            TranscriptKind::Final => match self.text {
                Some(text) => if text.as_str().is_empty() {
                    None
                } else {
                    Some(text)
                },
                None => None,
            },
            TranscriptKind::Partial => None,
        }
    }
}

} // verus!
