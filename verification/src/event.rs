//! One line of the subprocess's stdout, parsed into the plain fields the
//! aggregator reads. The subprocess speaks newline-delimited JSON; a line
//! that is blank or malformed parses to nothing and is skipped.

use vstd::prelude::*;

verus! {

/// The fields of one stdout event that the aggregation rules consume.
/// Every field is duck-typed: it is present exactly when the document
/// carries it as a string at the top level. `raw` holds the document as
/// its re-serialization, whose byte length keys the archive cap.
pub struct ParsedEvent {
    pub session_id: Option<String>,
    pub event_type: Option<String>,
    pub message: Option<String>,
    pub final_text: Option<String>,
    pub role: Option<String>,
    pub text: Option<String>,
    pub raw: String,
}

/// The mathematical image of a parsed event.
pub ghost struct EventView {
    pub session_id: Option<Seq<char>>,
    pub event_type: Option<Seq<char>>,
    pub message: Option<Seq<char>>,
    pub final_text: Option<Seq<char>>,
    pub role: Option<Seq<char>>,
    pub text: Option<Seq<char>>,
    pub raw: Seq<char>,
}

impl View for ParsedEvent {
    type V = EventView;

    open spec fn view(&self) -> EventView {
        EventView {
            session_id: self.session_id.deep_view(),
            event_type: self.event_type.deep_view(),
            message: self.message.deep_view(),
            final_text: self.final_text.deep_view(),
            role: self.role.deep_view(),
            text: self.text.deep_view(),
            raw: self.raw.view(),
        }
    }
}

/// What one stdout line parses to. JSON parsing is deterministic in the
/// line's characters alone, so the result only gets a name here: `None`
/// stands for a blank or malformed line, which the drain skips.
pub uninterp spec fn parsed_event_of(line: Seq<char>) -> Option<EventView>;

/// Relies on serde_json::from_str to read one JSON document per line (a
/// blank or malformed line fails and yields `None`), on serde_json::Value's
/// `get`/`as_str` to pick out the recognized string fields, and on
/// serde_json::to_string for the re-serialization held in `raw`. All of
/// these depend on the line's characters alone.
#[verifier::external_body]
pub fn parse_event_line(line: &str) -> (r: Option<ParsedEvent>)
    ensures
        r is Some <==> parsed_event_of(line@) is Some,
        r matches Some(e) ==> parsed_event_of(line@) == Some(e@),
{
    let v: serde_json::Value = serde_json::from_str(line).ok()?;
    let s = |k: &str| v.get(k).and_then(serde_json::Value::as_str).map(str::to_string);
    Some(ParsedEvent {
        session_id: s("session_id"),
        event_type: s("type"),
        message: s("message"),
        final_text: s("finalText"),
        role: s("role"),
        text: s("text"),
        raw: serde_json::to_string(&v).unwrap_or(String::new()),
    })
}

} // verus!
