use vstd::prelude::*;
use vstd::string::*;

verus! {

/// A lightweight change notification broadcast to live subscribers.
#[derive(Debug, Clone)]
pub struct ServerEvent {
    pub event_type: String,
    pub message: Option<String>,
}

/// The text carried by an event's optional message, if any.
pub open spec fn message_text(e: ServerEvent) -> Option<Seq<char>> {
    match e.message {
        Some(m) => Some(m@),
        None => None,
    }
}

/// A "payouts updated" notification tagged with `source`.
pub open spec fn payouts_updated_from(e: ServerEvent, source: Seq<char>) -> bool {
    e.event_type@ == "payouts-updated"@ && message_text(e) == Some("source="@ + source)
}

impl ServerEvent {
    pub fn new(event_type: String, message: Option<String>) -> (r: ServerEvent)
        ensures
            r.event_type@ == event_type@,
            r.message == message,
    {
        ServerEvent { event_type, message }
    }

    /// Payouts changed; `source` names what triggered the change
    /// (`manual`, `auto`, `manual-cancel`).
    pub fn payouts_updated(source: &str) -> (r: ServerEvent)
        ensures
            payouts_updated_from(r, source@),
    {
        let mut text = String::from_str("source=");
        text.append(source);
        ServerEvent::new(String::from_str("payouts-updated"), Some(text))
    }

    pub fn traders_updated() -> (r: ServerEvent)
        ensures
            r.event_type@ == "traders-updated"@,
            r.message is None,
    {
        ServerEvent::new(String::from_str("traders-updated"), None)
    }

    pub fn settings_updated() -> (r: ServerEvent)
        ensures
            r.event_type@ == "settings-updated"@,
            r.message is None,
    {
        ServerEvent::new(String::from_str("settings-updated"), None)
    }

    pub fn limits_updated() -> (r: ServerEvent)
        ensures
            r.event_type@ == "limits-updated"@,
            r.message is None,
    {
        ServerEvent::new(String::from_str("limits-updated"), None)
    }
}

} // verus!
