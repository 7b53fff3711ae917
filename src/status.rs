//! The lifecycle status of a payout, as the store names it.
use vstd::prelude::*;
use vstd::string::*;
use crate::text::same_text;

verus! {

#[derive(Debug, Clone)]
pub enum PayoutStatus {
    Created,
    Cancelled,
    Completed,
    Success,
    Failed,
    /// Any other (in-flight) status, by its name.
    Other(String),
}

/// The store's name of each known status.
pub open spec fn known_name(s: PayoutStatus) -> Seq<char> {
    match s {
        PayoutStatus::Created => "CREATED"@,
        PayoutStatus::Cancelled => "CANCELLED"@,
        PayoutStatus::Completed => "COMPLETED"@,
        PayoutStatus::Success => "SUCCESS"@,
        PayoutStatus::Failed => "FAILED"@,
        PayoutStatus::Other(name) => name@,
    }
}

pub open spec fn is_known_name(t: Seq<char>) -> bool {
    t == "CREATED"@ || t == "CANCELLED"@ || t == "COMPLETED"@ || t == "SUCCESS"@ || t == "FAILED"@
}

/// Well formed: an `Other` status never carries one of the known names.
pub open spec fn status_wf(s: PayoutStatus) -> bool {
    s matches PayoutStatus::Other(name) ==> !is_known_name(name@)
}

/// Statuses from which no further transition is made.
pub open spec fn is_terminal(s: PayoutStatus) -> bool {
    match s {
        PayoutStatus::Cancelled | PayoutStatus::Completed | PayoutStatus::Success | PayoutStatus::Failed => true,
        _ => false,
    }
}

impl PayoutStatus {
    /// Reads a status from the store's name of it.
    pub fn parse(text: &str) -> (r: PayoutStatus)
        ensures
            known_name(r) == text@,
            status_wf(r),
    {
        proof {
            reveal_strlit("CREATED");
            reveal_strlit("CANCELLED");
            reveal_strlit("COMPLETED");
            reveal_strlit("SUCCESS");
            reveal_strlit("FAILED");
        }
        if same_text(text, "CREATED") {
            PayoutStatus::Created
        } else if same_text(text, "CANCELLED") {
            PayoutStatus::Cancelled
        } else if same_text(text, "COMPLETED") {
            PayoutStatus::Completed
        } else if same_text(text, "SUCCESS") {
            PayoutStatus::Success
        } else if same_text(text, "FAILED") {
            PayoutStatus::Failed
        } else {
            PayoutStatus::Other(String::from_str(text))
        }
    }

    /// The store's name of this status.
    pub fn name(&self) -> (r: String)
        ensures
            r@ == known_name(*self),
    {
        match self {
            PayoutStatus::Created => String::from_str("CREATED"),
            PayoutStatus::Cancelled => String::from_str("CANCELLED"),
            PayoutStatus::Completed => String::from_str("COMPLETED"),
            PayoutStatus::Success => String::from_str("SUCCESS"),
            PayoutStatus::Failed => String::from_str("FAILED"),
            PayoutStatus::Other(name) => name.clone(),
        }
    }

    /// A copy of this status.
    pub fn duplicate(&self) -> (r: PayoutStatus)
        ensures
            r == *self,
    {
        match self {
            PayoutStatus::Created => PayoutStatus::Created,
            PayoutStatus::Cancelled => PayoutStatus::Cancelled,
            PayoutStatus::Completed => PayoutStatus::Completed,
            PayoutStatus::Success => PayoutStatus::Success,
            PayoutStatus::Failed => PayoutStatus::Failed,
            PayoutStatus::Other(name) => PayoutStatus::Other(name.clone()),
        }
    }

    pub fn is_terminal(&self) -> (r: bool)
        ensures
            r == is_terminal(*self),
    {
        match self {
            PayoutStatus::Cancelled | PayoutStatus::Completed | PayoutStatus::Success | PayoutStatus::Failed => true,
            _ => false,
        }
    }
}

} // verus!
