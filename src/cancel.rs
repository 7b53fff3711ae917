//! Cancellation: the only transition this handler makes is to `CANCELLED`,
//! and never out of a terminal status.
use vstd::prelude::*;
use vstd::string::*;
use crate::callback::{CallbackDispatchResult, CANCELED};
use crate::events::{payouts_updated_from, ServerEvent};
use crate::status::{is_terminal, known_name, PayoutStatus};
use crate::text::{non_blank, opt_text, present};

verus! {

/// A payout as read (and locked) for cancellation, with its merchant's
/// callback settings. Amounts are in minor currency units.
#[derive(Debug)]
pub struct PayoutDetails {
    pub id: String,
    pub numeric_id: i32,
    pub amount: i64,
    pub amount_usdt: i64,
    pub status: PayoutStatus,
    pub wallet: String,
    pub bank: String,
    pub external_reference: Option<String>,
    pub merchant_id: String,
    pub merchant_webhook_url: Option<String>,
    pub merchant_metadata: Option<serde_json::Value>,
    pub proof_files: Option<Vec<String>>,
    pub dispute_files: Option<Vec<String>>,
    pub dispute_message: Option<String>,
    pub cancel_reason: Option<String>,
    pub cancel_reason_code: Option<String>,
    pub trader_id: Option<String>,
    pub merchant_api_key: Option<String>,
}

/// The values written by a cancellation: each one absent leaves the stored
/// value unchanged.
#[derive(Debug, Clone)]
pub struct CancelUpdate {
    pub reason: Option<String>,
    pub reason_code: Option<String>,
}

#[derive(Debug, Clone)]
pub enum CancelError {
    /// No payout has that identity.
    NotFound,
    /// The payout is in a terminal status, which is named.
    Conflict(PayoutStatus),
}

/// The normalised optional text: trimmed, blank counting as absent.
pub open spec fn normalized(o: Option<String>) -> Option<Seq<char>> {
    match o {
        Some(v) => present(v@),
        None => None,
    }
}

/// The fields that a cancellation does not touch are equal.
pub open spec fn same_apart_from_cancellation(a: PayoutDetails, b: PayoutDetails) -> bool {
    &&& a.id == b.id
    &&& a.numeric_id == b.numeric_id
    &&& a.amount == b.amount
    &&& a.amount_usdt == b.amount_usdt
    &&& a.wallet == b.wallet
    &&& a.bank == b.bank
    &&& a.external_reference == b.external_reference
    &&& a.merchant_id == b.merchant_id
    &&& a.merchant_webhook_url == b.merchant_webhook_url
    &&& a.merchant_metadata == b.merchant_metadata
    &&& a.proof_files == b.proof_files
    &&& a.dispute_files == b.dispute_files
    &&& a.dispute_message == b.dispute_message
    &&& a.trader_id == b.trader_id
    &&& a.merchant_api_key == b.merchant_api_key
}

/// The message shown for a refused cancellation.
pub open spec fn cancel_error_message(e: CancelError) -> Seq<char> {
    match e {
        CancelError::NotFound => "Payout not found"@,
        CancelError::Conflict(PayoutStatus::Cancelled) => "Payout is already cancelled"@,
        CancelError::Conflict(s) => "Payout with status "@ + known_name(s) + " cannot be cancelled"@,
    }
}

impl CancelError {
    pub fn message(&self) -> (r: String)
        ensures
            r@ == cancel_error_message(*self),
    {
        match self {
            CancelError::NotFound => String::from_str("Payout not found"),
            CancelError::Conflict(PayoutStatus::Cancelled) => String::from_str("Payout is already cancelled"),
            CancelError::Conflict(s) => {
                let name = s.name();
                String::from_str("Payout with status ").concat(name.as_str()).concat(" cannot be cancelled")
            },
        }
    }
}

/// Cancels a payout: refuses a terminal status with a conflict naming it and
/// leaves the payout untouched; otherwise moves it to `CANCELLED`, replacing
/// the reason and reason code by those given (trimmed; blank ones are ignored).
pub fn cancel(payout: &mut PayoutDetails, reason: &Option<String>, reason_code: &Option<String>) -> (r: Result<CancelUpdate, CancelError>)
    ensures
        is_terminal(old(payout).status) ==> (r matches Err(CancelError::Conflict(s)) && s == old(payout).status
            && *final(payout) == *old(payout)),
        !is_terminal(old(payout).status) ==> (r matches Ok(u) && {
            &&& opt_text(u.reason) == normalized(*reason)
            &&& opt_text(u.reason_code) == normalized(*reason_code)
            &&& final(payout).status == PayoutStatus::Cancelled
            &&& final(payout).cancel_reason == if u.reason is Some { u.reason } else { old(payout).cancel_reason }
            &&& final(payout).cancel_reason_code == if u.reason_code is Some { u.reason_code } else { old(payout).cancel_reason_code }
            &&& same_apart_from_cancellation(*final(payout), *old(payout))
        }),
{
    if payout.status.is_terminal() {
        return Err(CancelError::Conflict(payout.status.duplicate()));
    }
    let reason = non_blank(reason);
    let reason_code = non_blank(reason_code);
    if let Some(v) = &reason {
        payout.cancel_reason = Some(v.clone());
    }
    if let Some(v) = &reason_code {
        payout.cancel_reason_code = Some(v.clone());
    }
    payout.status = PayoutStatus::Cancelled;
    Ok(CancelUpdate { reason, reason_code })
}


/// What a cancellation reports: it succeeded, and separately whether the
/// merchant was notified.
#[derive(Debug, Clone)]
pub struct CancelReport {
    pub success: bool,
    pub status: String,
    pub callback_dispatched: bool,
    pub callback_error: Option<String>,
}

/// The report of a committed cancellation, from the dispatcher's result.
pub fn cancel_report(result: &CallbackDispatchResult) -> (r: CancelReport)
    ensures
        r.success,
        r.status@ == CANCELED@,
        r.callback_dispatched == result.delivered,
        opt_text(r.callback_error) == opt_text(result.error),
{
    CancelReport {
        success: true,
        status: String::from_str(CANCELED),
        callback_dispatched: result.was_delivered(),
        callback_error: match &result.error {
            Some(e) => Some(e.clone()),
            None => None,
        },
    }
}

/// The notification published after a cancellation.
pub fn cancel_notification() -> (r: ServerEvent)
    ensures
        payouts_updated_from(r, "manual-cancel"@),
{
    ServerEvent::payouts_updated("manual-cancel")
}

} // verus!
