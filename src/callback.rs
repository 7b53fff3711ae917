//! The callback dispatcher's decisions: whether a status-change notification
//! can be sent, what it says, how a delivery attempt turned out, and the
//! audit record kept of every attempt.
use vstd::prelude::*;
use vstd::string::*;
use crate::cancel::PayoutDetails;
use crate::json::empty_object;
use crate::text::{non_blank, opt_text, present};

verus! {

/// The request header that carries the merchant's credential.
pub const API_KEY_HEADER: &'static str = "x-merchant-api-key";

/// The destination recorded when no webhook URL is configured.
pub const MISSING_URL: &'static str = "(missing-webhook-url)";

/// The event name and status that a cancellation notification carries.
pub const CANCELED: &'static str = "CANCELED";

#[derive(Debug, Clone)]
pub struct CallbackDispatchResult {
    pub delivered: bool,
    pub status_code: Option<u16>,
    pub response_body: Option<String>,
    pub error: Option<String>,
    pub url: Option<String>,
}

/// What to do with a notification.
#[derive(Debug, Clone)]
pub enum DispatchPlan {
    /// Nothing is sent; `result` is logged against `logged_url`.
    Skip { result: CallbackDispatchResult, logged_url: String },
    /// Send to `url`, with `api_key` in the credential header.
    Send { url: String, api_key: String },
}

/// The notification payload.
#[derive(Debug)]
pub struct CallbackPayload {
    pub event: String,
    pub payout: CallbackBody,
}

/// The payout as the notification describes it. Amounts are in minor
/// currency units.
#[derive(Debug)]
pub struct CallbackBody {
    pub id: String,
    pub bank: String,
    pub amount: i64,
    pub status: String,
    pub wallet: String,
    pub metadata: serde_json::Value,
    pub numeric_id: i32,
    pub amount_usdt: i64,
    pub proof_files: Vec<String>,
    pub cancel_reason: Option<String>,
    pub dispute_files: Vec<String>,
    pub dispute_message: Option<String>,
    pub cancel_reason_code: Option<String>,
    pub external_reference: Option<String>,
}

/// One entry of the append-only audit trail of delivery attempts.
#[derive(Debug)]
pub struct CallbackAttempt {
    pub id: String,
    pub payout_id: String,
    pub url: String,
    pub payload: CallbackPayload,
    pub response: Option<String>,
    pub status_code: Option<i32>,
    pub error: Option<String>,
}

/// A result with nothing sent: not delivered, for the given reason.
pub open spec fn is_not_attempted(r: CallbackDispatchResult, reason: Seq<char>, url: Option<Seq<char>>) -> bool {
    &&& !r.delivered
    &&& r.status_code is None
    &&& r.response_body is None
    &&& opt_text(r.error) == Some(reason)
    &&& opt_text(r.url) == url
}

/// A status in the success class.
pub open spec fn is_success_code(code: int) -> bool {
    200 <= code < 300
}

pub open spec fn digit_text(d: int) -> Seq<char> {
    if d == 0 { "0"@ }
    else if d == 1 { "1"@ }
    else if d == 2 { "2"@ }
    else if d == 3 { "3"@ }
    else if d == 4 { "4"@ }
    else if d == 5 { "5"@ }
    else if d == 6 { "6"@ }
    else if d == 7 { "7"@ }
    else if d == 8 { "8"@ }
    else { "9"@ }
}

/// The decimal digits of `n`.
pub open spec fn decimal(n: nat) -> Seq<char>
    decreases n,
{
    if n < 10 {
        digit_text(n as int)
    } else {
        decimal(n / 10) + digit_text((n % 10) as int)
    }
}

pub open spec fn files_of(f: Option<Vec<String>>) -> Seq<String> {
    match f {
        Some(v) => v@,
        None => Seq::empty(),
    }
}

fn digit_string(d: u16) -> (r: String)
    requires
        d < 10,
    ensures
        r@ == digit_text(d as int),
{
    if d == 0 { String::from_str("0") }
    else if d == 1 { String::from_str("1") }
    else if d == 2 { String::from_str("2") }
    else if d == 3 { String::from_str("3") }
    else if d == 4 { String::from_str("4") }
    else if d == 5 { String::from_str("5") }
    else if d == 6 { String::from_str("6") }
    else if d == 7 { String::from_str("7") }
    else if d == 8 { String::from_str("8") }
    else { String::from_str("9") }
}

/// The decimal text of a status code.
pub fn decimal_text(n: u16) -> (r: String)
    ensures
        r@ == decimal(n as nat),
    decreases n,
{
    if n < 10 {
        digit_string(n)
    } else {
        let head = decimal_text(n / 10);
        let last = digit_string(n % 10);
        head.concat(last.as_str())
    }
}

fn copy_text(o: &Option<String>) -> (r: Option<String>)
    ensures
        r == *o,
{
    match o {
        Some(s) => Some(s.clone()),
        None => None,
    }
}

fn copy_files(o: &Option<Vec<String>>) -> (r: Vec<String>)
    ensures
        r@ == files_of(*o),
{
    let mut r: Vec<String> = Vec::new();
    match o {
        Some(v) => {
            let mut i: usize = 0;
            while i < v.len()
                invariant
                    i <= v@.len(),
                    r@ == v@.take(i as int),
                decreases v.len() - i,
            {
                r.push(v[i].clone());
                assert(r@ =~= v@.take(i + 1));
                i += 1;
            }
            assert(v@.take(v@.len() as int) =~= v@);
        },
        None => {
            assert(r@ =~= Seq::<String>::empty());
        },
    }
    r
}

impl CallbackDispatchResult {
    /// A result for a notification that was not sent, for `reason`.
    pub fn not_attempted(reason: String, url: Option<String>) -> (r: CallbackDispatchResult)
        ensures
            is_not_attempted(r, reason@, opt_text(url)),
    {
        CallbackDispatchResult { delivered: false, status_code: None, response_body: None, error: Some(reason), url }
    }

    pub fn was_delivered(&self) -> (r: bool)
        ensures
            r == self.delivered,
    {
        self.delivered
    }
}

/// Checks the preconditions of delivery, in order: a webhook URL, then a
/// credential, each trimmed and non-blank. The first one missing makes a
/// "not attempted" result that names it.
pub fn plan_dispatch(webhook_url: &Option<String>, api_key: &Option<String>) -> (r: DispatchPlan)
    ensures
        ({
            let url = match *webhook_url { Some(u) => present(u@), None => None };
            let key = match *api_key { Some(k) => present(k@), None => None };
            match r {
                DispatchPlan::Skip { result, logged_url } => match url {
                    None => is_not_attempted(result, "Merchant webhook URL is not configured"@, Some(MISSING_URL@))
                        && logged_url@ == MISSING_URL@,
                    Some(u) => key is None && is_not_attempted(result, "Merchant API key is not configured"@, Some(u))
                        && logged_url@ == u,
                },
                DispatchPlan::Send { url: u, api_key: k } => url == Some(u@) && key == Some(k@),
            }
        }),
{
    let url = non_blank(webhook_url);
    match url {
        None => DispatchPlan::Skip {
            result: CallbackDispatchResult::not_attempted(
                String::from_str("Merchant webhook URL is not configured"),
                Some(String::from_str(MISSING_URL)),
            ),
            logged_url: String::from_str(MISSING_URL),
        },
        Some(u) => match non_blank(api_key) {
            None => DispatchPlan::Skip {
                result: CallbackDispatchResult::not_attempted(
                    String::from_str("Merchant API key is not configured"),
                    Some(u.clone()),
                ),
                logged_url: u,
            },
            Some(k) => DispatchPlan::Send { url: u, api_key: k },
        },
    }
}

/// The result of a request that got a response: delivered exactly for a
/// success status; otherwise the error names the status. An empty body is
/// recorded as none.
pub fn response_result(url: String, status_code: u16, body: String) -> (r: CallbackDispatchResult)
    ensures
        r.delivered == is_success_code(status_code as int),
        r.status_code == Some(status_code),
        opt_text(r.response_body) == (if body@.len() == 0 { None } else { Some(body@) }),
        opt_text(r.error) == (if is_success_code(status_code as int) { None } else { Some("HTTP "@ + decimal(status_code as nat)) }),
        opt_text(r.url) == Some(url@),
{
    let delivered = 200 <= status_code && status_code < 300;
    let error = if delivered {
        None
    } else {
        Some(String::from_str("HTTP ").concat(decimal_text(status_code).as_str()))
    };
    let response_body = if body.as_str().is_empty() {
        None
    } else {
        Some(body)
    };
    CallbackDispatchResult { delivered, status_code: Some(status_code), response_body, error, url: Some(url) }
}

/// The result of a request that failed in transport (timeout, connection).
pub fn transport_failure(url: String, error: String) -> (r: CallbackDispatchResult)
    ensures
        !r.delivered,
        r.status_code is None,
        r.response_body is None,
        opt_text(r.error) == Some(error@),
        opt_text(r.url) == Some(url@),
{
    CallbackDispatchResult { delivered: false, status_code: None, response_body: None, error: Some(error), url: Some(url) }
}

/// The notification of a cancellation: event and status `CANCELED`, the
/// payout's fields, its metadata (an empty object when it has none) and its
/// file lists (empty when absent).
pub fn build_cancel_payload(payout: &PayoutDetails) -> (r: CallbackPayload)
    ensures
        r.event@ == CANCELED@,
        r.payout.status@ == CANCELED@,
        r.payout.id == payout.id,
        r.payout.bank == payout.bank,
        r.payout.wallet == payout.wallet,
        r.payout.amount == payout.amount,
        r.payout.amount_usdt == payout.amount_usdt,
        r.payout.numeric_id == payout.numeric_id,
        payout.merchant_metadata matches Some(m) ==> r.payout.metadata == m,
        r.payout.proof_files@ == files_of(payout.proof_files),
        r.payout.dispute_files@ == files_of(payout.dispute_files),
        r.payout.cancel_reason == payout.cancel_reason,
        r.payout.cancel_reason_code == payout.cancel_reason_code,
        r.payout.dispute_message == payout.dispute_message,
        r.payout.external_reference == payout.external_reference,
{
    let metadata = match &payout.merchant_metadata {
        Some(m) => m.clone(),
        None => empty_object(),
    };
    CallbackPayload {
        event: String::from_str(CANCELED),
        payout: CallbackBody {
            id: payout.id.clone(),
            bank: payout.bank.clone(),
            amount: payout.amount,
            status: String::from_str(CANCELED),
            wallet: payout.wallet.clone(),
            metadata,
            numeric_id: payout.numeric_id,
            amount_usdt: payout.amount_usdt,
            proof_files: copy_files(&payout.proof_files),
            cancel_reason: copy_text(&payout.cancel_reason),
            dispute_files: copy_files(&payout.dispute_files),
            dispute_message: copy_text(&payout.dispute_message),
            cancel_reason_code: copy_text(&payout.cancel_reason_code),
            external_reference: copy_text(&payout.external_reference),
        },
    }
}

/// Relies on `uuid::Uuid::new_v4` and its `Display`, which writes the
/// hyphenated form: a fresh random identity of 36 characters.
#[verifier::external_body]
fn new_record_id() -> (r: String)
    ensures
        r@.len() == 36,
{
    uuid::Uuid::new_v4().to_string()
}

/// The audit record of one attempt (or non-attempt), under a fresh identity.
pub fn record_attempt(payout_id: &str, url: &str, payload: CallbackPayload, result: &CallbackDispatchResult) -> (r: CallbackAttempt)
    ensures
        r.id@.len() == 36,
        r.payout_id@ == payout_id@,
        r.url@ == url@,
        r.payload == payload,
        r.response == result.response_body,
        r.error == result.error,
        r.status_code == match result.status_code {
            Some(c) => Some(c as i32),
            None => None::<i32>,
        },
{
    let status_code = match result.status_code {
        Some(c) => Some(c as i32),
        None => None,
    };
    CallbackAttempt {
        id: new_record_id(),
        payout_id: String::from_str(payout_id),
        url: String::from_str(url),
        payload,
        response: copy_text(&result.response_body),
        status_code,
        error: copy_text(&result.error),
    }
}

} // verus!
