use payout_distributor::callback::{
    build_cancel_payload, decimal_text, plan_dispatch, record_attempt, response_result, transport_failure,
    CallbackDispatchResult, DispatchPlan, MISSING_URL,
};
use payout_distributor::cancel::{cancel, cancel_notification, cancel_report, CancelError, PayoutDetails};
use payout_distributor::status::PayoutStatus;

fn details(status: PayoutStatus) -> PayoutDetails {
    PayoutDetails {
        id: "p-1".to_string(),
        numeric_id: 17,
        amount: 150_000,
        amount_usdt: 1_650,
        status,
        wallet: "4100".to_string(),
        bank: "bank".to_string(),
        external_reference: Some("ext".to_string()),
        merchant_id: "m-1".to_string(),
        merchant_webhook_url: None,
        merchant_metadata: None,
        proof_files: Some(vec!["a.png".to_string()]),
        dispute_files: None,
        dispute_message: None,
        cancel_reason: Some("old".to_string()),
        cancel_reason_code: Some("OLD".to_string()),
        trader_id: None,
        merchant_api_key: Some("key".to_string()),
    }
}

#[test]
fn cancel_completed_is_conflict_without_change() {
    let mut p = details(PayoutStatus::Completed);
    let before = format!("{:?}", p);
    let r = cancel(&mut p, &Some("why".to_string()), &None);
    match &r {
        Err(CancelError::Conflict(PayoutStatus::Completed)) => {}
        other => panic!("unexpected {:?}", other),
    }
    assert_eq!(format!("{:?}", p), before);
    assert_eq!(
        r.unwrap_err().message(),
        "Payout with status COMPLETED cannot be cancelled"
    );
}

#[test]
fn cancel_already_cancelled_message() {
    let mut p = details(PayoutStatus::Cancelled);
    let e = cancel(&mut p, &None, &None).unwrap_err();
    assert_eq!(e.message(), "Payout is already cancelled");
    assert_eq!(CancelError::NotFound.message(), "Payout not found");
}

#[test]
fn terminal_statuses_all_refuse() {
    for s in [PayoutStatus::Success, PayoutStatus::Failed] {
        let mut p = details(s);
        assert!(cancel(&mut p, &None, &None).is_err());
    }
}

#[test]
fn cancel_created_applies_trimmed_reason() {
    let mut p = details(PayoutStatus::Created);
    let u = cancel(&mut p, &Some("  too late  ".to_string()), &Some("   ".to_string())).unwrap();
    assert_eq!(u.reason.as_deref(), Some("too late"));
    assert_eq!(u.reason_code, None);
    assert!(matches!(p.status, PayoutStatus::Cancelled));
    assert_eq!(p.cancel_reason.as_deref(), Some("too late"));
    assert_eq!(p.cancel_reason_code.as_deref(), Some("OLD"));
}

#[test]
fn cancel_in_flight_status() {
    let mut p = details(PayoutStatus::parse("ACTIVE"));
    assert!(cancel(&mut p, &None, &None).is_ok());
    assert_eq!(p.status.name(), "CANCELLED");
}

#[test]
fn status_names_round_trip() {
    for name in ["CREATED", "CANCELLED", "COMPLETED", "SUCCESS", "FAILED", "CHECKING"] {
        assert_eq!(PayoutStatus::parse(name).name(), name);
    }
    assert!(PayoutStatus::parse("COMPLETED").is_terminal());
    assert!(!PayoutStatus::parse("CREATED").is_terminal());
}

#[test]
fn missing_webhook_url_is_not_attempted() {
    let mut p = details(PayoutStatus::Created);
    cancel(&mut p, &None, &None).unwrap();
    let payload = build_cancel_payload(&p);
    match plan_dispatch(&p.merchant_webhook_url, &p.merchant_api_key) {
        DispatchPlan::Skip { result, logged_url } => {
            assert!(!result.delivered);
            assert_eq!(result.error.as_deref(), Some("Merchant webhook URL is not configured"));
            assert_eq!(logged_url, MISSING_URL);
            assert_eq!(logged_url, "(missing-webhook-url)");
            let record = record_attempt(&p.id, &logged_url, payload, &result);
            assert_eq!(record.payout_id, "p-1");
            assert_eq!(record.url, "(missing-webhook-url)");
            assert_eq!(record.error.as_deref(), Some("Merchant webhook URL is not configured"));
            assert_eq!(record.status_code, None);
            assert_eq!(record.response, None);
            assert_eq!(record.id.len(), 36);
            let report = cancel_report(&result);
            assert!(report.success);
            assert!(!report.callback_dispatched);
            assert_eq!(report.status, "CANCELED");
        }
        DispatchPlan::Send { .. } => panic!("nothing should be sent"),
    }
}

#[test]
fn blank_url_counts_as_missing() {
    let plan = plan_dispatch(&Some("   ".to_string()), &Some("k".to_string()));
    assert!(matches!(plan, DispatchPlan::Skip { .. }));
}

#[test]
fn missing_key_is_not_attempted() {
    match plan_dispatch(&Some(" https://m.example/cb ".to_string()), &Some(" ".to_string())) {
        DispatchPlan::Skip { result, logged_url } => {
            assert_eq!(logged_url, "https://m.example/cb");
            assert_eq!(result.url.as_deref(), Some("https://m.example/cb"));
            assert_eq!(result.error.as_deref(), Some("Merchant API key is not configured"));
        }
        DispatchPlan::Send { .. } => panic!("nothing should be sent"),
    }
}

#[test]
fn both_present_sends_trimmed() {
    match plan_dispatch(&Some(" https://m.example/cb".to_string()), &Some("key ".to_string())) {
        DispatchPlan::Send { url, api_key } => {
            assert_eq!(url, "https://m.example/cb");
            assert_eq!(api_key, "key");
        }
        DispatchPlan::Skip { .. } => panic!("should send"),
    }
}

#[test]
fn response_outcomes() {
    let ok = response_result("u".to_string(), 204, String::new());
    assert!(ok.was_delivered());
    assert_eq!(ok.status_code, Some(204));
    assert_eq!(ok.response_body, None);
    assert_eq!(ok.error, None);
    let bad = response_result("u".to_string(), 503, "down".to_string());
    assert!(!bad.delivered);
    assert_eq!(bad.error.as_deref(), Some("HTTP 503"));
    assert_eq!(bad.response_body.as_deref(), Some("down"));
    let redirect = response_result("u".to_string(), 300, String::new());
    assert!(!redirect.delivered);
    let edge = response_result("u".to_string(), 299, String::new());
    assert!(edge.delivered);
    let t = transport_failure("u".to_string(), "timed out".to_string());
    assert!(!t.delivered);
    assert_eq!(t.error.as_deref(), Some("timed out"));
}

#[test]
fn decimal_digits() {
    assert_eq!(decimal_text(0), "0");
    assert_eq!(decimal_text(7), "7");
    assert_eq!(decimal_text(404), "404");
    assert_eq!(decimal_text(65535), "65535");
}

#[test]
fn payload_describes_cancellation() {
    let mut p = details(PayoutStatus::Created);
    cancel(&mut p, &Some("r".to_string()), &Some("C1".to_string())).unwrap();
    let payload = build_cancel_payload(&p);
    assert_eq!(payload.event, "CANCELED");
    assert_eq!(payload.payout.status, "CANCELED");
    assert_eq!(payload.payout.id, "p-1");
    assert_eq!(payload.payout.amount, 150_000);
    assert_eq!(payload.payout.proof_files, vec!["a.png".to_string()]);
    assert!(payload.payout.dispute_files.is_empty());
    assert_eq!(payload.payout.cancel_reason.as_deref(), Some("r"));
    assert_eq!(payload.payout.cancel_reason_code.as_deref(), Some("C1"));
    assert_eq!(payload.payout.metadata, serde_json::Value::Object(serde_json::Map::new()));
}

#[test]
fn payload_keeps_metadata() {
    let mut p = details(PayoutStatus::Created);
    p.merchant_metadata = Some(serde_json::Value::String("order-9".to_string()));
    let payload = build_cancel_payload(&p);
    assert_eq!(payload.payout.metadata, serde_json::Value::String("order-9".to_string()));
}

#[test]
fn not_attempted_fields() {
    let r = CallbackDispatchResult::not_attempted("why".to_string(), None);
    assert!(!r.was_delivered());
    assert_eq!(r.error.as_deref(), Some("why"));
    assert_eq!(r.url, None);
}

#[test]
fn cancel_publishes_manual_cancel() {
    let e = cancel_notification();
    assert_eq!(e.event_type, "payouts-updated");
    assert_eq!(e.message.as_deref(), Some("source=manual-cancel"));
}
