use payout_distributor::policy::Worker;
use payout_distributor::registry::CapacityRegistry;

#[test]
fn set_and_read_limits() {
    let mut reg = CapacityRegistry::new();
    assert_eq!(reg.limit_of("w1"), None);
    assert_eq!(reg.set_limit("w1", Some(100_000)), Some(100_000));
    assert_eq!(reg.set_limit("w2", Some(500)), Some(500));
    assert_eq!(reg.limit_of("w1"), Some(100_000));
    assert_eq!(reg.limit_of("w2"), Some(500));
    assert_eq!(reg.set_limit("w1", Some(700)), Some(700));
    assert_eq!(reg.limit_of("w1"), Some(700));
}

#[test]
fn non_positive_limit_clears() {
    let mut reg = CapacityRegistry::new();
    reg.set_limit("w1", Some(100));
    assert_eq!(reg.set_limit("w1", Some(0)), None);
    assert_eq!(reg.limit_of("w1"), None);
    reg.set_limit("w1", Some(100));
    assert_eq!(reg.set_limit("w1", Some(-3)), None);
    assert_eq!(reg.limit_of("w1"), None);
    reg.set_limit("w1", Some(100));
    assert_eq!(reg.set_limit("w1", None), None);
    assert_eq!(reg.limit_of("w1"), None);
}

#[test]
fn limits_attach_to_workers() {
    let mut reg = CapacityRegistry::new();
    reg.set_limit("b", Some(42));
    let workers = vec![
        Worker { id: "a".to_string(), numeric_id: 1, max_amount: Some(9) },
        Worker { id: "b".to_string(), numeric_id: 2, max_amount: None },
    ];
    let out = reg.apply_to(workers);
    assert_eq!(out[0].id, "a");
    assert_eq!(out[0].max_amount, None);
    assert_eq!(out[1].numeric_id, 2);
    assert_eq!(out[1].max_amount, Some(42));
}
