use wallet_services::wallet_webhook::consumer::{first_retry, webhook_event, webhook_notice};

#[test]
fn events_by_operation_and_code() {
    assert_eq!(webhook_event("recharge.create", 0), Some("charge.succeeded".to_string()));
    assert_eq!(webhook_event("recharge.create", 5), Some("charge.failed".to_string()));
    assert_eq!(webhook_event("withdraw.create", 0), Some("withdraw.succeeded".to_string()));
    assert_eq!(webhook_event("withdraw.create", -1), Some("withdraw.failed".to_string()));
    assert_eq!(webhook_event("transfer.create", 0), Some("transfer.succeeded".to_string()));
    assert_eq!(webhook_event("transfer.create", 1), Some("transfer.failed".to_string()));
    assert_eq!(webhook_event("wallet.create", 0), None);
}

#[test]
fn notice_head() {
    let n = webhook_notice("obj-1", 1_600_000_000, "charge.succeeded".to_string());
    assert_eq!(n.id, "obj-1");
    assert_eq!(n.event_type, "event");
    assert_eq!(n.created, 1_600_000_000);
    assert_eq!(n.event, "charge.succeeded");
}

#[test]
fn refused_first_delivery_keys() {
    let r = first_retry(b"obj-1");
    assert_eq!(r.expire_key, b"webhook-expire-obj-1-0".to_vec());
    assert_eq!(r.expire_value, 1);
    assert_eq!(r.seconds, 5);
    assert_eq!(r.context_key, b"webhook-context-obj-1".to_vec());
}
