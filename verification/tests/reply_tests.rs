use wallet_services::agents::agents::{agreement_created, AgentsRequest};
use wallet_services::amount_computer::get_amount::window_select;
use wallet_services::change_pass::get_status::link_answer;
use wallet_services::listing::{empty_listing, list_page};
use wallet_services::transfer::transfer::{transfer_created, TransferRequest};
use wallet_services::url_notify::send_url::url_answer;
use wallet_services::user_info::get_info::user_info_answer;
use wallet_services::wallet_webhook::consumer::{delivery_accepted, first_delivery};

#[test]
fn created_agreement_answers_the_request() {
    let req = AgentsRequest {
        extra: Some(7u8),
        to_wallet: "w2".to_string(),
        description: None,
        begin_time: 100,
        end_time: 200,
        limit_amount: 50,
        day_limit_amount: Some(10),
        month_limit_amount: None,
        total_limit_amount: Some(500),
    };
    let r = agreement_created(req, "id-1".to_string(), "w1".to_string(), 99);
    assert_eq!((r.code, r.message.as_str()), (0, "success"));
    let d = r.data.unwrap();
    assert_eq!((d.id.as_str(), d.ttype.as_str(), d.created), ("id-1", "agent", 99));
    assert_eq!((d.from_wallet.as_str(), d.to_wallet.as_str()), ("w1", "w2"));
    assert_eq!((d.begin_time, d.end_time, d.limit_amount), (100, 200, 50));
    assert_eq!((d.day_limit_amount, d.month_limit_amount, d.total_limit_amount), (Some(10), None, Some(500)));
    assert_eq!((d.extra, d.description), (Some(7u8), None));
}

#[test]
fn created_transfer_answers_the_request() {
    let req = TransferRequest {
        extra: None::<u8>,
        wallet_id: "from".to_string(),
        to_wallet: "to".to_string(),
        description: Some("rent".to_string()),
    };
    let r = transfer_created(req, "t-1".to_string(), 1234i64);
    assert_eq!((r.code, r.message.as_str()), (0, "success"));
    let d = r.data.unwrap();
    assert_eq!((d.id.as_str(), d.ttype.as_str(), d.created, d.status.as_str()), ("t-1", "transfer", 1234, "created"));
    assert_eq!((d.wallet_id.as_str(), d.to_wallet.as_str()), ("from", "to"));
    assert_eq!(d.description.as_deref(), Some("rent"));
}

#[test]
fn listing_without_rows_answers_zero() {
    let r = empty_listing(0).unwrap();
    assert_eq!((r.code, r.message.as_str(), r.data), (0, "success", Some(0)));
    assert!(empty_listing(-1).is_some());
    assert!(empty_listing(3).is_none());
    let p = list_page(3, vec!["a", "b"]).data.unwrap();
    assert_eq!((p.total, p.data), (3, vec!["a", "b"]));
}

#[test]
fn missing_user_info_is_reported() {
    let r = user_info_answer(None);
    assert_eq!((r.code, r.message.as_str()), (60002, "交易对象不存在"));
    assert!(r.data.is_none());
    let r = user_info_answer(Some(("app".to_string(), "http://hook".to_string(), 5)));
    let d = r.data.unwrap();
    assert_eq!((r.code, d.appid.as_str(), d.web_url.as_str(), d.created), (0, "app", "http://hook", 5));
}

#[test]
fn notify_outcome_read_answers() {
    let r = url_answer("w1", None);
    assert_eq!((r.code, r.message.as_str()), (90005, "查询对象不存在"));
    assert!(r.data.is_none());
    let r = url_answer("w1", Some(("failed".to_string(), Some("why".to_string()), None, 77)));
    assert_eq!(r.code, 0);
    let d = r.data.unwrap();
    assert_eq!((d.wallet_id.as_str(), d.status.as_str(), d.reseaon.as_deref(), d.url, d.create), ("w1", "failed", Some("why"), None, 77));
}

#[test]
fn read_link_is_reported_used() {
    let a = link_answer("u1".to_string(), "http://bank".to_string());
    assert_eq!((a.id.as_str(), a.url.as_str(), a.status), ("u1", "http://bank", true));
}

#[test]
fn first_delivery_schedules_a_retry_only_on_refusal() {
    assert!(delivery_accepted(200));
    assert!(!delivery_accepted(500));
    assert!(first_delivery(true, b"o1").is_none());
    let f = first_delivery(false, b"o1").unwrap();
    assert_eq!(f.expire_key, b"webhook-expire-o1-0".to_vec());
    assert_eq!((f.expire_value, f.seconds), (1, 5));
    assert_eq!(f.context_key, b"webhook-context-o1".to_vec());
}

#[test]
fn window_statement_bounds_both_ends() {
    assert_eq!(
        window_select("withdraw_amount", "withdraw", "2021-01-01 00:00:00", "2021-01-02 00:00:00"),
        "select withdraw_amount, wallet_id,status from withdraw where created > '2021-01-01 00:00:00' and created < '2021-01-02 00:00:00'"
    );
}
