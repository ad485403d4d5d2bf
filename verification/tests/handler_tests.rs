use wallet_services::agents::agents::{agent_update_text, agent_updates, AgentColumn};
use wallet_services::agents::get_info::{agents_count_text, agents_select_text, GetAgentsObject};
use wallet_services::business_info::authen_info::{
    enterprise_outcome, enterprise_query, personal_outcome, personal_query, EnterpriseReply,
    PersonalReply, ResultValue,
};
use wallet_services::change_pass::get_status::{link_select, read_link};
use wallet_services::change_pass::url_status::{link_saved, link_write, saved_status_select, InfoRequest, LinkWrite};
use wallet_services::listing::{list_query, page_offset, ListParam};
use wallet_services::transfer::get_info::{transfer_count_text, transfer_select_text};
use wallet_services::transfer::transfer::{transfer_update_text, transfer_updates, TransferColumn};
use wallet_services::url_notify::recv_url::{
    check_notify, notify_select, notify_stored, notify_update, notify_write, BnodeRequest, NotifyWrite,
};
use wallet_services::url_notify::send_url::{stored_outcome, url_delete, url_select};
use wallet_services::user_info::get_info::{user_info_found, user_info_select};
use wallet_services::user_info::user_info::{user_info_saved, UserInfoRequest};

fn notify(status: &str, reseaon: Option<&str>, url: Option<&str>) -> BnodeRequest {
    BnodeRequest {
        status: status.to_string(),
        wallet_id: "w1".to_string(),
        reseaon: reseaon.map(|s| s.to_string()),
        url: url.map(|s| s.to_string()),
    }
}

#[test]
fn notify_outcomes_are_checked() {
    assert!(check_notify(&notify("success", None, Some("http://u"))).is_none());
    assert!(check_notify(&notify("failed", Some("no card"), None)).is_none());
    assert_eq!(check_notify(&notify("success", Some("r"), None)).unwrap().code, 90001);
    assert_eq!(check_notify(&notify("failed", None, Some("u"))).unwrap().code, 90002);
    assert_eq!(check_notify(&notify("done", Some("r"), Some("u"))).unwrap().code, 90003);
}

#[test]
fn notify_statements() {
    assert_eq!(notify_select(&"w1".to_string()), "select url, create_time from url_notify where wallet_id = 'w1'");
    assert_eq!(
        notify_update(&notify("failed", Some("no card"), None)),
        "update url_notify SET status='failed',reseaon='no card',create_time=now() where wallet_id = 'w1'"
    );
    assert_eq!(
        notify_update(&notify("success", Some("ignored"), Some("http://u"))),
        "update url_notify SET status='success',url='http://u',create_time=now() where wallet_id = 'w1'"
    );
    assert!(matches!(notify_write(&notify("success", None, Some("u")), false), NotifyWrite::Insert));
    match notify_write(&notify("success", None, Some("u")), true) {
        NotifyWrite::Update { sql } => assert!(sql.starts_with("update url_notify SET status='success',url='u'")),
        _ => panic!("expected an update"),
    }
    let r = notify_stored(&notify("failed", Some("why"), None));
    assert_eq!(r.message, "success");
    let d = r.data.unwrap();
    assert_eq!((r.code, d.status.as_str(), d.wallet_id.as_str()), (0, "failed", "w1"));
    assert_eq!((d.reseaon, d.url), (Some("why".to_string()), None));
}

#[test]
fn stored_url_statements_and_answer() {
    assert_eq!(url_select("w2"), "select status, reseaon, url, create_time from url_notify where wallet_id = 'w2'");
    assert_eq!(url_delete("w2"), "delete from url_notify where wallet_id = 'w2'");
    let r = stored_outcome("w2", "success".to_string(), None, Some("u".to_string()), 1_700_000_000);
    assert_eq!((r.wallet_id.as_str(), r.status.as_str(), r.create), ("w2", "success", 1_700_000_000));
    assert_eq!(r.url, Some("u".to_string()));
}

#[test]
fn listing_without_filter() {
    let q = list_query("SELECT count(*) from t", "SELECT id from t", false, false);
    assert_eq!(q.count_sql, "SELECT count(*) from t");
    assert_eq!(q.page_sql, "SELECT id from t ORDER BY created DESC LIMIT $1 OFFSET $2");
    assert!(q.count_params.is_empty());
    assert!(q.page_params == vec![ListParam::Count, ListParam::Offset]);
}

#[test]
fn listing_with_both_times() {
    let q = list_query("C", "S", true, true);
    assert_eq!(q.count_sql, "C where created > $1 and created < $2");
    assert_eq!(q.page_sql, "S where created > $1 and created < $2 ORDER BY created DESC LIMIT $3 OFFSET $4");
    assert!(q.count_params == vec![ListParam::BeginTime, ListParam::EndTime]);
    assert!(q.page_params == vec![ListParam::BeginTime, ListParam::EndTime, ListParam::Count, ListParam::Offset]);
}

#[test]
fn listing_with_one_time() {
    let q = list_query("C", "S", false, true);
    assert_eq!(q.count_sql, "C where created < $1");
    assert_eq!(q.page_sql, "S where created < $1 ORDER BY created DESC LIMIT $2 OFFSET $3");
    assert!(q.page_params == vec![ListParam::EndTime, ListParam::Count, ListParam::Offset]);
    let q = list_query("C", "S", true, false);
    assert_eq!(q.count_sql, "C where created > $1");
    assert!(q.count_params == vec![ListParam::BeginTime]);
}

#[test]
fn page_offsets() {
    assert_eq!(page_offset(1, 20), Some(0));
    assert_eq!(page_offset(3, 20), Some(40));
    assert_eq!(page_offset(0, 10), Some(-10));
    assert_eq!(page_offset(i64::MIN, 1), None);
    assert_eq!(page_offset(i64::MAX, 2), None);
}

#[test]
fn listing_statements_of_tables() {
    assert_eq!(agents_count_text(), "SELECT count(*) from agents");
    assert!(agents_select_text().ends_with("total_limit_amount,description from agents"));
    assert_eq!(transfer_count_text(), "SELECT count(*) from transfer");
    assert!(transfer_select_text().starts_with("SELECT id, type, created, extra, wallet_id"));
    let q = GetAgentsObject { wallet_id: "w".to_string(), id: "a".to_string() };
    assert_eq!(q.id, "a");
}

#[test]
fn optional_columns_in_order() {
    assert!(agent_updates(true, false, true, false, true)
        == vec![AgentColumn::Description, AgentColumn::DayLimitAmount, AgentColumn::TotalLimitAmount]);
    assert!(agent_updates(false, false, false, false, false).is_empty());
    assert_eq!(agent_update_text(AgentColumn::MonthLimitAmount), "UPDATE agents SET month_limit_amount = $1 where id = $2");
    assert!(transfer_updates(true, true) == vec![TransferColumn::Description, TransferColumn::Extra]);
    assert!(transfer_updates(false, true) == vec![TransferColumn::Extra]);
    assert_eq!(transfer_update_text(TransferColumn::Extra), "UPDATE transfer SET extra = $1 where id = $2");
}

#[test]
fn personal_check_outcomes() {
    let v = |res: i32| ResultValue {
        realname: "n".to_string(),
        mobile: "m".to_string(),
        idcard: "i".to_string(),
        res,
        resmsg: "ok".to_string(),
    };
    assert_eq!(personal_outcome(&PersonalReply::Unreadable), 0);
    assert_eq!(personal_outcome(&PersonalReply::Answer { error_code: 220807, result: Some(v(1)) }), 0);
    assert_eq!(personal_outcome(&PersonalReply::Answer { error_code: 0, result: None }), 0);
    assert_eq!(personal_outcome(&PersonalReply::Answer { error_code: 0, result: Some(v(1)) }), 1);
    assert_eq!(personal_outcome(&PersonalReply::Answer { error_code: 10012, result: Some(v(2)) }), 2);
}

#[test]
fn enterprise_check_outcomes() {
    let name = "Zhang San".to_string();
    let answer = |code: i32, oper: &str| EnterpriseReply::Answer { error_code: code, oper_name_json: oper.to_string() };
    assert_eq!(enterprise_outcome(&EnterpriseReply::Unreadable, &name), 1);
    assert_eq!(enterprise_outcome(&answer(10001, "\"Zhang San\""), &name), 10001);
    assert_eq!(enterprise_outcome(&answer(0, "\"Zhang San\""), &name), 0);
    assert_eq!(enterprise_outcome(&answer(0, "\"Li Si\""), &name), 1);
    assert_eq!(enterprise_outcome(&answer(0, "Zhang San"), &name), 1);
}

#[test]
fn certification_queries() {
    let q = personal_query("k", &"n".to_string(), &"p".to_string(), &"i".to_string());
    assert_eq!((q.key.as_str(), q.realname.as_str(), q.mobile.as_str(), q.idcard.as_str()), ("k", "n", "p", "i"));
    let e = enterprise_query("k2", &"code".to_string());
    assert_eq!((e.key.as_str(), e.keyword.as_str()), ("k2", "code"));
}

#[test]
fn password_links() {
    let req = InfoRequest { id: "u1".to_string(), url: "http://bank".to_string() };
    assert_eq!(saved_status_select(&"u1".to_string()), "select status from url_statu where user_id = 'u1'");
    assert!(matches!(link_write(&req, false), LinkWrite::Insert));
    match link_write(&req, true) {
        LinkWrite::Update { sql } => assert_eq!(sql, "UPDATE url_statu SET status=false, url='http://bank', update_time=now() where user_id = 'u1'"),
        _ => panic!("expected an update"),
    }
    let saved = link_saved(&req);
    assert!(!saved.status);
    let (status, sql) = read_link("u1", saved.status);
    assert!(status);
    assert_eq!(sql.unwrap(), "UPDATE url_statu SET status=true, update_time=now() where user_id = 'u1'");
    let (status, sql) = read_link("u1", true);
    assert!(status);
    assert!(sql.is_none());
    assert_eq!(link_select("u1"), "select user_id, url, status from url_statu where user_id = 'u1'");
}

#[test]
fn user_info_statements() {
    assert_eq!(user_info_select("app1"), "select appid, secret_key, web_url, create_time from user_info where appid = 'app1'");
    let req = UserInfoRequest { appid: "app1".to_string(), web_url: "http://hook".to_string() };
    let r = user_info_saved(&req, None);
    assert_eq!(r.message, "success");
    let d = r.data.unwrap();
    assert_eq!((r.code, d.appid.as_str(), d.web_url.as_str()), (0, "app1", "http://hook"));
    let r = user_info_saved(&req, Some("duplicate".to_string()));
    assert_eq!((r.code, r.message.as_str()), (60000, "数据信息错误:duplicate"));
    assert!(r.data.is_none());
}

#[test]
fn stored_user_info_answer() {
    let r = user_info_found("app1".to_string(), "http://hook".to_string(), 1_600_000_000);
    assert_eq!((r.code, r.message.as_str()), (0, "success"));
    let d = r.data.unwrap();
    assert_eq!((d.appid.as_str(), d.web_url.as_str(), d.created), ("app1", "http://hook", 1_600_000_000));
}
