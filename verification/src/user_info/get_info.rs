use vstd::prelude::*;
use crate::user_info::response::ResponseBody;

verus! {

/// The stored information of an application, as the service answers it:
/// its id, its webhook address and its creation time (unix seconds).
pub struct UserInfoResponse {
    pub appid: String,
    pub web_url: String,
    pub created: i64,
}

/// A query by transaction id.
pub struct GetTransObject {
    pub trans_id: String,
}

/// The statement that reads the information of an application.
pub open spec fn user_info_select_sql(appid: Seq<char>) -> Seq<char> {
    "select appid, secret_key, web_url, create_time from user_info where appid = '"@ + appid
        + "'"@
}

pub fn user_info_select(appid: &str) -> (r: String)
    ensures
        r@ == user_info_select_sql(appid@),
{
    String::from_str("select appid, secret_key, web_url, create_time from user_info where appid = '")
        .concat(appid).concat("'")
}

/// The answer with the stored information of an application.
pub fn user_info_found(appid: String, web_url: String, created: i64) -> (r: ResponseBody<
    UserInfoResponse,
>)
    ensures
        r.code == 0,
        r.message@ == "success"@,
        r.data matches Some(d) && d.appid == appid && d.web_url == web_url && d.created == created,
{
    ResponseBody::new_success(Some(UserInfoResponse { appid, web_url, created }))
}

/// The answer to a read of the information of an application: the row that
/// was found (id, webhook address, creation time), or the answer that the
/// object does not exist.
pub fn user_info_answer(found: Option<(String, String, i64)>) -> (r: ResponseBody<UserInfoResponse>)
    ensures
        found is None ==> r.code == 60002 && r.message@ == "交易对象不存在"@ && r.data is None,
        found matches Some(row) ==> r.code == 0 && r.message@ == "success"@ && (r.data matches Some(
            d,
        ) && d.appid == row.0 && d.web_url == row.1 && d.created == row.2),
{
    match found {
        None => ResponseBody::object_not_exit(),
        Some((appid, web_url, created)) => user_info_found(appid, web_url, created),
    }
}

} // verus!
