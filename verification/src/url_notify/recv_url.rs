use vstd::prelude::*;
use crate::text::same_text;
use crate::url_notify::response::ResponseBody;

verus! {

/// The outcome of a bank-card verification reported for a wallet: status
/// `success` with the URL to notify, or `failed` with the reason.
pub struct BnodeRequest {
    pub status: String,
    pub wallet_id: String,
    pub reseaon: Option<String>,
    pub url: Option<String>,
}

/// The stored outcome, as the service answers it.
pub struct SuccessResponse {
    pub status: String,
    pub wallet_id: String,
    pub reseaon: Option<String>,
    pub url: Option<String>,
}

/// The code of the answer that refuses `req`, if it is refused.
pub open spec fn notify_refusal(req: BnodeRequest) -> Option<i32> {
    if req.status@ == "success"@ {
        if req.url is None {
            Some(90001)
        } else {
            None
        }
    } else if req.status@ == "failed"@ {
        if req.reseaon is None {
            Some(90002)
        } else {
            None
        }
    } else {
        Some(90003)
    }
}

/// Checks a reported outcome: a success needs its URL, a failure its reason,
/// and no other status is accepted.
pub fn check_notify(req: &BnodeRequest) -> (r: Option<ResponseBody<()>>)
    ensures
        r is Some == notify_refusal(*req) is Some,
        r matches Some(b) ==> b.code == notify_refusal(*req)->0 && b.data is None,
        r matches Some(b) ==> (b.code == 90001 ==> b.message@ == "url is none,please input url"@),
        r matches Some(b) ==> (b.code == 90002 ==> b.message@
            == "failed reseaon is none,please input reseaon"@),
        r matches Some(b) ==> (b.code == 90003 ==> b.message@
            == "Validation status error,input \"success\" or \"failed\""@),
{
    if same_text(req.status.as_str(), "success") {
        if req.url.is_none() {
            return Some(ResponseBody::url_is_none());
        }
    } else if same_text(req.status.as_str(), "failed") {
        if req.reseaon.is_none() {
            return Some(ResponseBody::reseaon_is_none());
        }
    } else {
        return Some(ResponseBody::status_type_error());
    }
    None
}

/// The statement that reads the stored outcome of a wallet.
pub open spec fn notify_select_sql(wallet_id: Seq<char>) -> Seq<char> {
    "select url, create_time from url_notify where wallet_id = '"@ + wallet_id + "'"@
}

pub fn notify_select(wallet_id: &String) -> (r: String)
    ensures
        r@ == notify_select_sql(wallet_id@),
{
    String::from_str("select url, create_time from url_notify where wallet_id = '").concat(
        wallet_id.as_str(),
    ).concat("'")
}

/// The statement that overwrites the stored outcome of a wallet: with the
/// URL when the request has one, else with the reason when it has one. A
/// failed outcome that carries both a reason and a URL is written with the
/// URL; one with neither gives no statement.
pub open spec fn notify_update_sql(req: BnodeRequest) -> Seq<char> {
    match req.url {
        Some(u) => "update url_notify SET status='"@ + req.status@ + "',url='"@ + u@
            + "',create_time=now() where wallet_id = '"@ + req.wallet_id@ + "'"@,
        None => match req.reseaon {
            Some(why) => "update url_notify SET status='"@ + req.status@ + "',reseaon='"@ + why@
                + "',create_time=now() where wallet_id = '"@ + req.wallet_id@ + "'"@,
            None => Seq::empty(),
        },
    }
}

pub fn notify_update(req: &BnodeRequest) -> (r: String)
    ensures
        r@ == notify_update_sql(*req),
{
    let mut sql = String::new();
    if let Some(why) = &req.reseaon {
        sql = String::from_str("update url_notify SET status='").concat(req.status.as_str())
            .concat("',reseaon='").concat(why.as_str())
            .concat("',create_time=now() where wallet_id = '").concat(req.wallet_id.as_str())
            .concat("'");
    }
    if let Some(u) = &req.url {
        sql = String::from_str("update url_notify SET status='").concat(req.status.as_str())
            .concat("',url='").concat(u.as_str())
            .concat("',create_time=now() where wallet_id = '").concat(req.wallet_id.as_str())
            .concat("'");
    }
    sql
}

/// How a reported outcome is stored.
pub enum NotifyWrite {
    /// The wallet has no stored outcome yet: insert one.
    Insert,
    /// Overwrite the stored outcome with this statement.
    Update { sql: String },
}

pub fn notify_write(req: &BnodeRequest, stored: bool) -> (r: NotifyWrite)
    ensures
        !stored ==> r is Insert,
        stored ==> (r matches NotifyWrite::Update { sql } && sql@ == notify_update_sql(*req)),
{
    if stored {
        NotifyWrite::Update { sql: notify_update(req) }
    } else {
        NotifyWrite::Insert
    }
}

/// The answer once the outcome is stored: the request's own data.
pub fn notify_stored(req: &BnodeRequest) -> (r: ResponseBody<SuccessResponse>)
    ensures
        r.code == 0,
        r.message@ == "success"@,
        r.data matches Some(d) && d.status == req.status && d.wallet_id == req.wallet_id
            && d.reseaon == req.reseaon && d.url == req.url,
{
    ResponseBody::new_success(
        Some(
            SuccessResponse {
                status: req.status.clone(),
                wallet_id: req.wallet_id.clone(),
                reseaon: req.reseaon.clone(),
                url: req.url.clone(),
            },
        ),
    )
}

} // verus!
