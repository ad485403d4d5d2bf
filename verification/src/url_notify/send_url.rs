use vstd::prelude::*;
use crate::url_notify::response::ResponseBody;
use crate::url_notify::recv_url::{BnodeRequest, NotifyWrite};

verus! {

/// The stored verification outcome of a wallet, with the Unix time at which it was stored.
pub struct SuccessResponse {
    pub status: String,
    pub wallet_id: String,
    pub reseaon: Option<String>,
    pub url: Option<String>,
    pub create: i64,
}

/// The statement that reads the stored outcome of a wallet.
pub open spec fn url_select_sql(wallet_id: Seq<char>) -> Seq<char> {
    "select status, reseaon, url, create_time from url_notify where wallet_id = '"@ + wallet_id
        + "'"@
}

pub fn url_select(wallet_id: &str) -> (r: String)
    ensures
        r@ == url_select_sql(wallet_id@),
{
    String::from_str(
        "select status, reseaon, url, create_time from url_notify where wallet_id = '",
    ).concat(wallet_id).concat("'")
}

/// The statement that deletes the stored outcome of a wallet.
pub open spec fn url_delete_sql(wallet_id: Seq<char>) -> Seq<char> {
    "delete from url_notify where wallet_id = '"@ + wallet_id + "'"@
}

pub fn url_delete(wallet_id: &str) -> (r: String)
    ensures
        r@ == url_delete_sql(wallet_id@),
{
    String::from_str("delete from url_notify where wallet_id = '").concat(wallet_id).concat("'")
}

/// The answer about the outcome stored for `wallet_id`.
pub fn stored_outcome(
    wallet_id: &str,
    status: String,
    reseaon: Option<String>,
    url: Option<String>,
    create: i64,
) -> (r: SuccessResponse)
    ensures
        r.wallet_id@ == wallet_id@,
        r.status == status,
        r.reseaon == reseaon,
        r.url == url,
        r.create == create,
{
    SuccessResponse { status, wallet_id: wallet_id.to_owned(), reseaon, url, create }
}

/// The answer to a read of the outcome of `wallet_id`: the row that was
/// found, or the answer that nothing is stored.
pub fn url_answer(
    wallet_id: &str,
    found: Option<(String, Option<String>, Option<String>, i64)>,
) -> (r: ResponseBody<SuccessResponse>)
    ensures
        found is None ==> r.code == 90005 && r.message@ == "查询对象不存在"@ && r.data is None,
        found matches Some(row) ==> r.code == 0 && r.message@ == "success"@ && (r.data matches Some(
            d,
        ) && d.wallet_id@ == wallet_id@ && d.status == row.0 && d.reseaon == row.1 && d.url
            == row.2 && d.create == row.3),
{
    match found {
        None => ResponseBody::object_not_exit(),
        Some((status, reseaon, url, create)) => ResponseBody::new_success(
            Some(stored_outcome(wallet_id, status, reseaon, url, create)),
        ),
    }
}

pub open spec fn text_of(o: Option<String>) -> Option<Seq<char>> {
    match o {
        Some(s) => Some(s@),
        None => None,
    }
}

/// The stored outcomes by wallet id: status, reason and web address.
pub type OutcomeTable = Map<Seq<char>, (Seq<char>, Option<Seq<char>>, Option<Seq<char>>)>;

/// The stored outcomes once `req` was written as `w` says: an insert stores
/// the request; an update sets the status with the URL when the request has
/// one, else with the reason.
pub open spec fn outcomes_after_write(t: OutcomeTable, req: BnodeRequest, w: NotifyWrite) -> OutcomeTable {
    let id = req.wallet_id@;
    match w {
        NotifyWrite::Insert => t.insert(id, (req.status@, text_of(req.reseaon), text_of(req.url))),
        NotifyWrite::Update { .. } => if !t.contains_key(id) {
            t
        } else {
            match req.url {
                Some(u) => t.insert(id, (req.status@, t[id].1, Some(u@))),
                None => match req.reseaon {
                    Some(why) => t.insert(id, (req.status@, Some(why@), t[id].2)),
                    None => t,
                },
            }
        },
    }
}

/// The stored outcomes once the outcome of `id` was deleted.
pub open spec fn outcomes_after_delete(t: OutcomeTable, id: Seq<char>) -> OutcomeTable {
    t.remove(id)
}

/// A first stored outcome reads back: when no outcome of the wallet was
/// stored, the write that `notify_write` chooses stores the request, status,
/// reason and URL as given.
pub proof fn law_first_outcome_reads_back(t: OutcomeTable, req: BnodeRequest, w: NotifyWrite)
    requires
        !t.contains_key(req.wallet_id@),
        w is Insert,
    ensures
        outcomes_after_write(t, req, w).contains_key(req.wallet_id@),
        outcomes_after_write(t, req, w)[req.wallet_id@] == (
            req.status@,
            text_of(req.reseaon),
            text_of(req.url),
        ),
{
}

/// A deleted outcome is gone: a read after the delete finds nothing, so the
/// read is answered with `object_not_exit`, and the other wallets keep theirs.
pub proof fn law_deleted_outcome_is_gone(t: OutcomeTable, id: Seq<char>, other: Seq<char>)
    requires
        other != id,
    ensures
        !outcomes_after_delete(t, id).contains_key(id),
        t.contains_key(other) ==> outcomes_after_delete(t, id).contains_key(other)
            && outcomes_after_delete(t, id)[other] == t[other],
{
}

} // verus!
