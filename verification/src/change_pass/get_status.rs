use vstd::prelude::*;
use crate::change_pass::url_status::{InfoRequest, InfoResponse, LinkWrite};

verus! {

/// A query by user id.
pub struct GetTransObject {
    pub user_id: String,
}

/// The statement that reads a user's stored link.
pub open spec fn link_select_sql(user_id: Seq<char>) -> Seq<char> {
    "select user_id, url, status from url_statu where user_id = '"@ + user_id + "'"@
}

pub fn link_select(user_id: &str) -> (r: String)
    ensures
        r@ == link_select_sql(user_id@),
{
    String::from_str("select user_id, url, status from url_statu where user_id = '").concat(
        user_id,
    ).concat("'")
}

/// The statement that marks a user's stored link as used.
pub open spec fn mark_used_sql(user_id: Seq<char>) -> Seq<char> {
    "UPDATE url_statu SET status=true, update_time=now() where user_id = '"@ + user_id + "'"@
}

/// Reading a link marks it used: an unused link needs the statement that
/// marks it; either way the answer reports it used.
pub fn read_link(user_id: &str, stored_status: bool) -> (r: (bool, Option<String>))
    ensures
        r.0,
        stored_status ==> r.1 is None,
        !stored_status ==> (r.1 matches Some(sql) && sql@ == mark_used_sql(user_id@)),
{
    if !stored_status {
        let sql = String::from_str("UPDATE url_statu SET status=true, update_time=now() where user_id = '")
            .concat(user_id).concat("'");
        (true, Some(sql))
    } else {
        (true, None)
    }
}

/// The answer about a stored link that was read: the stored data, reported used.
pub fn link_answer(user_id: String, url: String) -> (r: InfoResponse)
    ensures
        r.id == user_id,
        r.url == url,
        r.status,
{
    InfoResponse { id: user_id, url, status: true }
}

/// The stored links by user id: each with its address and whether it was used.
pub open spec fn links_after_write(
    t: Map<Seq<char>, (Seq<char>, bool)>,
    req: InfoRequest,
    w: LinkWrite,
) -> Map<Seq<char>, (Seq<char>, bool)> {
    match w {
        LinkWrite::Insert => t.insert(req.id@, (req.url@, false)),
        LinkWrite::Update { .. } => t.insert(req.id@, (req.url@, false)),
    }
}

/// The stored links once the link of `id` was read: a stored link is marked used.
pub open spec fn links_after_read(t: Map<Seq<char>, (Seq<char>, bool)>, id: Seq<char>) -> Map<
    Seq<char>,
    (Seq<char>, bool),
> {
    if t.contains_key(id) {
        t.insert(id, (t[id].0, true))
    } else {
        t
    }
}

/// A saved link reads back: after saving `req`, whichever write `link_write`
/// chose, the link of `req.id` holds `req.url`, unused; a read marks it used
/// and a second read finds it so and changes nothing.
pub proof fn law_saved_link_reads_back(t: Map<Seq<char>, (Seq<char>, bool)>, req: InfoRequest, w: LinkWrite)
    ensures
        links_after_write(t, req, w).contains_key(req.id@),
        links_after_write(t, req, w)[req.id@] == (req.url@, false),
        links_after_read(links_after_write(t, req, w), req.id@)[req.id@] == (req.url@, true),
        links_after_read(links_after_read(links_after_write(t, req, w), req.id@), req.id@)
            == links_after_read(links_after_write(t, req, w), req.id@),
{
    let saved = links_after_write(t, req, w);
    let once = links_after_read(saved, req.id@);
    assert(links_after_read(once, req.id@) =~= once);
}

} // verus!
