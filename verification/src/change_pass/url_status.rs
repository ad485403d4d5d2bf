use vstd::prelude::*;

verus! {

/// A user's request to change the password: the bank page to send the user to.
pub struct InfoRequest {
    pub id: String,
    pub url: String,
}

/// The stored link and whether it was used.
pub struct InfoResponse {
    pub id: String,
    pub url: String,
    pub status: bool,
}

/// The statement that reads whether a user has a stored link.
pub open spec fn saved_status_select_sql(user_id: Seq<char>) -> Seq<char> {
    "select status from url_statu where user_id = '"@ + user_id + "'"@
}

pub fn saved_status_select(user_id: &String) -> (r: String)
    ensures
        r@ == saved_status_select_sql(user_id@),
{
    String::from_str("select status from url_statu where user_id = '").concat(user_id.as_str())
        .concat("'")
}

/// The statement that replaces a user's stored link with a fresh, unused one.
pub open spec fn link_update_sql(req: InfoRequest) -> Seq<char> {
    "UPDATE url_statu SET status=false, url='"@ + req.url@
        + "', update_time=now() where user_id = '"@ + req.id@ + "'"@
}

/// How a saved link is written.
pub enum LinkWrite {
    /// The user has no stored link yet: insert an unused one.
    Insert,
    /// Overwrite the stored link with this statement.
    Update { sql: String },
}

/// A new link is always stored unused: inserted for the first request,
/// overwritten for every later one.
pub fn link_write(req: &InfoRequest, stored: bool) -> (r: LinkWrite)
    ensures
        !stored ==> r is Insert,
        stored ==> (r matches LinkWrite::Update { sql } && sql@ == link_update_sql(*req)),
{
    if stored {
        let sql = String::from_str("UPDATE url_statu SET status=false, url='").concat(
            req.url.as_str(),
        ).concat("', update_time=now() where user_id = '").concat(req.id.as_str()).concat("'");
        LinkWrite::Update { sql }
    } else {
        LinkWrite::Insert
    }
}

/// The answer once the link is stored: the request's data, not yet used.
pub fn link_saved(req: &InfoRequest) -> (r: InfoResponse)
    ensures
        r.id == req.id,
        r.url == req.url,
        !r.status,
{
    InfoResponse { id: req.id.clone(), url: req.url.clone(), status: false }
}

/// The users that hold a link once `w` was carried out for user `id` on a
/// table whose links belong to `users`: an insert adds a row for `id`, an
/// update changes no row's user.
pub open spec fn link_users_after(users: Seq<Seq<char>>, id: Seq<char>, w: LinkWrite) -> Seq<
    Seq<char>,
> {
    match w {
        LinkWrite::Insert => users.push(id),
        LinkWrite::Update { .. } => users,
    }
}

/// Saving a link keeps one link per user: with `stored` read from the table
/// before the write, the write that `link_write` chooses leaves no user with
/// two links.
pub proof fn law_one_link_per_user(users: Seq<Seq<char>>, id: Seq<char>, stored: bool, w: LinkWrite)
    requires
        users.no_duplicates(),
        stored == users.contains(id),
        !stored ==> w is Insert,
        stored ==> w is Update,
    ensures
        link_users_after(users, id, w).no_duplicates(),
{
    if !stored {
        let after = users.push(id);
        assert forall|i: int, j: int| 0 <= i < after.len() && 0 <= j < after.len() && i != j
            implies after[i] != after[j] by {
            if j == users.len() as int {
                assert(after[i] == users[i]);
            } else if i == users.len() as int {
                assert(after[j] == users[j]);
            } else {
                assert(after[i] == users[i] && after[j] == users[j]);
            }
        }
    }
}

} // verus!
