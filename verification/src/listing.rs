use vstd::prelude::*;
use crate::user_info::response::ResponseBody;

verus! {

/// A value bound to a placeholder of a listing statement.
#[derive(PartialEq, Eq, Structural, Clone, Copy)]
pub enum ListParam {
    BeginTime,
    EndTime,
    Count,
    Offset,
}

/// The two statements of a page of a listing: the count of the matching
/// rows, and the page itself, newest first; each with the values of its
/// placeholders `$1`, `$2`, ... in order.
pub struct ListQuery {
    pub count_sql: String,
    pub page_sql: String,
    pub count_params: Vec<ListParam>,
    pub page_params: Vec<ListParam>,
}

/// The text of placeholder number `n`, for the four that a listing uses.
pub open spec fn index_text(n: nat) -> Seq<char> {
    if n == 1 {
        "1"@
    } else if n == 2 {
        "2"@
    } else if n == 3 {
        "3"@
    } else {
        "4"@
    }
}

fn index_string(n: usize) -> (r: String)
    requires
        1 <= n <= 4,
    ensures
        r@ == index_text(n as nat),
{
    if n == 1 {
        String::from_str("1")
    } else if n == 2 {
        String::from_str("2")
    } else if n == 3 {
        String::from_str("3")
    } else {
        String::from_str("4")
    }
}

/// The filter on the creation time: after the begin time, before the end
/// time, or between both, as far as they are given.
pub open spec fn time_filter(has_begin: bool, has_end: bool) -> (Seq<char>, Seq<ListParam>) {
    if has_begin && has_end {
        (
            " where created > $"@ + index_text(1) + " and created < $"@ + index_text(2),
            seq![ListParam::BeginTime, ListParam::EndTime],
        )
    } else if has_end {
        (" where created < $"@ + index_text(1), seq![ListParam::EndTime])
    } else if has_begin {
        (" where created > $"@ + index_text(1), seq![ListParam::BeginTime])
    } else {
        (Seq::empty(), Seq::empty())
    }
}

/// The page statement: the filtered rows, newest first, `count` of them after skipping `offset`.
pub open spec fn page_sql_spec(select_base: Seq<char>, has_begin: bool, has_end: bool) -> Seq<char> {
    let (filter, params) = time_filter(has_begin, has_end);
    select_base + filter + " ORDER BY created DESC LIMIT $"@ + index_text(params.len() + 1)
        + " OFFSET $"@ + index_text(params.len() + 2)
}

/// The statements of a listing of the rows that `count_base` counts and
/// `select_base` selects.
pub fn list_query(count_base: &str, select_base: &str, has_begin: bool, has_end: bool) -> (r:
    ListQuery)
    ensures
        r.count_sql@ == count_base@ + time_filter(has_begin, has_end).0,
        r.count_params@ == time_filter(has_begin, has_end).1,
        r.page_sql@ == page_sql_spec(select_base@, has_begin, has_end),
        r.page_params@ == time_filter(has_begin, has_end).1 + seq![
            ListParam::Count,
            ListParam::Offset,
        ],
{
    let mut filter = String::new();
    let mut params: Vec<ListParam> = Vec::new();
    if has_begin && has_end {
        filter = filter.concat(" where created > $").concat(index_string(1).as_str()).concat(
            " and created < $",
        ).concat(index_string(2).as_str());
        params.push(ListParam::BeginTime);
        params.push(ListParam::EndTime);
    } else if has_end {
        filter = filter.concat(" where created < $").concat(index_string(1).as_str());
        params.push(ListParam::EndTime);
    } else if has_begin {
        filter = filter.concat(" where created > $").concat(index_string(1).as_str());
        params.push(ListParam::BeginTime);
    }
    assert(filter@ =~= time_filter(has_begin, has_end).0);
    assert(params@ =~= time_filter(has_begin, has_end).1);
    let count_sql = count_base.to_owned().concat(filter.as_str());
    let k = params.len();
    let page_sql = select_base.to_owned().concat(filter.as_str()).concat(
        " ORDER BY created DESC LIMIT $",
    ).concat(index_string(k + 1).as_str()).concat(" OFFSET $").concat(
        index_string(k + 2).as_str(),
    );
    let count_params = params.clone();
    params.push(ListParam::Count);
    params.push(ListParam::Offset);
    assert(params@ =~= time_filter(has_begin, has_end).1 + seq![
        ListParam::Count,
        ListParam::Offset,
    ]);
    assert(count_params@ =~= time_filter(has_begin, has_end).1);
    ListQuery { count_sql, page_sql, count_params, page_params: params }
}

/// The number of rows before page `page` of `count` rows each: `(page - 1) * count`,
/// when it fits in `i64`.
pub fn page_offset(page: i64, count: i64) -> (r: Option<i64>)
    ensures
        r is Some <==> i64::MIN <= (page - 1) * count <= i64::MAX && page > i64::MIN,
        r matches Some(o) ==> o == (page - 1) * count,
{
    if page == i64::MIN {
        return None;
    }
    let p: i128 = (page - 1) as i128;
    let c: i128 = count as i128;
    assert(-0x4000_0000_0000_0000_0000_0000_0000_0000 <= p * c <= 0x4000_0000_0000_0000_0000_0000_0000_0000)
        by (nonlinear_arith)
        requires
            -0x8000_0000_0000_0000 <= p <= 0x7fff_ffff_ffff_ffff,
            -0x8000_0000_0000_0000 <= c <= 0x7fff_ffff_ffff_ffff,
    ;
    let o: i128 = p * c;
    if o < i64::MIN as i128 || o > i64::MAX as i128 {
        None
    } else {
        Some(o as i64)
    }
}

/// The answer of a listing that finds no rows: the total 0 in place of a
/// page. There is none when the count `total` is positive.
pub fn empty_listing(total: i64) -> (r: Option<ResponseBody<i64>>)
    ensures
        r is Some <==> total <= 0,
        r matches Some(b) ==> b.code == 0 && b.message@ == "success"@ && b.data == Some(0i64),
{
    if total <= 0 {
        Some(ResponseBody::new_success(Some(0)))
    } else {
        None
    }
}

/// A page of a listing, with the count of all matching rows.
pub struct ListPage<T> {
    pub total: i64,
    pub data: Vec<T>,
}

/// The answer with a page of `total` matching rows.
pub fn list_page<T>(total: i64, data: Vec<T>) -> (r: ResponseBody<ListPage<T>>)
    ensures
        r.code == 0,
        r.message@ == "success"@,
        r.data matches Some(p) && p.total == total && p.data@ == data@,
{
    ResponseBody::new_success(Some(ListPage { total, data }))
}

/// The number of rows before page `page` of `count` rows each.
pub open spec fn page_start(page: int, count: int) -> int {
    (page - 1) * count
}

/// Pages partition the rows: with `count >= 1`, page `page + 1` starts
/// where page `page` ends, and row number `k` (from 0) lies on page `page`
/// exactly when `page` is `k / count + 1`.
pub proof fn law_pages_partition(count: int, page: int, k: int)
    requires
        count >= 1,
        page >= 1,
        k >= 0,
    ensures
        page_start(page + 1, count) == page_start(page, count) + count,
        (page_start(page, count) <= k < page_start(page, count) + count) <==> page == k / count + 1,
{
    assert(page * count == (page - 1) * count + count) by (nonlinear_arith);
    let q = k / count;
    assert(q * count <= k < q * count + count && q >= 0) by (nonlinear_arith)
        requires
            count >= 1,
            k >= 0,
            q == k / count,
    ;
    assert((page - 1) * count <= k < (page - 1) * count + count ==> page - 1 == q) by (nonlinear_arith)
        requires
            count >= 1,
            q * count <= k < q * count + count,
    ;
}

/// The statements of a listing: the rows are filtered by creation time as
/// far as the times are given, numbered placeholders first for the times
/// and then for the page size and offset, newest first.
pub proof fn law_listing_statements(count_base: Seq<char>, select_base: Seq<char>)
    ensures
        count_base + time_filter(false, false).0 == count_base,
        page_sql_spec(select_base, false, false) == select_base
            + " ORDER BY created DESC LIMIT $1 OFFSET $2"@,
        count_base + time_filter(true, false).0 == count_base + " where created > $1"@,
        page_sql_spec(select_base, true, false) == select_base
            + " where created > $1 ORDER BY created DESC LIMIT $2 OFFSET $3"@,
        count_base + time_filter(false, true).0 == count_base + " where created < $1"@,
        page_sql_spec(select_base, false, true) == select_base
            + " where created < $1 ORDER BY created DESC LIMIT $2 OFFSET $3"@,
        count_base + time_filter(true, true).0 == count_base + " where created > $1 and created < $2"@,
        page_sql_spec(select_base, true, true) == select_base
            + " where created > $1 and created < $2 ORDER BY created DESC LIMIT $3 OFFSET $4"@,
        time_filter(false, false).1 == Seq::<ListParam>::empty(),
        time_filter(true, false).1 == seq![ListParam::BeginTime],
        time_filter(false, true).1 == seq![ListParam::EndTime],
        time_filter(true, true).1 == seq![ListParam::BeginTime, ListParam::EndTime],
{
    reveal_strlit("1");
    reveal_strlit("2");
    reveal_strlit("3");
    reveal_strlit("4");
    reveal_strlit(" where created > $");
    reveal_strlit(" where created < $");
    reveal_strlit(" and created < $");
    reveal_strlit(" ORDER BY created DESC LIMIT $");
    reveal_strlit(" OFFSET $");
    reveal_strlit(" ORDER BY created DESC LIMIT $1 OFFSET $2");
    reveal_strlit(" where created > $1");
    reveal_strlit(" where created > $1 ORDER BY created DESC LIMIT $2 OFFSET $3");
    reveal_strlit(" where created < $1");
    reveal_strlit(" where created < $1 ORDER BY created DESC LIMIT $2 OFFSET $3");
    reveal_strlit(" where created > $1 and created < $2");
    reveal_strlit(" where created > $1 and created < $2 ORDER BY created DESC LIMIT $3 OFFSET $4");
    assert(count_base + Seq::<char>::empty() =~= count_base);
    assert(page_sql_spec(select_base, false, false) =~= select_base
        + " ORDER BY created DESC LIMIT $1 OFFSET $2"@);
    assert(page_sql_spec(select_base, true, false) =~= select_base
        + " where created > $1 ORDER BY created DESC LIMIT $2 OFFSET $3"@);
    assert(page_sql_spec(select_base, false, true) =~= select_base
        + " where created < $1 ORDER BY created DESC LIMIT $2 OFFSET $3"@);
    assert(page_sql_spec(select_base, true, true) =~= select_base
        + " where created > $1 and created < $2 ORDER BY created DESC LIMIT $3 OFFSET $4"@);
    assert(count_base + time_filter(true, false).0 =~= count_base + " where created > $1"@);
    assert(count_base + time_filter(false, true).0 =~= count_base + " where created < $1"@);
    assert(count_base + time_filter(true, true).0 =~= count_base + " where created > $1 and created < $2"@);
}

} // verus!
