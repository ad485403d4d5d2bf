use vstd::prelude::*;
use crate::user_info::response::ResponseBody;
use crate::ids::{object_id, uuid_v1_text, ID_SEQUENCE};

verus! {

/// An optional column of a new signing agreement, written after the agreement is inserted.
#[derive(PartialEq, Eq, Structural, Clone, Copy)]
pub enum AgentColumn {
    Description,
    Extra,
    DayLimitAmount,
    MonthLimitAmount,
    TotalLimitAmount,
}

/// The optional columns that a request gives, in the order they are written.
pub open spec fn agent_columns(
    has_description: bool,
    has_extra: bool,
    has_day_limit: bool,
    has_month_limit: bool,
    has_total_limit: bool,
) -> Seq<AgentColumn> {
    (if has_description { seq![AgentColumn::Description] } else { Seq::empty() }) + (if has_extra {
        seq![AgentColumn::Extra]
    } else {
        Seq::empty()
    }) + (if has_day_limit { seq![AgentColumn::DayLimitAmount] } else { Seq::empty() }) + (
    if has_month_limit {
        seq![AgentColumn::MonthLimitAmount]
    } else {
        Seq::empty()
    }) + (if has_total_limit { seq![AgentColumn::TotalLimitAmount] } else { Seq::empty() })
}

pub fn agent_updates(
    has_description: bool,
    has_extra: bool,
    has_day_limit: bool,
    has_month_limit: bool,
    has_total_limit: bool,
) -> (r: Vec<AgentColumn>)
    ensures
        r@ == agent_columns(
            has_description,
            has_extra,
            has_day_limit,
            has_month_limit,
            has_total_limit,
        ),
{
    let mut r: Vec<AgentColumn> = Vec::new();
    if has_description {
        r.push(AgentColumn::Description);
    }
    if has_extra {
        r.push(AgentColumn::Extra);
    }
    if has_day_limit {
        r.push(AgentColumn::DayLimitAmount);
    }
    if has_month_limit {
        r.push(AgentColumn::MonthLimitAmount);
    }
    if has_total_limit {
        r.push(AgentColumn::TotalLimitAmount);
    }
    assert(r@ =~= agent_columns(
        has_description,
        has_extra,
        has_day_limit,
        has_month_limit,
        has_total_limit,
    ));
    r
}

/// The statement that writes one optional column of agreement `$2` with value `$1`.
pub open spec fn agent_update_sql(c: AgentColumn) -> Seq<char> {
    match c {
        AgentColumn::Description => "UPDATE agents SET description = $1 where id = $2"@,
        AgentColumn::Extra => "UPDATE agents SET extra = $1 where id = $2"@,
        AgentColumn::DayLimitAmount => "UPDATE agents SET day_limit_amount = $1 where id = $2"@,
        AgentColumn::MonthLimitAmount => "UPDATE agents SET month_limit_amount = $1 where id = $2"@,
        AgentColumn::TotalLimitAmount => "UPDATE agents SET total_limit_amount = $1 where id = $2"@,
    }
}

pub fn agent_update_text(c: AgentColumn) -> (r: &'static str)
    ensures
        r@ == agent_update_sql(c),
{
    match c {
        AgentColumn::Description => "UPDATE agents SET description = $1 where id = $2",
        AgentColumn::Extra => "UPDATE agents SET extra = $1 where id = $2",
        AgentColumn::DayLimitAmount => "UPDATE agents SET day_limit_amount = $1 where id = $2",
        AgentColumn::MonthLimitAmount => "UPDATE agents SET month_limit_amount = $1 where id = $2",
        AgentColumn::TotalLimitAmount => "UPDATE agents SET total_limit_amount = $1 where id = $2",
    }
}

/// The place of a column among the optional columns of an agreement, in
/// the order in which they are written.
pub open spec fn agent_column_rank(c: AgentColumn) -> int {
    match c {
        AgentColumn::Description => 0,
        AgentColumn::Extra => 1,
        AgentColumn::DayLimitAmount => 2,
        AgentColumn::MonthLimitAmount => 3,
        AgentColumn::TotalLimitAmount => 4,
    }
}

/// The name of the column of table `agents` that a variant stands for.
pub open spec fn agent_column_name(c: AgentColumn) -> Seq<char> {
    match c {
        AgentColumn::Description => "description"@,
        AgentColumn::Extra => "extra"@,
        AgentColumn::DayLimitAmount => "day_limit_amount"@,
        AgentColumn::MonthLimitAmount => "month_limit_amount"@,
        AgentColumn::TotalLimitAmount => "total_limit_amount"@,
    }
}

/// Every optional field that a request gives is written, and only those,
/// each once, in the order description, extra, day, month and total limit.
pub proof fn law_agent_columns_written(
    has_description: bool,
    has_extra: bool,
    has_day_limit: bool,
    has_month_limit: bool,
    has_total_limit: bool,
)
    ensures
        agent_columns(has_description, has_extra, has_day_limit, has_month_limit, has_total_limit).contains(AgentColumn::Description) <==> has_description,
        agent_columns(has_description, has_extra, has_day_limit, has_month_limit, has_total_limit).contains(AgentColumn::Extra) <==> has_extra,
        agent_columns(has_description, has_extra, has_day_limit, has_month_limit, has_total_limit).contains(AgentColumn::DayLimitAmount) <==> has_day_limit,
        agent_columns(has_description, has_extra, has_day_limit, has_month_limit, has_total_limit).contains(AgentColumn::MonthLimitAmount) <==> has_month_limit,
        agent_columns(has_description, has_extra, has_day_limit, has_month_limit, has_total_limit).contains(AgentColumn::TotalLimitAmount) <==> has_total_limit,
        forall|i: int, j: int|
            0 <= i < j < agent_columns(has_description, has_extra, has_day_limit, has_month_limit, has_total_limit).len() ==> agent_column_rank(
                #[trigger] agent_columns(has_description, has_extra, has_day_limit, has_month_limit, has_total_limit)[i],
            ) < agent_column_rank(#[trigger] agent_columns(has_description, has_extra, has_day_limit, has_month_limit, has_total_limit)[j]),
{
    let d: Seq<AgentColumn> = if has_description { seq![AgentColumn::Description] } else { Seq::empty() };
    let e: Seq<AgentColumn> = if has_extra { seq![AgentColumn::Extra] } else { Seq::empty() };
    let y: Seq<AgentColumn> = if has_day_limit { seq![AgentColumn::DayLimitAmount] } else { Seq::empty() };
    let m: Seq<AgentColumn> = if has_month_limit { seq![AgentColumn::MonthLimitAmount] } else { Seq::empty() };
    let t: Seq<AgentColumn> = if has_total_limit { seq![AgentColumn::TotalLimitAmount] } else { Seq::empty() };
    let cs = agent_columns(has_description, has_extra, has_day_limit, has_month_limit, has_total_limit);
    assert(cs == d + e + y + m + t);
    let de = d + e;
    let dey = de + y;
    let deym = dey + m;
    assert(forall|i: int| 0 <= i < d.len() ==> agent_column_rank(#[trigger] d[i]) == 0);
    assert(forall|i: int| 0 <= i < e.len() ==> agent_column_rank(#[trigger] e[i]) == 1);
    assert(forall|i: int| 0 <= i < y.len() ==> agent_column_rank(#[trigger] y[i]) == 2);
    assert(forall|i: int| 0 <= i < m.len() ==> agent_column_rank(#[trigger] m[i]) == 3);
    assert(forall|i: int| 0 <= i < t.len() ==> agent_column_rank(#[trigger] t[i]) == 4);
    assert(forall|i: int| 0 <= i < de.len() ==> 0 <= agent_column_rank(#[trigger] de[i]) <= 1 && (agent_column_rank(de[i]) == 0 <==> i < d.len()));
    assert(forall|i: int| 0 <= i < dey.len() ==> agent_column_rank(#[trigger] dey[i]) <= 2 && (i < de.len() ==> dey[i] == de[i]) && (i >= de.len() ==> agent_column_rank(dey[i]) == 2));
    assert(forall|i: int| 0 <= i < deym.len() ==> agent_column_rank(#[trigger] deym[i]) <= 3 && (i < dey.len() ==> deym[i] == dey[i]) && (i >= dey.len() ==> agent_column_rank(deym[i]) == 3));
    assert(forall|i: int| 0 <= i < cs.len() ==> agent_column_rank(#[trigger] cs[i]) <= 4 && (i < deym.len() ==> cs[i] == deym[i]) && (i >= deym.len() ==> agent_column_rank(cs[i]) == 4));
    assert(d.len() <= 1 && e.len() <= 1 && y.len() <= 1 && m.len() <= 1 && t.len() <= 1);
    assert(cs.contains(AgentColumn::Description) ==> has_description);
    assert(cs.contains(AgentColumn::Extra) ==> has_extra);
    assert(cs.contains(AgentColumn::DayLimitAmount) ==> has_day_limit);
    assert(cs.contains(AgentColumn::MonthLimitAmount) ==> has_month_limit);
    assert(cs.contains(AgentColumn::TotalLimitAmount) ==> has_total_limit);
    if has_description { assert(cs[0] == AgentColumn::Description); }
    if has_extra { assert(cs[d.len() as int] == AgentColumn::Extra); }
    if has_day_limit { assert(cs[de.len() as int] == AgentColumn::DayLimitAmount); }
    if has_month_limit { assert(cs[dey.len() as int] == AgentColumn::MonthLimitAmount); }
    if has_total_limit { assert(cs[deym.len() as int] == AgentColumn::TotalLimitAmount); }
}

/// Each optional-column statement updates table `agents` at the column that
/// its variant names, with the value `$1`, for the agreement `$2`.
pub proof fn law_agent_update_statement(c: AgentColumn)
    ensures
        agent_update_sql(c) == "UPDATE agents SET "@ + agent_column_name(c) + " = $1 where id = $2"@,
{
    match c {
        AgentColumn::Description => {
            reveal_strlit("UPDATE agents SET ");
            reveal_strlit(" = $1 where id = $2");
            reveal_strlit("description");
            reveal_strlit("UPDATE agents SET description = $1 where id = $2");
        },
        AgentColumn::Extra => {
            reveal_strlit("UPDATE agents SET ");
            reveal_strlit(" = $1 where id = $2");
            reveal_strlit("extra");
            reveal_strlit("UPDATE agents SET extra = $1 where id = $2");
        },
        AgentColumn::DayLimitAmount => {
            reveal_strlit("UPDATE agents SET ");
            reveal_strlit(" = $1 where id = $2");
            reveal_strlit("day_limit_amount");
            reveal_strlit("UPDATE agents SET day_limit_amount = $1 where id = $2");
        },
        AgentColumn::MonthLimitAmount => {
            reveal_strlit("UPDATE agents SET ");
            reveal_strlit(" = $1 where id = $2");
            reveal_strlit("month_limit_amount");
            reveal_strlit("UPDATE agents SET month_limit_amount = $1 where id = $2");
        },
        AgentColumn::TotalLimitAmount => {
            reveal_strlit("UPDATE agents SET ");
            reveal_strlit(" = $1 where id = $2");
            reveal_strlit("total_limit_amount");
            reveal_strlit("UPDATE agents SET total_limit_amount = $1 where id = $2");
        },
    }
}

/// The node id of signing agreements: the bytes of `agents`.
pub open spec fn agents_node() -> Seq<u8> {
    seq![97u8, 103u8, 101u8, 110u8, 116u8, 115u8]
}

/// The id of a new signing agreement created at second `second` of the minute and
/// nanosecond `nanos` of the local clock.
pub fn agreement_id(second: u32, nanos: u32) -> (r: String)
    ensures
        r@ == uuid_v1_text(second as u64, nanos, ID_SEQUENCE, agents_node()),
        r@.len() == 36,
{
    let node: Vec<u8> = vec![97u8, 103u8, 101u8, 110u8, 116u8, 115u8];
    assert(node@ =~= agents_node());
    object_id(second, nanos, node.as_slice())
}

/// A request for a signing agreement from a wallet to `to_wallet`; `E` is
/// the type of the free-form extra data.
pub struct AgentsRequest<E> {
    pub extra: Option<E>,
    pub to_wallet: String,
    pub description: Option<String>,
    pub begin_time: i64,
    pub end_time: i64,
    pub limit_amount: i64,
    pub day_limit_amount: Option<i64>,
    pub month_limit_amount: Option<i64>,
    pub total_limit_amount: Option<i64>,
}

/// A signing agreement as the service answers it; times in Unix seconds.
pub struct AgentsResponse<E> {
    pub id: String,
    pub ttype: String,
    pub created: i64,
    pub extra: Option<E>,
    pub from_wallet: String,
    pub to_wallet: String,
    pub begin_time: i64,
    pub end_time: i64,
    pub limit_amount: i64,
    pub day_limit_amount: Option<i64>,
    pub month_limit_amount: Option<i64>,
    pub total_limit_amount: Option<i64>,
    pub description: Option<String>,
}

/// The answer once agreement `id` of wallet `from_wallet` is stored and was
/// created at `created`: the request's own data, of type `agent`.
pub fn agreement_created<E>(req: AgentsRequest<E>, id: String, from_wallet: String, created: i64) -> (r:
    ResponseBody<AgentsResponse<E>>)
    ensures
        r.code == 0,
        r.message@ == "success"@,
        r.data matches Some(d) && {
            &&& d.id == id
            &&& d.ttype@ == "agent"@
            &&& d.created == created
            &&& d.extra == req.extra
            &&& d.from_wallet == from_wallet
            &&& d.to_wallet == req.to_wallet
            &&& d.begin_time == req.begin_time
            &&& d.end_time == req.end_time
            &&& d.limit_amount == req.limit_amount
            &&& d.day_limit_amount == req.day_limit_amount
            &&& d.month_limit_amount == req.month_limit_amount
            &&& d.total_limit_amount == req.total_limit_amount
            &&& d.description == req.description
        },
{
    ResponseBody::new_success(
        Some(
            AgentsResponse {
                id,
                ttype: String::from_str("agent"),
                created,
                extra: req.extra,
                from_wallet,
                to_wallet: req.to_wallet,
                begin_time: req.begin_time,
                end_time: req.end_time,
                limit_amount: req.limit_amount,
                day_limit_amount: req.day_limit_amount,
                month_limit_amount: req.month_limit_amount,
                total_limit_amount: req.total_limit_amount,
                description: req.description,
            },
        ),
    )
}

} // verus!
