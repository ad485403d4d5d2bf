use vstd::prelude::*;

verus! {

/// A query for one signing agreement of a wallet.
pub struct GetAgentsObject {
    pub wallet_id: String,
    pub id: String,
}

/// The statement that counts the agreements of a listing.
pub open spec fn agents_count_base() -> Seq<char> {
    "SELECT count(*) from agents"@
}

/// The statement that selects the agreements of a listing.
pub open spec fn agents_select_base() -> Seq<char> {
    "SELECT id, type, created, extra, from_wallet, to_wallet, begin_time, end_time, limit_amount, day_limit_amount, \n    month_limit_amount, total_limit_amount,description from agents"@
}

pub fn agents_count_text() -> (r: &'static str)
    ensures
        r@ == agents_count_base(),
{
    "SELECT count(*) from agents"
}

pub fn agents_select_text() -> (r: &'static str)
    ensures
        r@ == agents_select_base(),
{
    "SELECT id, type, created, extra, from_wallet, to_wallet, begin_time, end_time, limit_amount, day_limit_amount, \n    month_limit_amount, total_limit_amount,description from agents"
}

} // verus!
