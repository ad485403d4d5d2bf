use vstd::prelude::*;

verus! {

/// A query for one transfer.
pub struct GetTransObject {
    pub trans_id: String,
}

/// The statement that counts the transfers of a listing.
pub open spec fn transfer_count_base() -> Seq<char> {
    "SELECT count(*) from transfer"@
}

/// The statement that selects the transfers of a listing.
pub open spec fn transfer_select_base() -> Seq<char> {
    "SELECT id, type, created, extra, wallet_id, to_wallet, description, \n    status from transfer"@
}

pub fn transfer_count_text() -> (r: &'static str)
    ensures
        r@ == transfer_count_base(),
{
    "SELECT count(*) from transfer"
}

pub fn transfer_select_text() -> (r: &'static str)
    ensures
        r@ == transfer_select_base(),
{
    "SELECT id, type, created, extra, wallet_id, to_wallet, description, \n    status from transfer"
}

} // verus!
