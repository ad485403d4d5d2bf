use vstd::prelude::*;
use crate::user_info::response::ResponseBody;
use crate::ids::{object_id, uuid_v1_text, ID_SEQUENCE};

verus! {

/// An optional column of a new transfer, written after the transfer is inserted.
#[derive(PartialEq, Eq, Structural, Clone, Copy)]
pub enum TransferColumn {
    Description,
    Extra,
}

/// The optional columns that a request gives, in the order they are written.
pub open spec fn transfer_columns(has_description: bool, has_extra: bool) -> Seq<TransferColumn> {
    (if has_description { seq![TransferColumn::Description] } else { Seq::empty() }) + (
    if has_extra {
        seq![TransferColumn::Extra]
    } else {
        Seq::empty()
    })
}

pub fn transfer_updates(has_description: bool, has_extra: bool) -> (r: Vec<TransferColumn>)
    ensures
        r@ == transfer_columns(has_description, has_extra),
{
    let mut r: Vec<TransferColumn> = Vec::new();
    if has_description {
        r.push(TransferColumn::Description);
    }
    if has_extra {
        r.push(TransferColumn::Extra);
    }
    assert(r@ =~= transfer_columns(has_description, has_extra));
    r
}

/// The statement that writes one optional column of transfer `$2` with value `$1`.
pub open spec fn transfer_update_sql(c: TransferColumn) -> Seq<char> {
    match c {
        TransferColumn::Description => "UPDATE transfer SET description = $1 where id = $2"@,
        TransferColumn::Extra => "UPDATE transfer SET extra = $1 where id = $2"@,
    }
}

pub fn transfer_update_text(c: TransferColumn) -> (r: &'static str)
    ensures
        r@ == transfer_update_sql(c),
{
    match c {
        TransferColumn::Description => "UPDATE transfer SET description = $1 where id = $2",
        TransferColumn::Extra => "UPDATE transfer SET extra = $1 where id = $2",
    }
}

/// The name of the column of table `transfer` that a variant stands for.
pub open spec fn transfer_column_name(c: TransferColumn) -> Seq<char> {
    match c {
        TransferColumn::Description => "description"@,
        TransferColumn::Extra => "extra"@,
    }
}

/// Every optional field that a request gives is written, and only those:
/// the description first, then the extra data, each once.
pub proof fn law_transfer_columns_written(has_description: bool, has_extra: bool)
    ensures
        transfer_columns(has_description, has_extra).contains(TransferColumn::Description)
            <==> has_description,
        transfer_columns(has_description, has_extra).contains(TransferColumn::Extra) <==> has_extra,
        transfer_columns(has_description, has_extra).len() == (if has_description { 1int } else { 0 }) + (
        if has_extra {
            1int
        } else {
            0
        }),
        has_description ==> transfer_columns(has_description, has_extra)[0] == TransferColumn::Description,
{
    let cs = transfer_columns(has_description, has_extra);
    if has_description && has_extra {
        assert(cs =~= seq![TransferColumn::Description, TransferColumn::Extra]);
        assert(cs[1] == TransferColumn::Extra);
    } else if has_description {
        assert(cs =~= seq![TransferColumn::Description]);
    } else if has_extra {
        assert(cs =~= seq![TransferColumn::Extra]);
        assert(cs[0] == TransferColumn::Extra);
    } else {
        assert(cs =~= Seq::<TransferColumn>::empty());
    }
}

/// Each optional-column statement updates table `transfer` at the column
/// that its variant names, with the value `$1`, for the transfer `$2`.
pub proof fn law_transfer_update_statement(c: TransferColumn)
    ensures
        transfer_update_sql(c) == "UPDATE transfer SET "@ + transfer_column_name(c) + " = $1 where id = $2"@,
{
    match c {
        TransferColumn::Description => {
            reveal_strlit("UPDATE transfer SET ");
            reveal_strlit(" = $1 where id = $2");
            reveal_strlit("description");
            reveal_strlit("UPDATE transfer SET description = $1 where id = $2");
        },
        TransferColumn::Extra => {
            reveal_strlit("UPDATE transfer SET ");
            reveal_strlit(" = $1 where id = $2");
            reveal_strlit("extra");
            reveal_strlit("UPDATE transfer SET extra = $1 where id = $2");
        },
    }
}

/// The node id of transfers: the bytes of `transf`.
pub open spec fn transfer_node() -> Seq<u8> {
    seq![116u8, 114u8, 97u8, 110u8, 115u8, 102u8]
}

/// The id of a new transfer created at second `second` of the minute and
/// nanosecond `nanos` of the local clock.
pub fn transfer_id(second: u32, nanos: u32) -> (r: String)
    ensures
        r@ == uuid_v1_text(second as u64, nanos, ID_SEQUENCE, transfer_node()),
        r@.len() == 36,
{
    let node: Vec<u8> = vec![116u8, 114u8, 97u8, 110u8, 115u8, 102u8];
    assert(node@ =~= transfer_node());
    object_id(second, nanos, node.as_slice())
}

/// A request to transfer from `wallet_id` to `to_wallet`; `E` is the type
/// of the free-form extra data.
pub struct TransferRequest<E> {
    pub extra: Option<E>,
    pub wallet_id: String,
    pub to_wallet: String,
    pub description: Option<String>,
}

/// A transfer as the service answers it; `T` is the type of its creation time.
pub struct TransferResponse<E, T> {
    pub id: String,
    pub ttype: String,
    pub created: T,
    pub extra: Option<E>,
    pub to_wallet: String,
    pub wallet_id: String,
    pub description: Option<String>,
    pub status: String,
}

/// The answer once transfer `id` is stored and was created at `created`:
/// the request's own data, of type `transfer`, in status `created`.
pub fn transfer_created<E, T>(req: TransferRequest<E>, id: String, created: T) -> (r: ResponseBody<
    TransferResponse<E, T>,
>)
    ensures
        r.code == 0,
        r.message@ == "success"@,
        r.data matches Some(d) && {
            &&& d.id == id
            &&& d.ttype@ == "transfer"@
            &&& d.created == created
            &&& d.extra == req.extra
            &&& d.to_wallet == req.to_wallet
            &&& d.wallet_id == req.wallet_id
            &&& d.description == req.description
            &&& d.status@ == "created"@
        },
{
    ResponseBody::new_success(
        Some(
            TransferResponse {
                id,
                ttype: String::from_str("transfer"),
                created,
                extra: req.extra,
                to_wallet: req.to_wallet,
                wallet_id: req.wallet_id,
                description: req.description,
                status: String::from_str("created"),
            },
        ),
    )
}

} // verus!
