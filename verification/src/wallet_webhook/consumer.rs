use vstd::prelude::*;
use crate::text::same_text;
use crate::web_retrans::keys::{context_key, context_key_spec, retry_key, retry_key_spec};

verus! {

/// The webhook event that a message of the wallet system announces: the
/// message key names the operation, `code` zero means it succeeded.
pub open spec fn webhook_event_spec(key: Seq<char>, code: int) -> Option<Seq<char>> {
    if key == "recharge.create"@ {
        Some(if code == 0 { "charge.succeeded"@ } else { "charge.failed"@ })
    } else if key == "withdraw.create"@ {
        Some(if code == 0 { "withdraw.succeeded"@ } else { "withdraw.failed"@ })
    } else if key == "transfer.create"@ {
        Some(if code == 0 { "transfer.succeeded"@ } else { "transfer.failed"@ })
    } else {
        None
    }
}

/// The event to notify for a message with key `recv_event` and result
/// `code`; none for keys of other operations.
pub fn webhook_event(recv_event: &str, code: i32) -> (r: Option<String>)
    ensures
        r is Some == webhook_event_spec(recv_event@, code as int) is Some,
        r matches Some(e) ==> e@ == webhook_event_spec(recv_event@, code as int)->0,
{
    let ok = code == 0;
    if same_text(recv_event, "recharge.create") {
        Some(String::from_str(if ok { "charge.succeeded" } else { "charge.failed" }))
    } else if same_text(recv_event, "withdraw.create") {
        Some(String::from_str(if ok { "withdraw.succeeded" } else { "withdraw.failed" }))
    } else if same_text(recv_event, "transfer.create") {
        Some(String::from_str(if ok { "transfer.succeeded" } else { "transfer.failed" }))
    } else {
        None
    }
}

/// The head of a webhook notification; the event data goes with it.
pub struct WebhookNotice {
    pub id: String,
    pub event_type: String,
    pub created: i64,
    pub event: String,
}

/// The notification of `event` about object `object_id`, stamped with the
/// creation time of the user's record.
pub fn webhook_notice(object_id: &str, created: i64, event: String) -> (r: WebhookNotice)
    ensures
        r.id@ == object_id@,
        r.event_type@ == "event"@,
        r.created == created,
        r.event@ == event@,
{
    WebhookNotice {
        id: object_id.to_owned(),
        event_type: String::from_str("event"),
        created,
        event,
    }
}

/// What is written when the first delivery of an event is refused: the key
/// `expire_key`, holding `expire_value` and expiring after `seconds`, which
/// asks for delivery number 1; and the key under which the event is kept.
pub struct FirstRetry {
    pub expire_key: Vec<u8>,
    pub expire_value: u64,
    pub seconds: u64,
    pub context_key: Vec<u8>,
}

pub fn first_retry(object_id: &[u8]) -> (r: FirstRetry)
    ensures
        r.expire_key@ == retry_key_spec(object_id@, 0),
        r.expire_value == 1,
        r.seconds == 5,
        r.context_key@ == context_key_spec(object_id@),
{
    FirstRetry {
        expire_key: retry_key(object_id, 0),
        expire_value: 1,
        seconds: 5,
        context_key: context_key(object_id),
    }
}

/// What follows the first delivery of an event: nothing when the user's
/// service accepted it, else the first retry.
pub fn first_delivery(delivered: bool, object_id: &[u8]) -> (r: Option<FirstRetry>)
    ensures
        delivered <==> r is None,
        r matches Some(f) ==> {
            &&& f.expire_key@ == retry_key_spec(object_id@, 0)
            &&& f.expire_value == 1
            &&& f.seconds == 5
            &&& f.context_key@ == context_key_spec(object_id@)
        },
{
    if delivered {
        None
    } else {
        Some(first_retry(object_id))
    }
}

/// A delivery counts as accepted when the user's service answered with HTTP status 200.
pub fn delivery_accepted(status: u16) -> (r: bool)
    ensures
        r <==> status == 200,
{
    status == 200
}

} // verus!
