use vstd::prelude::*;
use crate::bytes::{append_bytes, copy_range, bytes_equal, decimal, push_decimal};

verus! {

/// `webhook-expire`, the head of the keys whose expiry asks for a new delivery.
pub open spec fn expire_head() -> Seq<u8> {
    seq![119u8, 101, 98, 104, 111, 111, 107, 45, 101, 120, 112, 105, 114, 101]
}

/// `webhook-context-`, the head of the keys that hold the event to deliver.
pub open spec fn context_head() -> Seq<u8> {
    seq![119u8, 101, 98, 104, 111, 111, 107, 45, 99, 111, 110, 116, 101, 120, 116, 45]
}

/// `-`, the separator of the parts of a key.
pub open spec fn dash() -> u8 {
    45u8
}

pub fn expire_head_bytes() -> (r: Vec<u8>)
    ensures
        r@ == expire_head(),
{
    let r = vec![119u8, 101, 98, 104, 111, 111, 107, 45, 101, 120, 112, 105, 114, 101];
    assert(r@ =~= expire_head());
    r
}

pub fn context_head_bytes() -> (r: Vec<u8>)
    ensures
        r@ == context_head(),
{
    let r = vec![119u8, 101, 98, 104, 111, 111, 107, 45, 99, 111, 110, 116, 101, 120, 116, 45];
    assert(r@ =~= context_head());
    r
}

/// A byte that continues a multi-byte UTF-8 character.
pub open spec fn is_continuation(b: u8) -> bool {
    0x80 <= b <= 0xbf
}

/// Whether position `i` of the UTF-8 text `msg` starts a character or ends the text.
pub open spec fn on_boundary(msg: Seq<u8>, i: int) -> bool {
    i == msg.len() || !is_continuation(msg[i])
}

pub open spec fn is_digit(b: u8) -> bool {
    48 <= b <= 57
}

/// What an expired key asks for.
pub enum ExpiredKey {
    /// Not a key of a pending delivery.
    Ignored,
    /// A key of a pending delivery that cannot be taken apart.
    Malformed,
    /// Deliver the event of `object_id` again; this is delivery number `attempt`.
    Retry { object_id: Vec<u8>, attempt: u32 },
}

/// Keys shorter than 15 bytes, or that do not start with `webhook-expire`, are not watched.
pub open spec fn key_ignored(msg: Seq<u8>) -> bool {
    msg.len() < 15 || (on_boundary(msg, 14) && msg.subrange(0, 14) != expire_head())
}

/// A watched key is taken apart when its last byte is a digit and the
/// object id between byte 15 and the last two bytes is whole text.
pub open spec fn key_well_formed(msg: Seq<u8>) -> bool {
    &&& msg.len() >= 17
    &&& on_boundary(msg, 14)
    &&& is_digit(msg.last())
    &&& on_boundary(msg, 15)
    &&& on_boundary(msg, msg.len() - 2)
}

/// Reads an expired key of the form `webhook-expire-<object id>-<n>`, with
/// `n` one digit: the next delivery of the object's event is number `n + 1`.
/// The object id is what lies between byte 15 and the last two bytes.
pub fn parse_expired_key(msg: &[u8]) -> (r: ExpiredKey)
    ensures
        r is Ignored <==> key_ignored(msg@),
        r is Malformed <==> !key_ignored(msg@) && !key_well_formed(msg@),
        r matches ExpiredKey::Retry { object_id, attempt } ==> {
            &&& object_id@ == msg@.subrange(15, msg@.len() - 2)
            &&& attempt == msg@.last() - 48 + 1
        },
{
    let n = msg.len();
    if n < 15 {
        return ExpiredKey::Ignored;
    }
    if msg[14] >= 0x80 && msg[14] <= 0xbf {
        return ExpiredKey::Malformed;
    }
    let head = copy_range(msg, 0, 14);
    let expected = expire_head_bytes();
    if !bytes_equal(head.as_slice(), expected.as_slice()) {
        return ExpiredKey::Ignored;
    }
    let last = msg[n - 1];
    if last < 48 || last > 57 {
        return ExpiredKey::Malformed;
    }
    let attempt: u32 = (last - 48) as u32 + 1;
    if n < 17 || (msg[15] >= 0x80 && msg[15] <= 0xbf) || (msg[n - 2] >= 0x80 && msg[n - 2] <= 0xbf) {
        return ExpiredKey::Malformed;
    }
    ExpiredKey::Retry { object_id: copy_range(msg, 15, n - 2), attempt }
}

/// The key whose expiry asks for delivery number `attempt + 1` of the event
/// of `object_id`: `webhook-expire-<object id>-<attempt>`.
pub open spec fn retry_key_spec(object_id: Seq<u8>, attempt: nat) -> Seq<u8> {
    expire_head() + seq![dash()] + object_id + seq![dash()] + decimal(attempt)
}

pub fn retry_key(object_id: &[u8], attempt: u32) -> (r: Vec<u8>)
    ensures
        r@ == retry_key_spec(object_id@, attempt as nat),
{
    let mut r = expire_head_bytes();
    r.push(45u8);
    append_bytes(&mut r, object_id);
    r.push(45u8);
    push_decimal(&mut r, attempt);
    r
}

/// The key that holds the event of `object_id`: `webhook-context-<object id>`.
pub open spec fn context_key_spec(object_id: Seq<u8>) -> Seq<u8> {
    context_head() + object_id
}

pub fn context_key(object_id: &[u8]) -> (r: Vec<u8>)
    ensures
        r@ == context_key_spec(object_id@),
{
    let mut r = context_head_bytes();
    append_bytes(&mut r, object_id);
    r
}

/// A retry key written with a one-digit attempt number reads back as that
/// object id and the next attempt number.
pub proof fn law_retry_key_round_trip(object_id: Seq<u8>, attempt: nat)
    requires
        attempt <= 9,
        object_id.len() == 0 || !is_continuation(object_id[0]),
    ensures
        ({
            let key = retry_key_spec(object_id, attempt);
            &&& !key_ignored(key)
            &&& key_well_formed(key)
            &&& key.subrange(15, key.len() - 2) == object_id
            &&& key.last() - 48 + 1 == attempt + 1
        }),
{
    let key = retry_key_spec(object_id, attempt);
    assert(decimal(attempt) == seq![(48 + attempt) as u8]);
    assert(key.subrange(0, 14) =~= expire_head());
    assert(key.subrange(15, key.len() - 2) =~= object_id);
    assert(key[14] == dash());
    assert(key[key.len() - 2] == dash());
    if object_id.len() > 0 {
        assert(key[15] == object_id[0]);
    }
}

} // verus!
