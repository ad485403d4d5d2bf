use vstd::prelude::*;

verus! {

/// The hyphenated text of the version-1 UUID made of the clock reading
/// `seconds` and `nanos`, the clock sequence `counter` and the six-byte node id `node`.
pub uninterp spec fn uuid_v1_text(seconds: u64, nanos: u32, counter: u16, node: Seq<u8>) -> Seq<char>;

/// Calls `uuid::v1::Timestamp::from_unix` with a fresh `uuid::v1::Context::new(counter)`,
/// whose first sequence number is `counter`, then `uuid::Uuid::new_v1` with `node`, and
/// writes the UUID with `to_string`, which gives the 36 characters of its hyphenated form.
/// The contract names the text by its arguments and states its length; its digits are not
/// stated. `new_v1` fails only on a node id whose length is not 6, and the tick count
/// `0x01B2_1DD2_1381_4000 + seconds * 10_000_000 + nanos / 100` must fit in `u64`.
#[verifier::external_body]
fn uuid_v1(seconds: u64, nanos: u32, counter: u16, node: &[u8]) -> (r: String)
    requires
        node@.len() == 6,
        0x01B2_1DD2_1381_4000 + seconds * 10_000_000 + nanos / 100 <= u64::MAX,
    ensures
        r@ == uuid_v1_text(seconds, nanos, counter, node@),
        r@.len() == 36,
{
    let context = uuid::v1::Context::new(counter);
    let ts = uuid::v1::Timestamp::from_unix(&context, seconds, nanos);
    uuid::Uuid::new_v1(ts, node).unwrap().to_string()
}

/// The clock sequence that every new object id carries.
pub const ID_SEQUENCE: u16 = 42;

/// The id of a new object: the version-1 UUID of the second of the minute
/// `second` and the nanoseconds `nanos` of the local clock, with clock
/// sequence 42 and the object kind's six-byte node id `node`.
pub(crate) fn object_id(second: u32, nanos: u32, node: &[u8]) -> (r: String)
    requires
        node@.len() == 6,
    ensures
        r@ == uuid_v1_text(second as u64, nanos, ID_SEQUENCE, node@),
        r@.len() == 36,
{
    assert(0x01B2_1DD2_1381_4000 + (second as u64) * 10_000_000 + nanos / 100 <= u64::MAX)
        by (nonlinear_arith)
        requires
            second <= u32::MAX,
            nanos <= u32::MAX,
    ;
    uuid_v1(second as u64, nanos, ID_SEQUENCE, node)
}

} // verus!
