use vstd::prelude::*;
use crate::bytes::{bytes_equal, decimal, push_decimal};
use crate::text::same_text;
use crate::web_retrans::keys::{context_key, context_key_spec, retry_key, retry_key_spec};

verus! {

/// One entry of the retransmission schedule: after delivery number
/// `attempt` (its decimal text) failed, wait `seconds` before the next one.
pub struct RetransDelay {
    pub attempt: Vec<u8>,
    pub seconds: u64,
}

/// The waiting time that the schedule gives after delivery `attempt`: its first matching entry.
pub open spec fn delay_for(schedule: Seq<RetransDelay>, attempt: Seq<u8>) -> Option<u64>
    decreases schedule.len(),
{
    if schedule.len() == 0 {
        None
    } else if schedule[0].attempt@ == attempt {
        Some(schedule[0].seconds)
    } else {
        delay_for(schedule.drop_first(), attempt)
    }
}

/// The schedule's waiting time after delivery `attempt` is that of its first
/// entry for `attempt`: entry `j` gives it when no entry before `j` is for
/// `attempt`.
pub proof fn law_delay_of_first_matching_entry(schedule: Seq<RetransDelay>, attempt: Seq<u8>, j: int)
    requires
        0 <= j < schedule.len(),
        schedule[j].attempt@ == attempt,
        forall|k: int| 0 <= k < j ==> schedule[k].attempt@ != attempt,
    ensures
        delay_for(schedule, attempt) == Some(schedule[j].seconds),
    decreases j,
{
    if j > 0 {
        let rest = schedule.drop_first();
        assert forall|k: int| 0 <= k < j - 1 implies rest[k].attempt@ != attempt by {
            assert(rest[k] == schedule[k + 1]);
        }
        assert(schedule[0].attempt@ != attempt);
        law_delay_of_first_matching_entry(rest, attempt, j - 1);
    }
}

/// A schedule without an entry for `attempt` gives no waiting time.
pub proof fn law_no_entry_no_delay(schedule: Seq<RetransDelay>, attempt: Seq<u8>)
    requires
        forall|k: int| 0 <= k < schedule.len() ==> schedule[k].attempt@ != attempt,
    ensures
        delay_for(schedule, attempt) is None,
    decreases schedule.len(),
{
    if schedule.len() > 0 {
        let rest = schedule.drop_first();
        assert forall|k: int| 0 <= k < rest.len() implies rest[k].attempt@ != attempt by {
            assert(rest[k] == schedule[k + 1]);
        }
        assert(schedule[0].attempt@ != attempt);
        law_no_entry_no_delay(rest, attempt);
    }
}

/// What follows a delivery of a webhook event.
pub enum RetransAction {
    /// Nothing more is sent: the stored event is deleted.
    Forget { context_key: Vec<u8> },
    /// A key is written that expires after `seconds` and asks for the next delivery.
    Reschedule { key: Vec<u8>, value: Vec<u8>, seconds: u64 },
}

pub fn find_delay(schedule: &Vec<RetransDelay>, attempt: &[u8]) -> (r: Option<u64>)
    ensures
        r == delay_for(schedule@, attempt@),
{
    let n = schedule.len();
    let mut i: usize = 0;
    assert(schedule@.skip(0) =~= schedule@);
    while i < n
        invariant
            n == schedule@.len(),
            i <= n,
            delay_for(schedule@, attempt@) == delay_for(schedule@.skip(i as int), attempt@),
        decreases n - i,
    {
        assert(schedule@.skip(i as int).drop_first() =~= schedule@.skip(i + 1));
        if bytes_equal(schedule[i].attempt.as_slice(), attempt) {
            return Some(schedule[i].seconds);
        }
        i = i + 1;
    }
    None
}

/// After delivery number `attempt` of the event of `object_id`: a delivered
/// event is forgotten; a failed one is scheduled again after the delay that
/// the schedule gives for `attempt`, or forgotten when it gives none.
pub fn after_delivery(
    delivered: bool,
    object_id: &[u8],
    attempt: u32,
    schedule: &Vec<RetransDelay>,
) -> (r: RetransAction)
    ensures
        delivered ==> r is Forget && r->context_key@ == context_key_spec(object_id@),
        !delivered && delay_for(schedule@, decimal(attempt as nat)) is None ==> r is Forget
            && r->context_key@ == context_key_spec(object_id@),
        !delivered && delay_for(schedule@, decimal(attempt as nat)) is Some ==> r is Reschedule
            && r->key@ == retry_key_spec(object_id@, attempt as nat) && r->value@ == decimal(
            attempt as nat,
        ) && r->seconds == delay_for(schedule@, decimal(attempt as nat))->0,
{
    if delivered {
        return RetransAction::Forget { context_key: context_key(object_id) };
    }
    let mut text: Vec<u8> = Vec::new();
    push_decimal(&mut text, attempt);
    assert(text@ =~= decimal(attempt as nat));
    match find_delay(schedule, text.as_slice()) {
        None => RetransAction::Forget { context_key: context_key(object_id) },
        Some(seconds) => RetransAction::Reschedule {
            key: retry_key(object_id, attempt),
            value: text,
            seconds,
        },
    }
}

/// The wallet whose application receives the event: the object itself for
/// wallet events, else the wallet named in the event's data.
pub fn notify_wallet_id(event: &str, object_id: &str, data_wallet_id: Option<&str>) -> (r: Option<
    String,
>)
    ensures
        (event@ == "wallet.failed"@ || event@ == "wallet.succeeded"@) ==> (r matches Some(w)
            && w@ == object_id@),
        !(event@ == "wallet.failed"@ || event@ == "wallet.succeeded"@) ==> match data_wallet_id {
            Some(d) => (r matches Some(w) && w@ == d@),
            None => r is None,
        },
{
    if same_text(event, "wallet.failed") || same_text(event, "wallet.succeeded") {
        Some(object_id.to_owned())
    } else {
        match data_wallet_id {
            Some(d) => Some(d.to_owned()),
            None => None,
        }
    }
}

} // verus!
