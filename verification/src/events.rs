//! The audit trail: structured events describing each accepted transition,
//! and the spec-level sums that tie the global counters to it.

use vstd::prelude::*;

use crate::addr::AccountId;

verus! {

/// A tip was recorded.
#[derive(Clone)]
pub struct TipRecorded {
    pub user: AccountId,
    pub tip_amount: u64,
    pub points_earned: u64,
    pub reference: String,
}

/// An upvote was recorded.
#[derive(Clone)]
pub struct UpvoteRecorded {
    pub user: AccountId,
    pub creator_address: AccountId,
    pub post_id: String,
    pub points_earned: u64,
}

/// Accumulated points were redeemed for reward tokens.
#[derive(Clone)]
pub struct RewardsClaimed {
    pub user: AccountId,
    pub bonk_amount: u64,
}

/// One entry of the append-only audit trail.
#[derive(Clone)]
pub enum EventRecord {
    Tip(TipRecorded),
    Upvote(UpvoteRecorded),
    Claim(RewardsClaimed),
}

/// The points one event awarded.
pub open spec fn event_points(e: EventRecord) -> int {
    match e {
        EventRecord::Tip(t) => t.points_earned as int,
        EventRecord::Upvote(u) => u.points_earned as int,
        EventRecord::Claim(_) => 0,
    }
}

/// The amount one event tipped.
pub open spec fn event_tipped(e: EventRecord) -> int {
    match e {
        EventRecord::Tip(t) => t.tip_amount as int,
        EventRecord::Upvote(_) => 0,
        EventRecord::Claim(_) => 0,
    }
}

/// Whether an event is a recorded tip.
pub open spec fn is_tip(e: EventRecord) -> bool {
    e is Tip
}

/// The points awarded across a whole audit trail.
pub open spec fn sum_points(s: Seq<EventRecord>) -> int
    decreases s.len(),
{
    if s.len() == 0 {
        0
    } else {
        sum_points(s.drop_last()) + event_points(s.last())
    }
}

/// The amounts tipped across a whole audit trail.
pub open spec fn sum_tipped(s: Seq<EventRecord>) -> int
    decreases s.len(),
{
    if s.len() == 0 {
        0
    } else {
        sum_tipped(s.drop_last()) + event_tipped(s.last())
    }
}

/// How many tips a whole audit trail records.
pub open spec fn count_tips(s: Seq<EventRecord>) -> int
    decreases s.len(),
{
    if s.len() == 0 {
        0
    } else {
        count_tips(s.drop_last()) + if is_tip(s.last()) {
            1int
        } else {
            0int
        }
    }
}

/// Appending one event grows the point sum by exactly that event's points.
pub proof fn lemma_sum_points_push(s: Seq<EventRecord>, e: EventRecord)
    ensures
        sum_points(s.push(e)) == sum_points(s) + event_points(e),
{
    assert(s.push(e).drop_last() =~= s);
}

/// Appending one event grows the tipped sum by exactly that event's amount.
pub proof fn lemma_sum_tipped_push(s: Seq<EventRecord>, e: EventRecord)
    ensures
        sum_tipped(s.push(e)) == sum_tipped(s) + event_tipped(e),
{
    assert(s.push(e).drop_last() =~= s);
}

/// Appending one event grows the tip count by one exactly for a tip.
pub proof fn lemma_count_tips_push(s: Seq<EventRecord>, e: EventRecord)
    ensures
        count_tips(s.push(e)) == count_tips(s) + if is_tip(e) {
            1int
        } else {
            0int
        },
{
    assert(s.push(e).drop_last() =~= s);
}

} // verus!
