//! The two record kinds of the economy: the singleton global aggregate and
//! the per-user account, together with the arithmetic rules that relate their
//! fields.

use vstd::prelude::*;

use crate::addr::AccountId;

verus! {

/// The singleton economy-wide aggregate record.
#[derive(Clone, Copy)]
pub struct GlobalState {
    /// The identity permitted to reconfigure the economy.
    pub authority: AccountId,
    /// The token type distributed as rewards.
    pub bonk_mint: AccountId,
    /// How many tips were recorded; monotonic non-decreasing.
    pub total_tips_sent: u64,
    /// The sum of all tipped amounts; monotonic non-decreasing.
    pub total_bonk_tipped: u64,
    /// The sum of all points awarded; monotonic non-decreasing.
    pub total_vibe_points_distributed: u64,
    /// The address correctness code, fixed at creation.
    pub bump: u8,
}

/// A per-user account record.
#[derive(Clone, Copy)]
pub struct UserState {
    /// The identity this record belongs to; immutable after creation.
    pub user: AccountId,
    /// The current redeemable point balance.
    pub vibe_points: u64,
    /// All reward tokens ever earned; monotonic non-decreasing, never reset.
    pub total_bonk_earned: u64,
    /// How many tips this user sent; monotonic non-decreasing.
    pub total_tips_sent: u64,
    /// How many upvotes this user sent; monotonic non-decreasing.
    pub total_upvotes: u64,
    /// Always `floor(vibe_points / 100) + 1`; never independently set.
    pub level: u64,
    /// The address correctness code, fixed at creation.
    pub bump: u8,
}

/// The level a point balance confers: one step per 100 points, starting at 1.
pub open spec fn level_of(vibe_points: u64) -> int {
    vibe_points as int / 100 + 1
}

/// Points awarded for one tip: 5 base points plus 1 per 100 units tipped.
pub open spec fn tip_points(tip_amount: u64) -> int {
    5 + tip_amount as int / 100
}

/// Points awarded for one upvote, regardless of its arguments.
pub open spec fn upvote_points() -> int {
    1
}

/// Reward-token units redeemable for a point balance: 10 points buy 1 unit.
pub open spec fn claimable_of(vibe_points: u64) -> int {
    vibe_points as int / 10
}

/// A user record is well formed when its level is the pure function of its
/// point balance.
pub open spec fn wf_user(u: UserState) -> bool {
    u.level == level_of(u.vibe_points)
}

/// The global counters of `a` are no larger than those of `b`.
pub open spec fn global_counters_le(a: GlobalState, b: GlobalState) -> bool {
    &&& a.total_tips_sent <= b.total_tips_sent
    &&& a.total_bonk_tipped <= b.total_bonk_tipped
    &&& a.total_vibe_points_distributed <= b.total_vibe_points_distributed
}

/// The per-user counters of `a` are no larger than those of `b`.
pub open spec fn user_counters_le(a: UserState, b: UserState) -> bool {
    &&& a.total_bonk_earned <= b.total_bonk_earned
    &&& a.total_tips_sent <= b.total_tips_sent
    &&& a.total_upvotes <= b.total_upvotes
}

} // verus!
