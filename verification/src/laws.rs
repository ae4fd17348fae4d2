//! The laws of the economy that relate several functions: stated over the
//! spec functions the transition contracts use, and proved once and for all.

use vstd::prelude::*;

use crate::addr::{
    global_address_checks, pda_of, user_address_checks, user_seeds,
};
use crate::events::{count_tips, sum_points, sum_tipped};
use crate::ledger::Ledger;
use crate::records::level_of;

verus! {

/// Law: after any accepted-transition history, every user's level is the
/// pure function of that user's current point balance.
pub proof fn lemma_level_law(l: Ledger, i: int)
    requires
        l.wf(),
        0 <= i < l.users@.len(),
    ensures
        l.users@[i].state.level == level_of(l.users@[i].state.vibe_points),
{
}

/// Law: after any accepted-transition history, the global counters equal
/// the sums over the audit trail — points distributed equal the points
/// awarded across all accepted tip and upvote calls, amounts tipped equal
/// the sum of all tipped amounts, and tips recorded equal the tip count.
pub proof fn lemma_aggregate_consistency(l: Ledger)
    requires
        l.wf(),
        l.has_global(),
    ensures
        l.global_entry().state.total_vibe_points_distributed == sum_points(l.events@),
        l.global_entry().state.total_bonk_tipped == sum_tipped(l.events@),
        l.global_entry().state.total_tips_sent == count_tips(l.events@),
{
}

/// Law: deriving an owner's record address is deterministic — any two
/// derivations from the same owner and program id agree on the address and
/// the bump.
pub proof fn lemma_derivation_deterministic(
    owner: Seq<u8>,
    program_id: Seq<u8>,
    a1: Seq<u8>,
    b1: u8,
    a2: Seq<u8>,
    b2: u8,
)
    requires
        pda_of(user_seeds(owner), program_id) == Some((a1, b1)),
        pda_of(user_seeds(owner), program_id) == Some((a2, b2)),
    ensures
        a1 == a2,
        b1 == b2,
{
}

/// Law: re-deriving a user record's address from its stored owner and bump
/// reproduces one address — two claimed addresses that both pass the
/// re-derivation check are the same address.
pub proof fn lemma_rederivation_idempotent(
    owner: Seq<u8>,
    bump: u8,
    program_id: Seq<u8>,
    a1: Seq<u8>,
    a2: Seq<u8>,
)
    requires
        user_address_checks(owner, bump, program_id, a1),
        user_address_checks(owner, bump, program_id, a2),
    ensures
        a1 == a2,
{
}

/// Law: re-deriving the global record's address from its stored bump
/// reproduces one address.
pub proof fn lemma_global_rederivation_idempotent(
    bump: u8,
    program_id: Seq<u8>,
    a1: Seq<u8>,
    a2: Seq<u8>,
)
    requires
        global_address_checks(bump, program_id, a1),
        global_address_checks(bump, program_id, a2),
    ensures
        a1 == a2,
{
}

} // verus!
