//! The state transitions of the reward economy. Every transition validates
//! addressing, record existence and ownership before any mutation, and is
//! applied all or nothing: a rejected request leaves every record unchanged.

use vstd::prelude::*;

use crate::addr::{
    check_global_address, check_user_address, derive_global_address, derive_user_address,
    global_address_checks, global_seeds, id_eq, pda_create, pda_of, user_address_checks,
    user_seeds, with_bump, AccountId,
};
use crate::errors::SolCreatorError;
use crate::events::{
    lemma_count_tips_push, lemma_sum_points_push, lemma_sum_tipped_push, EventRecord,
    RewardsClaimed, TipRecorded, UpvoteRecorded,
};
use crate::ledger::{GlobalEntry, Ledger, UserEntry};
use crate::records::{
    claimable_of, level_of, tip_points, upvote_points, GlobalState, UserState,
};
use crate::token::{settle_transfer, transfer_accepted, TokenAccount};

verus! {

/// The accounts an initialize-economy request names.
#[derive(Clone, Copy)]
pub struct Initialize {
    /// The claimed address of the global record to create.
    pub global_state: AccountId,
    /// The token type to distribute as rewards.
    pub bonk_mint: AccountId,
    /// The authenticated caller; becomes the economy's authority.
    pub authority: AccountId,
}

/// The accounts an initialize-user request names.
#[derive(Clone, Copy)]
pub struct InitializeUser {
    /// The claimed address of the user record to create.
    pub user_state: AccountId,
    /// The authenticated caller; becomes the record's owner.
    pub user: AccountId,
}

/// The accounts a record-tip request names.
#[derive(Clone, Copy)]
pub struct RecordTip {
    /// The claimed address of the caller's user record.
    pub user_state: AccountId,
    /// The claimed address of the global record.
    pub global_state: AccountId,
    /// The authenticated caller.
    pub user: AccountId,
}

/// The accounts a record-upvote request names.
#[derive(Clone, Copy)]
pub struct RecordUpvote {
    /// The claimed address of the caller's user record.
    pub user_state: AccountId,
    /// The claimed address of the global record.
    pub global_state: AccountId,
    /// The authenticated caller.
    pub user: AccountId,
}

/// The accounts a claim-rewards request names.
#[derive(Clone, Copy)]
pub struct ClaimRewards {
    /// The claimed address of the caller's user record.
    pub user_state: AccountId,
    /// The claimed address of the global record.
    pub global_state: AccountId,
    /// The token type the caller expects to be rewarded in.
    pub bonk_mint: AccountId,
    /// The authenticated caller.
    pub user: AccountId,
}

/// The accounts an update-config request names.
#[derive(Clone, Copy)]
pub struct UpdateConfig {
    /// The claimed address of the global record.
    pub global_state: AccountId,
    /// The authenticated caller; must be the current authority.
    pub authority: AccountId,
}

/// Why an initialize-economy request is rejected, or `None` when it is owed
/// success: the economy must not exist yet, and the claimed address must be
/// the derived one.
pub open spec fn initialize_error(l: Ledger, ctx: Initialize) -> Option<SolCreatorError> {
    if l.has_global() {
        Some(SolCreatorError::AlreadyInitialized)
    } else if !(pda_of(global_seeds(), l.program_id@) matches Some(p) && p.0 == ctx.global_state@) {
        Some(SolCreatorError::AddressMismatch)
    } else {
        None
    }
}

/// Create the singleton global record with all counters at zero.
pub fn initialize(ledger: &mut Ledger, ctx: Initialize) -> (r: Result<(), SolCreatorError>)
    requires
        old(ledger).wf(),
    ensures
        final(ledger).wf(),
        final(ledger).program_id == old(ledger).program_id,
        Ledger::monotone_step(*old(ledger), *final(ledger)),
        match r {
            Err(e) => {
                &&& initialize_error(*old(ledger), ctx) == Some(e)
                &&& *final(ledger) == *old(ledger)
            },
            Ok(()) => {
                &&& initialize_error(*old(ledger), ctx) is None
                &&& final(ledger).users@ == old(ledger).users@
                &&& final(ledger).events@ == old(ledger).events@
                &&& final(ledger).global matches Some(g) && {
                    &&& g.address == ctx.global_state
                    &&& g.state.authority == ctx.authority
                    &&& g.state.bonk_mint == ctx.bonk_mint
                    &&& g.state.total_tips_sent == 0
                    &&& g.state.total_bonk_tipped == 0
                    &&& g.state.total_vibe_points_distributed == 0
                    &&& pda_of(global_seeds(), old(ledger).program_id@) == Some(
                        (g.address@, g.state.bump),
                    )
                    &&& pda_create(with_bump(global_seeds(), g.state.bump), old(ledger).program_id@)
                        == Some(g.address@)
                }
            },
        },
{
    if ledger.global.is_some() {
        return Err(SolCreatorError::AlreadyInitialized);
    }
    match derive_global_address(&ledger.program_id) {
        None => Err(SolCreatorError::AddressMismatch),
        Some((addr, bump)) => {
            if !id_eq(&addr, &ctx.global_state) {
                return Err(SolCreatorError::AddressMismatch);
            }
            proof {
                assert(addr@ =~= ctx.global_state@);
                assert(addr =~= ctx.global_state);
            }
            ledger.global = Some(
                GlobalEntry {
                    address: ctx.global_state,
                    state: GlobalState {
                        authority: ctx.authority,
                        bonk_mint: ctx.bonk_mint,
                        total_tips_sent: 0,
                        total_bonk_tipped: 0,
                        total_vibe_points_distributed: 0,
                        bump,
                    },
                },
            );
            proof {
                assert(ledger.events@.len() == 0);
                assert(crate::events::sum_points(ledger.events@) == 0);
                assert(crate::events::sum_tipped(ledger.events@) == 0);
                assert(crate::events::count_tips(ledger.events@) == 0);
            }
            Ok(())
        },
    }
}

/// Why an initialize-user request is rejected, or `None` when it is owed
/// success: the claimed address must be the one derived from the caller's
/// identity, and neither the caller nor the address may have a record yet.
pub open spec fn initialize_user_error(l: Ledger, ctx: InitializeUser) -> Option<SolCreatorError> {
    if !(pda_of(user_seeds(ctx.user@), l.program_id@) matches Some(p) && p.0 == ctx.user_state@) {
        Some(SolCreatorError::AddressMismatch)
    } else if l.has_owner(ctx.user@) || l.has_user_at(ctx.user_state@) {
        Some(SolCreatorError::AlreadyInitialized)
    } else {
        None
    }
}

/// Create the calling identity's user record, with no points and level 1.
pub fn initialize_user(ledger: &mut Ledger, ctx: InitializeUser) -> (r: Result<
    (),
    SolCreatorError,
>)
    requires
        old(ledger).wf(),
    ensures
        final(ledger).wf(),
        final(ledger).program_id == old(ledger).program_id,
        Ledger::monotone_step(*old(ledger), *final(ledger)),
        match r {
            Err(e) => {
                &&& initialize_user_error(*old(ledger), ctx) == Some(e)
                &&& *final(ledger) == *old(ledger)
            },
            Ok(()) => {
                &&& initialize_user_error(*old(ledger), ctx) is None
                &&& final(ledger).global == old(ledger).global
                &&& final(ledger).events@ == old(ledger).events@
                &&& pda_of(user_seeds(ctx.user@), old(ledger).program_id@) matches Some(p) && {
                    &&& final(ledger).users@ == old(ledger).users@.push(
                        (UserEntry {
                            address: ctx.user_state,
                            state: (UserState {
                                user: ctx.user,
                                vibe_points: 0,
                                total_bonk_earned: 0,
                                total_tips_sent: 0,
                                total_upvotes: 0,
                                level: 1,
                                bump: p.1,
                            }),
                        }),
                    )
                    &&& pda_create(with_bump(user_seeds(ctx.user@), p.1), old(ledger).program_id@)
                        == Some(ctx.user_state@)
                }
            },
        },
{
    match derive_user_address(&ctx.user, &ledger.program_id) {
        None => Err(SolCreatorError::AddressMismatch),
        Some((addr, bump)) => {
            if !id_eq(&addr, &ctx.user_state) {
                return Err(SolCreatorError::AddressMismatch);
            }
            proof {
                assert(addr =~= ctx.user_state);
            }
            if ledger.find_owner(&ctx.user).is_some() {
                return Err(SolCreatorError::AlreadyInitialized);
            }
            if ledger.find_user(&ctx.user_state).is_some() {
                return Err(SolCreatorError::AlreadyInitialized);
            }
            let entry = UserEntry {
                address: ctx.user_state,
                state: UserState {
                    user: ctx.user,
                    vibe_points: 0,
                    total_bonk_earned: 0,
                    total_tips_sent: 0,
                    total_upvotes: 0,
                    level: 1,
                    bump,
                },
            };
            ledger.users.push(entry);
            proof {
                let pre = old(ledger).users@;
                let post = ledger.users@;
                assert(post == pre.push(entry));
                assert(!old(ledger).has_owner(ctx.user@));
                assert(!old(ledger).has_user_at(ctx.user_state@));
                assert forall|i: int| 0 <= i < post.len() implies crate::records::wf_user(
                    #[trigger] post[i].state,
                ) by {
                    if i < pre.len() {
                        assert(crate::records::wf_user(pre[i].state));
                    }
                }
                assert forall|i: int, j: int|
                    0 <= i < post.len() && 0 <= j < post.len() && i != j implies (
                #[trigger] post[i].state.user@) != (#[trigger] post[j].state.user@) by {
                    if i < pre.len() && j < pre.len() {
                        assert(pre[i].state.user@ != pre[j].state.user@);
                    } else if i < pre.len() {
                        assert(pre[i].state.user@ != ctx.user@);
                    } else {
                        assert(pre[j].state.user@ != ctx.user@);
                    }
                }
                assert forall|i: int, j: int|
                    0 <= i < post.len() && 0 <= j < post.len() && i != j implies (
                #[trigger] post[i].address@) != (#[trigger] post[j].address@) by {
                    if i < pre.len() && j < pre.len() {
                        assert(pre[i].address@ != pre[j].address@);
                    } else if i < pre.len() {
                        assert(pre[i].address@ != ctx.user_state@);
                    } else {
                        assert(pre[j].address@ != ctx.user_state@);
                    }
                }
            }
            Ok(())
        },
    }
}

/// Why loading the global record and the caller's user record fails, or
/// `None` when every check passes: both records must exist at their claimed
/// addresses, both must re-derive from their stored fields, and the user
/// record must be owned by the caller.
pub open spec fn access_error(
    l: Ledger,
    global_claimed: Seq<u8>,
    user_claimed: Seq<u8>,
    caller: Seq<u8>,
) -> Option<SolCreatorError> {
    if !(l.has_global() && l.global_entry().address@ == global_claimed) {
        Some(SolCreatorError::NotFound)
    } else if !global_address_checks(l.global_entry().state.bump, l.program_id@, global_claimed) {
        Some(SolCreatorError::AddressMismatch)
    } else if !l.has_user_at(user_claimed) {
        Some(SolCreatorError::NotFound)
    } else if !user_address_checks(
        l.user_at(user_claimed).state.user@,
        l.user_at(user_claimed).state.bump,
        l.program_id@,
        user_claimed,
    ) {
        Some(SolCreatorError::AddressMismatch)
    } else if l.user_at(user_claimed).state.user@ != caller {
        Some(SolCreatorError::Unauthorized)
    } else {
        None
    }
}

/// Load the global record and the caller's user record, re-verifying both
/// addresses and the caller's ownership. Returns the user record's position.
fn load_access(
    ledger: &Ledger,
    global_claimed: &AccountId,
    user_claimed: &AccountId,
    caller: &AccountId,
) -> (r: Result<usize, SolCreatorError>)
    requires
        ledger.users_wf(),
    ensures
        match r {
            Ok(i) => {
                &&& access_error(*ledger, global_claimed@, user_claimed@, caller@) is None
                &&& i < ledger.users@.len()
                &&& ledger.users@[i as int].address@ == user_claimed@
                &&& ledger.user_index_of(user_claimed@) == i
                &&& ledger.has_user_at(user_claimed@)
            },
            Err(e) => access_error(*ledger, global_claimed@, user_claimed@, caller@) == Some(e),
        },
{
    let g = match &ledger.global {
        Some(g) => g,
        None => {
            return Err(SolCreatorError::NotFound);
        },
    };
    if !id_eq(&g.address, global_claimed) {
        return Err(SolCreatorError::NotFound);
    }
    if let Err(e) = check_global_address(global_claimed, g.state.bump, &ledger.program_id) {
        return Err(e);
    }
    let ui = match ledger.find_user(user_claimed) {
        Some(i) => i,
        None => {
            return Err(SolCreatorError::NotFound);
        },
    };
    proof {
        ledger.lemma_user_index(ui as int);
    }
    let u = &ledger.users[ui];
    if let Err(e) = check_user_address(user_claimed, &u.state.user, u.state.bump, &ledger.program_id)
         {
        return Err(e);
    }
    if !id_eq(&u.state.user, caller) {
        return Err(SolCreatorError::Unauthorized);
    }
    Ok(ui)
}

/// Whether awarding a tip would push a counter past the representable range.
pub open spec fn record_tip_overflows(g: GlobalState, u: UserState, tip_amount: u64) -> bool {
    ||| u.vibe_points + tip_points(tip_amount) > u64::MAX
    ||| u.total_tips_sent + 1 > u64::MAX
    ||| g.total_tips_sent + 1 > u64::MAX
    ||| g.total_bonk_tipped + tip_amount > u64::MAX
    ||| g.total_vibe_points_distributed + tip_points(tip_amount) > u64::MAX
}

/// Why a record-tip request is rejected, or `None` when it is owed success.
pub open spec fn record_tip_error(l: Ledger, ctx: RecordTip, tip_amount: u64) -> Option<
    SolCreatorError,
> {
    match access_error(l, ctx.global_state@, ctx.user_state@, ctx.user@) {
        Some(e) => Some(e),
        None => if record_tip_overflows(
            l.global_entry().state,
            l.user_at(ctx.user_state@).state,
            tip_amount,
        ) {
            Some(SolCreatorError::ArithmeticOverflow)
        } else {
            None
        },
    }
}

/// Record a tip and award points: 5 base points plus 1 per 100 units tipped,
/// counted on the caller's record and on the global aggregate alike.
pub fn record_tip(
    ledger: &mut Ledger,
    ctx: RecordTip,
    tip_amount: u64,
    reference: String,
) -> (r: Result<TipRecorded, SolCreatorError>)
    requires
        old(ledger).wf(),
    ensures
        final(ledger).wf(),
        final(ledger).program_id == old(ledger).program_id,
        Ledger::monotone_step(*old(ledger), *final(ledger)),
        match r {
            Err(e) => {
                &&& record_tip_error(*old(ledger), ctx, tip_amount) == Some(e)
                &&& *final(ledger) == *old(ledger)
            },
            Ok(ev) => {
                &&& record_tip_error(*old(ledger), ctx, tip_amount) is None
                &&& ev.user == ctx.user
                &&& ev.tip_amount == tip_amount
                &&& ev.points_earned == tip_points(tip_amount)
                &&& ev.reference@ == reference@
                &&& ({
                    let i = old(ledger).user_index_of(ctx.user_state@);
                    let oe = old(ledger).users@[i];
                    let og = old(ledger).global_entry();
                    let new_vibe = (oe.state.vibe_points + tip_points(tip_amount)) as u64;
                    &&& final(ledger).users@ == old(ledger).users@.update(
                        i,
                        (UserEntry {
                            address: oe.address,
                            state: (UserState {
                                user: oe.state.user,
                                vibe_points: new_vibe,
                                total_bonk_earned: oe.state.total_bonk_earned,
                                total_tips_sent: (oe.state.total_tips_sent + 1) as u64,
                                total_upvotes: oe.state.total_upvotes,
                                level: level_of(new_vibe) as u64,
                                bump: oe.state.bump,
                            }),
                        }),
                    )
                    &&& final(ledger).global == Some(
                        GlobalEntry {
                            address: og.address,
                            state: (GlobalState {
                                authority: og.state.authority,
                                bonk_mint: og.state.bonk_mint,
                                total_tips_sent: (og.state.total_tips_sent + 1) as u64,
                                total_bonk_tipped: (og.state.total_bonk_tipped + tip_amount) as u64,
                                total_vibe_points_distributed: (og.state.total_vibe_points_distributed
                                    + tip_points(tip_amount)) as u64,
                                bump: og.state.bump,
                            }),
                        },
                    )
                    &&& final(ledger).events@ == old(ledger).events@.push(EventRecord::Tip(ev))
                })
            },
        },
{
    let ui = match load_access(ledger, &ctx.global_state, &ctx.user_state, &ctx.user) {
        Ok(i) => i,
        Err(e) => {
            return Err(e);
        },
    };
    let g = match &ledger.global {
        Some(g) => *g,
        None => {
            return Err(SolCreatorError::NotFound);
        },
    };
    let u = ledger.users[ui];
    let bonus = tip_amount / 100;
    let points = 5 + bonus;
    let new_vibe = match u.state.vibe_points.checked_add(points) {
        Some(v) => v,
        None => {
            return Err(SolCreatorError::ArithmeticOverflow);
        },
    };
    let new_user_tips = match u.state.total_tips_sent.checked_add(1) {
        Some(v) => v,
        None => {
            return Err(SolCreatorError::ArithmeticOverflow);
        },
    };
    let new_g_tips = match g.state.total_tips_sent.checked_add(1) {
        Some(v) => v,
        None => {
            return Err(SolCreatorError::ArithmeticOverflow);
        },
    };
    let new_g_tipped = match g.state.total_bonk_tipped.checked_add(tip_amount) {
        Some(v) => v,
        None => {
            return Err(SolCreatorError::ArithmeticOverflow);
        },
    };
    let new_g_points = match g.state.total_vibe_points_distributed.checked_add(points) {
        Some(v) => v,
        None => {
            return Err(SolCreatorError::ArithmeticOverflow);
        },
    };
    let new_level = new_vibe / 100 + 1;
    ledger.users[ui] = UserEntry {
        address: u.address,
        state: UserState {
            user: u.state.user,
            vibe_points: new_vibe,
            total_bonk_earned: u.state.total_bonk_earned,
            total_tips_sent: new_user_tips,
            total_upvotes: u.state.total_upvotes,
            level: new_level,
            bump: u.state.bump,
        },
    };
    ledger.global = Some(
        GlobalEntry {
            address: g.address,
            state: GlobalState {
                authority: g.state.authority,
                bonk_mint: g.state.bonk_mint,
                total_tips_sent: new_g_tips,
                total_bonk_tipped: new_g_tipped,
                total_vibe_points_distributed: new_g_points,
                bump: g.state.bump,
            },
        },
    );
    let ev = TipRecorded { user: ctx.user, tip_amount, points_earned: points, reference };
    let ev_log = TipRecorded {
        user: ev.user,
        tip_amount: ev.tip_amount,
        points_earned: ev.points_earned,
        reference: ev.reference.clone(),
    };
    proof {
        assert(ev_log == ev);
    }
    let pre_events = Ghost(ledger.events@);
    ledger.events.push(EventRecord::Tip(ev_log));
    proof {
        lemma_sum_points_push(pre_events@, EventRecord::Tip(ev_log));
        lemma_sum_tipped_push(pre_events@, EventRecord::Tip(ev_log));
        lemma_count_tips_push(pre_events@, EventRecord::Tip(ev_log));
        let preu = old(ledger).users@;
        let postu = ledger.users@;
        assert forall|i: int| 0 <= i < postu.len() implies crate::records::wf_user(
            #[trigger] postu[i].state,
        ) by {
            if i != ui as int {
                assert(postu[i] == preu[i]);
                assert(crate::records::wf_user(preu[i].state));
            }
        }
        assert forall|i: int, j: int|
            0 <= i < postu.len() && 0 <= j < postu.len() && i != j implies (
        #[trigger] postu[i].state.user@) != (#[trigger] postu[j].state.user@) by {
            assert(postu[i].state.user == preu[i].state.user);
            assert(postu[j].state.user == preu[j].state.user);
            assert(preu[i].state.user@ != preu[j].state.user@);
        }
        assert forall|i: int, j: int|
            0 <= i < postu.len() && 0 <= j < postu.len() && i != j implies (
        #[trigger] postu[i].address@) != (#[trigger] postu[j].address@) by {
            assert(postu[i].address == preu[i].address);
            assert(postu[j].address == preu[j].address);
            assert(preu[i].address@ != preu[j].address@);
        }
    }
    Ok(ev)
}

/// Whether awarding an upvote would push a counter past the representable
/// range.
pub open spec fn record_upvote_overflows(g: GlobalState, u: UserState) -> bool {
    ||| u.vibe_points + upvote_points() > u64::MAX
    ||| u.total_upvotes + 1 > u64::MAX
    ||| g.total_vibe_points_distributed + upvote_points() > u64::MAX
}

/// Why a record-upvote request is rejected, or `None` when it is owed
/// success.
pub open spec fn record_upvote_error(l: Ledger, ctx: RecordUpvote) -> Option<SolCreatorError> {
    match access_error(l, ctx.global_state@, ctx.user_state@, ctx.user@) {
        Some(e) => Some(e),
        None => if record_upvote_overflows(
            l.global_entry().state,
            l.user_at(ctx.user_state@).state,
        ) {
            Some(SolCreatorError::ArithmeticOverflow)
        } else {
            None
        },
    }
}

/// Record an upvote and award exactly one point, regardless of the upvoted
/// creator or post. The creator's address is carried through for audit only.
pub fn record_upvote(
    ledger: &mut Ledger,
    ctx: RecordUpvote,
    creator_address: AccountId,
    post_id: String,
) -> (r: Result<UpvoteRecorded, SolCreatorError>)
    requires
        old(ledger).wf(),
    ensures
        final(ledger).wf(),
        final(ledger).program_id == old(ledger).program_id,
        Ledger::monotone_step(*old(ledger), *final(ledger)),
        match r {
            Err(e) => {
                &&& record_upvote_error(*old(ledger), ctx) == Some(e)
                &&& *final(ledger) == *old(ledger)
            },
            Ok(ev) => {
                &&& record_upvote_error(*old(ledger), ctx) is None
                &&& ev.user == ctx.user
                &&& ev.creator_address == creator_address
                &&& ev.post_id@ == post_id@
                &&& ev.points_earned == upvote_points()
                &&& ({
                    let i = old(ledger).user_index_of(ctx.user_state@);
                    let oe = old(ledger).users@[i];
                    let og = old(ledger).global_entry();
                    let new_vibe = (oe.state.vibe_points + upvote_points()) as u64;
                    &&& final(ledger).users@ == old(ledger).users@.update(
                        i,
                        (UserEntry {
                            address: oe.address,
                            state: (UserState {
                                user: oe.state.user,
                                vibe_points: new_vibe,
                                total_bonk_earned: oe.state.total_bonk_earned,
                                total_tips_sent: oe.state.total_tips_sent,
                                total_upvotes: (oe.state.total_upvotes + 1) as u64,
                                level: level_of(new_vibe) as u64,
                                bump: oe.state.bump,
                            }),
                        }),
                    )
                    &&& final(ledger).global == Some(
                        GlobalEntry {
                            address: og.address,
                            state: (GlobalState {
                                authority: og.state.authority,
                                bonk_mint: og.state.bonk_mint,
                                total_tips_sent: og.state.total_tips_sent,
                                total_bonk_tipped: og.state.total_bonk_tipped,
                                total_vibe_points_distributed: (og.state.total_vibe_points_distributed
                                    + upvote_points()) as u64,
                                bump: og.state.bump,
                            }),
                        },
                    )
                    &&& final(ledger).events@ == old(ledger).events@.push(EventRecord::Upvote(ev))
                })
            },
        },
{
    let ui = match load_access(ledger, &ctx.global_state, &ctx.user_state, &ctx.user) {
        Ok(i) => i,
        Err(e) => {
            return Err(e);
        },
    };
    let g = match &ledger.global {
        Some(g) => *g,
        None => {
            return Err(SolCreatorError::NotFound);
        },
    };
    let u = ledger.users[ui];
    let points: u64 = 1;
    let new_vibe = match u.state.vibe_points.checked_add(points) {
        Some(v) => v,
        None => {
            return Err(SolCreatorError::ArithmeticOverflow);
        },
    };
    let new_upvotes = match u.state.total_upvotes.checked_add(1) {
        Some(v) => v,
        None => {
            return Err(SolCreatorError::ArithmeticOverflow);
        },
    };
    let new_g_points = match g.state.total_vibe_points_distributed.checked_add(points) {
        Some(v) => v,
        None => {
            return Err(SolCreatorError::ArithmeticOverflow);
        },
    };
    let new_level = new_vibe / 100 + 1;
    ledger.users[ui] = UserEntry {
        address: u.address,
        state: UserState {
            user: u.state.user,
            vibe_points: new_vibe,
            total_bonk_earned: u.state.total_bonk_earned,
            total_tips_sent: u.state.total_tips_sent,
            total_upvotes: new_upvotes,
            level: new_level,
            bump: u.state.bump,
        },
    };
    ledger.global = Some(
        GlobalEntry {
            address: g.address,
            state: GlobalState {
                authority: g.state.authority,
                bonk_mint: g.state.bonk_mint,
                total_tips_sent: g.state.total_tips_sent,
                total_bonk_tipped: g.state.total_bonk_tipped,
                total_vibe_points_distributed: new_g_points,
                bump: g.state.bump,
            },
        },
    );
    let ev = UpvoteRecorded { user: ctx.user, creator_address, post_id, points_earned: points };
    let ev_log = UpvoteRecorded {
        user: ev.user,
        creator_address: ev.creator_address,
        post_id: ev.post_id.clone(),
        points_earned: ev.points_earned,
    };
    proof {
        assert(ev_log == ev);
    }
    let pre_events = Ghost(ledger.events@);
    ledger.events.push(EventRecord::Upvote(ev_log));
    proof {
        lemma_sum_points_push(pre_events@, EventRecord::Upvote(ev_log));
        lemma_sum_tipped_push(pre_events@, EventRecord::Upvote(ev_log));
        lemma_count_tips_push(pre_events@, EventRecord::Upvote(ev_log));
        let preu = old(ledger).users@;
        let postu = ledger.users@;
        assert forall|i: int| 0 <= i < postu.len() implies crate::records::wf_user(
            #[trigger] postu[i].state,
        ) by {
            if i != ui as int {
                assert(postu[i] == preu[i]);
                assert(crate::records::wf_user(preu[i].state));
            }
        }
        assert forall|i: int, j: int|
            0 <= i < postu.len() && 0 <= j < postu.len() && i != j implies (
        #[trigger] postu[i].state.user@) != (#[trigger] postu[j].state.user@) by {
            assert(postu[i].state.user == preu[i].state.user);
            assert(postu[j].state.user == preu[j].state.user);
            assert(preu[i].state.user@ != preu[j].state.user@);
        }
        assert forall|i: int, j: int|
            0 <= i < postu.len() && 0 <= j < postu.len() && i != j implies (
        #[trigger] postu[i].address@) != (#[trigger] postu[j].address@) by {
            assert(postu[i].address == preu[i].address);
            assert(postu[j].address == preu[j].address);
            assert(preu[i].address@ != preu[j].address@);
        }
    }
    Ok(ev)
}

/// Whether the token accounts handed to a claim are the expected ones: the
/// pool and the recipient account must hold the token type the request
/// names, and the recipient account must belong to the caller.
pub open spec fn claim_accounts_ok(
    ctx: ClaimRewards,
    treasury: TokenAccount,
    recipient: TokenAccount,
) -> bool {
    &&& treasury.mint@ == ctx.bonk_mint@
    &&& recipient.owner@ == ctx.user@
    &&& recipient.mint@ == ctx.bonk_mint@
}

/// Why a claim-rewards request is rejected, or `None` when it is owed
/// success: after the access checks, the caller must have a redeemable
/// amount, the settlement must accept the transfer, and the caller's
/// cumulative counter must not overflow.
pub open spec fn claim_rewards_error(
    l: Ledger,
    ctx: ClaimRewards,
    treasury: TokenAccount,
    recipient: TokenAccount,
) -> Option<SolCreatorError> {
    match access_error(l, ctx.global_state@, ctx.user_state@, ctx.user@) {
        Some(e) => Some(e),
        None => {
            let u = l.user_at(ctx.user_state@).state;
            let claimable = claimable_of(u.vibe_points);
            if claimable == 0 {
                Some(SolCreatorError::NoRewardsToClaim)
            } else if !(claim_accounts_ok(ctx, treasury, recipient) && transfer_accepted(
                treasury,
                recipient,
                claimable as u64,
            )) {
                Some(SolCreatorError::SettlementFailed)
            } else if u.total_bonk_earned + claimable > u64::MAX {
                Some(SolCreatorError::ArithmeticOverflow)
            } else {
                None
            }
        },
    }
}

/// Redeem the caller's accumulated points for reward tokens: 10 points buy
/// one unit, moved from the pool to the caller's token account; the point
/// balance resets to zero. The whole transition is applied all or nothing:
/// a rejected settlement leaves every record and balance unchanged.
pub fn claim_rewards(
    ledger: &mut Ledger,
    ctx: ClaimRewards,
    treasury: &mut TokenAccount,
    user_token_account: &mut TokenAccount,
) -> (r: Result<RewardsClaimed, SolCreatorError>)
    requires
        old(ledger).wf(),
    ensures
        final(ledger).wf(),
        final(ledger).program_id == old(ledger).program_id,
        Ledger::monotone_step(*old(ledger), *final(ledger)),
        match r {
            Err(e) => {
                &&& claim_rewards_error(
                    *old(ledger),
                    ctx,
                    *old(treasury),
                    *old(user_token_account),
                ) == Some(e)
                &&& *final(ledger) == *old(ledger)
                &&& *final(treasury) == *old(treasury)
                &&& *final(user_token_account) == *old(user_token_account)
            },
            Ok(ev) => {
                &&& claim_rewards_error(
                    *old(ledger),
                    ctx,
                    *old(treasury),
                    *old(user_token_account),
                ) is None
                &&& ({
                    let i = old(ledger).user_index_of(ctx.user_state@);
                    let oe = old(ledger).users@[i];
                    let claimable = claimable_of(oe.state.vibe_points);
                    &&& ev.user == ctx.user
                    &&& ev.bonk_amount == claimable
                    &&& final(ledger).users@ == old(ledger).users@.update(
                        i,
                        (UserEntry {
                            address: oe.address,
                            state: (UserState {
                                user: oe.state.user,
                                vibe_points: 0,
                                total_bonk_earned: (oe.state.total_bonk_earned + claimable) as u64,
                                total_tips_sent: oe.state.total_tips_sent,
                                total_upvotes: oe.state.total_upvotes,
                                level: 1,
                                bump: oe.state.bump,
                            }),
                        }),
                    )
                    &&& final(ledger).global == old(ledger).global
                    &&& final(ledger).events@ == old(ledger).events@.push(EventRecord::Claim(ev))
                    &&& final(treasury).owner == old(treasury).owner
                    &&& final(treasury).mint == old(treasury).mint
                    &&& final(treasury).amount == old(treasury).amount - claimable
                    &&& final(user_token_account).owner == old(user_token_account).owner
                    &&& final(user_token_account).mint == old(user_token_account).mint
                    &&& final(user_token_account).amount == old(user_token_account).amount
                        + claimable
                })
            },
        },
{
    let ui = match load_access(ledger, &ctx.global_state, &ctx.user_state, &ctx.user) {
        Ok(i) => i,
        Err(e) => {
            return Err(e);
        },
    };
    let u = ledger.users[ui];
    let claimable = u.state.vibe_points / 10;
    if claimable == 0 {
        return Err(SolCreatorError::NoRewardsToClaim);
    }
    if !id_eq(&treasury.mint, &ctx.bonk_mint) {
        return Err(SolCreatorError::SettlementFailed);
    }
    if !id_eq(&user_token_account.owner, &ctx.user) {
        return Err(SolCreatorError::SettlementFailed);
    }
    if !id_eq(&user_token_account.mint, &ctx.bonk_mint) {
        return Err(SolCreatorError::SettlementFailed);
    }
    if treasury.amount < claimable {
        return Err(SolCreatorError::SettlementFailed);
    }
    if user_token_account.amount.checked_add(claimable).is_none() {
        return Err(SolCreatorError::SettlementFailed);
    }
    let new_total_bonk = match u.state.total_bonk_earned.checked_add(claimable) {
        Some(v) => v,
        None => {
            return Err(SolCreatorError::ArithmeticOverflow);
        },
    };
    if let Err(e) = settle_transfer(treasury, user_token_account, claimable) {
        return Err(e);
    }
    ledger.users[ui] = UserEntry {
        address: u.address,
        state: UserState {
            user: u.state.user,
            vibe_points: 0,
            total_bonk_earned: new_total_bonk,
            total_tips_sent: u.state.total_tips_sent,
            total_upvotes: u.state.total_upvotes,
            level: 1,
            bump: u.state.bump,
        },
    };
    let ev = RewardsClaimed { user: ctx.user, bonk_amount: claimable };
    let ev_log = RewardsClaimed { user: ev.user, bonk_amount: ev.bonk_amount };
    proof {
        assert(ev_log == ev);
    }
    let pre_events = Ghost(ledger.events@);
    ledger.events.push(EventRecord::Claim(ev_log));
    proof {
        lemma_sum_points_push(pre_events@, EventRecord::Claim(ev_log));
        lemma_sum_tipped_push(pre_events@, EventRecord::Claim(ev_log));
        lemma_count_tips_push(pre_events@, EventRecord::Claim(ev_log));
        let preu = old(ledger).users@;
        let postu = ledger.users@;
        assert forall|i: int| 0 <= i < postu.len() implies crate::records::wf_user(
            #[trigger] postu[i].state,
        ) by {
            if i != ui as int {
                assert(postu[i] == preu[i]);
                assert(crate::records::wf_user(preu[i].state));
            }
        }
        assert forall|i: int, j: int|
            0 <= i < postu.len() && 0 <= j < postu.len() && i != j implies (
        #[trigger] postu[i].state.user@) != (#[trigger] postu[j].state.user@) by {
            assert(postu[i].state.user == preu[i].state.user);
            assert(postu[j].state.user == preu[j].state.user);
            assert(preu[i].state.user@ != preu[j].state.user@);
        }
        assert forall|i: int, j: int|
            0 <= i < postu.len() && 0 <= j < postu.len() && i != j implies (
        #[trigger] postu[i].address@) != (#[trigger] postu[j].address@) by {
            assert(postu[i].address == preu[i].address);
            assert(postu[j].address == preu[j].address);
            assert(preu[i].address@ != preu[j].address@);
        }
    }
    Ok(ev)
}

/// Why an update-config request is rejected, or `None` when it is owed
/// success: the global record must exist at the claimed address, re-derive
/// from its stored bump, and be owned by the calling authority.
pub open spec fn update_config_error(l: Ledger, ctx: UpdateConfig) -> Option<SolCreatorError> {
    if !(l.has_global() && l.global_entry().address@ == ctx.global_state@) {
        Some(SolCreatorError::NotFound)
    } else if !global_address_checks(l.global_entry().state.bump, l.program_id@, ctx.global_state@) {
        Some(SolCreatorError::AddressMismatch)
    } else if l.global_entry().state.authority@ != ctx.authority@ {
        Some(SolCreatorError::Unauthorized)
    } else {
        None
    }
}

/// Replace the economy's authority, if a new one is given. No other field is
/// mutable through this path.
pub fn update_config(
    ledger: &mut Ledger,
    ctx: UpdateConfig,
    new_authority: Option<AccountId>,
) -> (r: Result<(), SolCreatorError>)
    requires
        old(ledger).wf(),
    ensures
        final(ledger).wf(),
        final(ledger).program_id == old(ledger).program_id,
        Ledger::monotone_step(*old(ledger), *final(ledger)),
        match r {
            Err(e) => {
                &&& update_config_error(*old(ledger), ctx) == Some(e)
                &&& *final(ledger) == *old(ledger)
            },
            Ok(()) => {
                &&& update_config_error(*old(ledger), ctx) is None
                &&& final(ledger).users@ == old(ledger).users@
                &&& final(ledger).events@ == old(ledger).events@
                &&& final(ledger).global matches Some(g) && {
                    &&& g.address == old(ledger).global_entry().address
                    &&& g.state == (GlobalState {
                        authority: match new_authority {
                            Some(a) => a,
                            None => old(ledger).global_entry().state.authority,
                        },
                        ..old(ledger).global_entry().state
                    })
                }
            },
        },
{
    let g = match &ledger.global {
        Some(g) => *g,
        None => {
            return Err(SolCreatorError::NotFound);
        },
    };
    if !id_eq(&g.address, &ctx.global_state) {
        return Err(SolCreatorError::NotFound);
    }
    if let Err(e) = check_global_address(&ctx.global_state, g.state.bump, &ledger.program_id) {
        return Err(e);
    }
    if !id_eq(&g.state.authority, &ctx.authority) {
        return Err(SolCreatorError::Unauthorized);
    }
    let new_auth = match new_authority {
        Some(a) => a,
        None => g.state.authority,
    };
    ledger.global = Some(
        GlobalEntry {
            address: g.address,
            state: GlobalState { authority: new_auth, ..g.state },
        },
    );
    Ok(())
}

} // verus!
