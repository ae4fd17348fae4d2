use solcreator_program::addr::{derive_global_address, derive_user_address};
use solcreator_program::events::EventRecord;
use solcreator_program::{
    claim_rewards, initialize, initialize_user, record_tip, record_upvote, update_config,
    AccountId, ClaimRewards, Initialize, InitializeUser, Ledger, RecordTip, RecordUpvote,
    SolCreatorError, TokenAccount, UpdateConfig,
};

fn id(n: u8) -> AccountId {
    let mut a = [0u8; 32];
    a[0] = n;
    a
}

fn pid() -> AccountId {
    [7u8; 32]
}

struct Setup {
    ledger: Ledger,
    authority: AccountId,
    mint: AccountId,
    global_addr: AccountId,
    user: AccountId,
    user_addr: AccountId,
}

fn setup() -> Setup {
    let program_id = pid();
    let mut ledger = Ledger::new(program_id);
    let authority = id(1);
    let mint = id(2);
    let (global_addr, _) = derive_global_address(&program_id).unwrap();
    initialize(
        &mut ledger,
        Initialize { global_state: global_addr, bonk_mint: mint, authority },
    )
    .unwrap();
    let user = id(3);
    let (user_addr, _) = derive_user_address(&user, &program_id).unwrap();
    initialize_user(&mut ledger, InitializeUser { user_state: user_addr, user }).unwrap();
    Setup { ledger, authority, mint, global_addr, user, user_addr }
}

fn tip_ctx(s: &Setup) -> RecordTip {
    RecordTip { user_state: s.user_addr, global_state: s.global_addr, user: s.user }
}

fn upvote_ctx(s: &Setup) -> RecordUpvote {
    RecordUpvote { user_state: s.user_addr, global_state: s.global_addr, user: s.user }
}

fn claim_ctx(s: &Setup) -> ClaimRewards {
    ClaimRewards {
        user_state: s.user_addr,
        global_state: s.global_addr,
        bonk_mint: s.mint,
        user: s.user,
    }
}

fn user_state(s: &Setup) -> solcreator_program::UserState {
    let i = s.ledger.find_user(&s.user_addr).unwrap();
    s.ledger.users[i].state
}

fn global_state(s: &Setup) -> solcreator_program::GlobalState {
    s.ledger.global.as_ref().unwrap().state
}

#[test]
fn fresh_user_starts_at_level_one() {
    let s = setup();
    let u = user_state(&s);
    assert_eq!(u.vibe_points, 0);
    assert_eq!(u.level, 1);
    assert_eq!(u.total_bonk_earned, 0);
    assert_eq!(u.total_tips_sent, 0);
    assert_eq!(u.total_upvotes, 0);
    assert_eq!(u.user, s.user);
}

#[test]
fn tip_of_zero_awards_five_points() {
    let mut s = setup();
    let s_tip_ctx = tip_ctx(&s);
    let ev = record_tip(&mut s.ledger, s_tip_ctx, 0, String::from("ref-a")).unwrap();
    assert_eq!(ev.points_earned, 5);
    assert_eq!(ev.tip_amount, 0);
    assert_eq!(ev.user, s.user);
    assert_eq!(ev.reference, "ref-a");
    let u = user_state(&s);
    assert_eq!(u.vibe_points, 5);
    assert_eq!(u.total_tips_sent, 1);
    assert_eq!(u.level, 1);
}

#[test]
fn tip_of_two_hundred_fifty_awards_seven_points() {
    let mut s = setup();
    let s_tip_ctx = tip_ctx(&s);
    let ev = record_tip(&mut s.ledger, s_tip_ctx, 250, String::from("ref-b")).unwrap();
    assert_eq!(ev.points_earned, 7);
    let u = user_state(&s);
    assert_eq!(u.vibe_points, 7);
    let g = global_state(&s);
    assert_eq!(g.total_tips_sent, 1);
    assert_eq!(g.total_bonk_tipped, 250);
    assert_eq!(g.total_vibe_points_distributed, 7);
}

#[test]
fn upvote_always_awards_one_point() {
    let mut s = setup();
    let s_upvote_ctx = upvote_ctx(&s);
    let ev = record_upvote(&mut s.ledger, s_upvote_ctx, id(9), String::from("post-1")).unwrap();
    assert_eq!(ev.points_earned, 1);
    let ev2 =
        record_upvote(&mut s.ledger, s_upvote_ctx, id(250), String::from("another")).unwrap();
    assert_eq!(ev2.points_earned, 1);
    let u = user_state(&s);
    assert_eq!(u.vibe_points, 2);
    assert_eq!(u.total_upvotes, 2);
    let g = global_state(&s);
    assert_eq!(g.total_vibe_points_distributed, 2);
    assert_eq!(g.total_tips_sent, 0);
}

#[test]
fn level_follows_the_point_balance() {
    let mut s = setup();
    let s_tip_ctx = tip_ctx(&s);
    // 5 + 10000 / 100 = 105 points.
    record_tip(&mut s.ledger, s_tip_ctx, 10000, String::from("big")).unwrap();
    let u = user_state(&s);
    assert_eq!(u.vibe_points, 105);
    assert_eq!(u.level, 2);
    assert_eq!(u.level, u.vibe_points / 100 + 1);
}

#[test]
fn claim_with_ninety_five_points_pays_nine_tokens() {
    let mut s = setup();
    let s_tip_ctx = tip_ctx(&s);
    let s_claim_ctx = claim_ctx(&s);
    // 5 + 9000 / 100 = 95 points.
    record_tip(&mut s.ledger, s_tip_ctx, 9000, String::from("fund")).unwrap();
    let mut treasury = TokenAccount { owner: s.authority, mint: s.mint, amount: 1000 };
    let mut wallet = TokenAccount { owner: s.user, mint: s.mint, amount: 4 };
    let ev = claim_rewards(&mut s.ledger, s_claim_ctx, &mut treasury, &mut wallet).unwrap();
    assert_eq!(ev.bonk_amount, 9);
    assert_eq!(ev.user, s.user);
    assert_eq!(treasury.amount, 991);
    assert_eq!(wallet.amount, 13);
    let u = user_state(&s);
    assert_eq!(u.vibe_points, 0);
    assert_eq!(u.total_bonk_earned, 9);
    assert_eq!(u.level, 1);
}

#[test]
fn claim_with_five_points_is_rejected() {
    let mut s = setup();
    let s_tip_ctx = tip_ctx(&s);
    let s_claim_ctx = claim_ctx(&s);
    record_tip(&mut s.ledger, s_tip_ctx, 0, String::from("small")).unwrap();
    let before_user = user_state(&s);
    let before_global = global_state(&s);
    let mut treasury = TokenAccount { owner: s.authority, mint: s.mint, amount: 1000 };
    let mut wallet = TokenAccount { owner: s.user, mint: s.mint, amount: 0 };
    let r = claim_rewards(&mut s.ledger, s_claim_ctx, &mut treasury, &mut wallet);
    assert!(matches!(r, Err(SolCreatorError::NoRewardsToClaim)));
    assert_eq!(treasury.amount, 1000);
    assert_eq!(wallet.amount, 0);
    let after_user = user_state(&s);
    assert_eq!(after_user.vibe_points, before_user.vibe_points);
    assert_eq!(after_user.total_bonk_earned, before_user.total_bonk_earned);
    assert_eq!(after_user.level, before_user.level);
    let after_global = global_state(&s);
    assert_eq!(
        after_global.total_vibe_points_distributed,
        before_global.total_vibe_points_distributed
    );
}

#[test]
fn insufficient_pool_aborts_the_whole_claim() {
    let mut s = setup();
    let s_tip_ctx = tip_ctx(&s);
    let s_claim_ctx = claim_ctx(&s);
    record_tip(&mut s.ledger, s_tip_ctx, 9000, String::from("fund")).unwrap();
    let before_user = user_state(&s);
    let mut treasury = TokenAccount { owner: s.authority, mint: s.mint, amount: 5 };
    let mut wallet = TokenAccount { owner: s.user, mint: s.mint, amount: 0 };
    let r = claim_rewards(&mut s.ledger, s_claim_ctx, &mut treasury, &mut wallet);
    assert!(matches!(r, Err(SolCreatorError::SettlementFailed)));
    assert_eq!(treasury.amount, 5);
    assert_eq!(wallet.amount, 0);
    let after_user = user_state(&s);
    assert_eq!(after_user.vibe_points, before_user.vibe_points);
    assert_eq!(after_user.total_bonk_earned, 0);
}

#[test]
fn wrong_mint_aborts_the_whole_claim() {
    let mut s = setup();
    let s_tip_ctx = tip_ctx(&s);
    let s_claim_ctx = claim_ctx(&s);
    record_tip(&mut s.ledger, s_tip_ctx, 9000, String::from("fund")).unwrap();
    let mut treasury = TokenAccount { owner: s.authority, mint: id(99), amount: 1000 };
    let mut wallet = TokenAccount { owner: s.user, mint: s.mint, amount: 0 };
    let r = claim_rewards(&mut s.ledger, s_claim_ctx, &mut treasury, &mut wallet);
    assert!(matches!(r, Err(SolCreatorError::SettlementFailed)));
    assert_eq!(treasury.amount, 1000);
    assert_eq!(wallet.amount, 0);
}

#[test]
fn another_identity_cannot_mutate_a_user_record() {
    let mut s = setup();
    let s_tip_ctx = tip_ctx(&s);
    record_tip(&mut s.ledger, s_tip_ctx, 0, String::from("mine")).unwrap();
    let before = user_state(&s);
    let intruder = id(4);
    let ctx = RecordTip { user_state: s.user_addr, global_state: s.global_addr, user: intruder };
    let r = record_tip(&mut s.ledger, ctx, 500, String::from("theirs"));
    assert!(matches!(r, Err(SolCreatorError::Unauthorized)));
    let after = user_state(&s);
    assert_eq!(after.vibe_points, before.vibe_points);
    assert_eq!(after.total_tips_sent, before.total_tips_sent);
    let g = global_state(&s);
    assert_eq!(g.total_tips_sent, 1);
}

#[test]
fn second_initialize_is_rejected_and_changes_nothing() {
    let mut s = setup();
    let before = global_state(&s);
    let r = initialize(
        &mut s.ledger,
        Initialize { global_state: s.global_addr, bonk_mint: id(42), authority: id(43) },
    );
    assert!(matches!(r, Err(SolCreatorError::AlreadyInitialized)));
    let after = global_state(&s);
    assert_eq!(after.authority, before.authority);
    assert_eq!(after.bonk_mint, before.bonk_mint);
    assert_eq!(after.total_tips_sent, before.total_tips_sent);
    assert_eq!(after.bump, before.bump);
}

#[test]
fn second_initialize_user_is_rejected() {
    let mut s = setup();
    let r = initialize_user(
        &mut s.ledger,
        InitializeUser { user_state: s.user_addr, user: s.user },
    );
    assert!(matches!(r, Err(SolCreatorError::AlreadyInitialized)));
    assert_eq!(s.ledger.users.len(), 1);
}

#[test]
fn initialize_with_wrong_address_is_a_mismatch() {
    let program_id = pid();
    let mut ledger = Ledger::new(program_id);
    let r = initialize(
        &mut ledger,
        Initialize { global_state: id(9), bonk_mint: id(2), authority: id(1) },
    );
    assert!(matches!(r, Err(SolCreatorError::AddressMismatch)));
    assert!(ledger.global.is_none());
}

#[test]
fn transitions_before_initialize_are_not_found() {
    let program_id = pid();
    let mut ledger = Ledger::new(program_id);
    let user = id(3);
    let (user_addr, _) = derive_user_address(&user, &program_id).unwrap();
    let (global_addr, _) = derive_global_address(&program_id).unwrap();
    let ctx = RecordTip { user_state: user_addr, global_state: global_addr, user };
    let r = record_tip(&mut ledger, ctx, 100, String::from("early"));
    assert!(matches!(r, Err(SolCreatorError::NotFound)));
}

#[test]
fn tip_for_a_missing_user_record_is_not_found() {
    let mut s = setup();
    let stranger = id(8);
    let (stranger_addr, _) = derive_user_address(&stranger, &pid()).unwrap();
    let ctx =
        RecordTip { user_state: stranger_addr, global_state: s.global_addr, user: stranger };
    let r = record_tip(&mut s.ledger, ctx, 100, String::from("nobody"));
    assert!(matches!(r, Err(SolCreatorError::NotFound)));
}

#[test]
fn counter_overflow_is_rejected_and_changes_nothing() {
    let mut s = setup();
    let s_tip_ctx = tip_ctx(&s);
    record_tip(&mut s.ledger, s_tip_ctx, u64::MAX, String::from("huge")).unwrap();
    let before_user = user_state(&s);
    let before_global = global_state(&s);
    // A second maximal tip would overflow the global tipped-amount counter.
    let r = record_tip(&mut s.ledger, s_tip_ctx, u64::MAX, String::from("again"));
    assert!(matches!(r, Err(SolCreatorError::ArithmeticOverflow)));
    let after_user = user_state(&s);
    let after_global = global_state(&s);
    assert_eq!(after_user.vibe_points, before_user.vibe_points);
    assert_eq!(after_user.total_tips_sent, before_user.total_tips_sent);
    assert_eq!(after_global.total_bonk_tipped, before_global.total_bonk_tipped);
    assert_eq!(
        after_global.total_vibe_points_distributed,
        before_global.total_vibe_points_distributed
    );
}

#[test]
fn update_config_replaces_only_the_authority() {
    let mut s = setup();
    let before = global_state(&s);
    let new_authority = id(11);
    let ctx = UpdateConfig { global_state: s.global_addr, authority: s.authority };
    update_config(&mut s.ledger, ctx, Some(new_authority)).unwrap();
    let after = global_state(&s);
    assert_eq!(after.authority, new_authority);
    assert_eq!(after.bonk_mint, before.bonk_mint);
    assert_eq!(after.total_tips_sent, before.total_tips_sent);
    // The old authority is no longer accepted.
    let r = update_config(&mut s.ledger, ctx, None);
    assert!(matches!(r, Err(SolCreatorError::Unauthorized)));
    // Without a new authority nothing changes.
    let ctx2 = UpdateConfig { global_state: s.global_addr, authority: new_authority };
    update_config(&mut s.ledger, ctx2, None).unwrap();
    assert_eq!(global_state(&s).authority, new_authority);
}

#[test]
fn global_points_equal_the_sum_over_the_audit_trail() {
    let mut s = setup();
    let s_tip_ctx = tip_ctx(&s);
    let s_upvote_ctx = upvote_ctx(&s);
    let mut expected: u64 = 0;
    let mut expected_tipped: u64 = 0;
    let mut expected_tips: u64 = 0;
    let e1 = record_tip(&mut s.ledger, s_tip_ctx, 250, String::from("a")).unwrap();
    expected += e1.points_earned;
    expected_tipped += 250;
    expected_tips += 1;
    let e2 = record_upvote(&mut s.ledger, s_upvote_ctx, id(9), String::from("p")).unwrap();
    expected += e2.points_earned;
    let e3 = record_tip(&mut s.ledger, s_tip_ctx, 0, String::from("b")).unwrap();
    expected += e3.points_earned;
    expected_tips += 1;
    let g = global_state(&s);
    assert_eq!(g.total_vibe_points_distributed, expected);
    assert_eq!(g.total_bonk_tipped, expected_tipped);
    assert_eq!(g.total_tips_sent, expected_tips);
    // The trail itself says the same.
    let mut from_trail: u64 = 0;
    for ev in &s.ledger.events {
        from_trail += match ev {
            EventRecord::Tip(t) => t.points_earned,
            EventRecord::Upvote(u) => u.points_earned,
            EventRecord::Claim(_) => 0,
        };
    }
    assert_eq!(from_trail, expected);
    assert_eq!(s.ledger.events.len(), 3);
}

#[test]
fn counters_never_decrease_across_a_history() {
    let mut s = setup();
    let s_tip_ctx = tip_ctx(&s);
    let s_upvote_ctx = upvote_ctx(&s);
    let s_claim_ctx = claim_ctx(&s);
    let mut treasury = TokenAccount { owner: s.authority, mint: s.mint, amount: 1000 };
    let mut wallet = TokenAccount { owner: s.user, mint: s.mint, amount: 0 };
    let mut last_global = global_state(&s);
    let mut last_user = user_state(&s);
    for step in 0..4 {
        match step {
            0 => {
                record_tip(&mut s.ledger, s_tip_ctx, 9000, String::from("t")).unwrap();
            },
            1 => {
                record_upvote(&mut s.ledger, s_upvote_ctx, id(9), String::from("p")).unwrap();
            },
            2 => {
                claim_rewards(&mut s.ledger, s_claim_ctx, &mut treasury, &mut wallet).unwrap();
            },
            _ => {
                record_tip(&mut s.ledger, s_tip_ctx, 100, String::from("u")).unwrap();
            },
        }
        let g = global_state(&s);
        let u = user_state(&s);
        assert!(g.total_tips_sent >= last_global.total_tips_sent);
        assert!(g.total_bonk_tipped >= last_global.total_bonk_tipped);
        assert!(g.total_vibe_points_distributed >= last_global.total_vibe_points_distributed);
        assert!(u.total_bonk_earned >= last_user.total_bonk_earned);
        assert!(u.total_tips_sent >= last_user.total_tips_sent);
        assert!(u.total_upvotes >= last_user.total_upvotes);
        assert_eq!(u.level, u.vibe_points / 100 + 1);
        last_global = g;
        last_user = u;
    }
}
