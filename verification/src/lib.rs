//! A reward-point economy: users earn points for attested tips and upvotes,
//! accumulate a level derived from their point total, and redeem points for
//! units of a reward token drawn from a shared pool. A singleton aggregate
//! record tracks economy-wide totals for auditing.

pub mod addr;
pub mod engine;
pub mod errors;
pub mod events;
pub mod laws;
pub mod ledger;
pub mod records;
pub mod token;

pub use addr::AccountId;
pub use engine::{
    claim_rewards, initialize, initialize_user, record_tip, record_upvote, update_config,
    ClaimRewards, Initialize, InitializeUser, RecordTip, RecordUpvote, UpdateConfig,
};
pub use errors::SolCreatorError;
pub use events::{RewardsClaimed, TipRecorded, UpvoteRecorded};
pub use ledger::Ledger;
pub use records::{GlobalState, UserState};
pub use token::TokenAccount;
