//! The token-settlement collaborator as the redemption transition sees it:
//! plain token-account balances, and the one transfer operation over them.

use vstd::prelude::*;

use crate::addr::AccountId;
use crate::errors::SolCreatorError;

verus! {

/// A reward-token account: who owns it, which token type it holds, and how
/// much of it.
#[derive(Clone, Copy)]
pub struct TokenAccount {
    pub owner: AccountId,
    pub mint: AccountId,
    pub amount: u64,
}

/// Whether moving `amount` units from `from` to `to` is accepted: the two
/// accounts must hold the same token type, the source balance must cover the
/// amount, and the destination balance must not overflow.
pub open spec fn transfer_accepted(from: TokenAccount, to: TokenAccount, amount: u64) -> bool {
    &&& from.mint@ == to.mint@
    &&& from.amount >= amount
    &&& to.amount + amount <= u64::MAX
}

/// Move `amount` reward-token units from `from` to `to`, all or nothing.
pub fn settle_transfer(from: &mut TokenAccount, to: &mut TokenAccount, amount: u64) -> (r: Result<
    (),
    SolCreatorError,
>)
    ensures
        match r {
            Ok(()) => transfer_accepted(*old(from), *old(to), amount) && final(from).owner == old(
                from,
            ).owner && final(from).mint == old(from).mint && final(from).amount == old(from).amount
                - amount && final(to).owner == old(to).owner && final(to).mint == old(to).mint
                && final(to).amount == old(to).amount + amount,
            Err(e) => e == SolCreatorError::SettlementFailed && !transfer_accepted(
                *old(from),
                *old(to),
                amount,
            ) && *final(from) == *old(from) && *final(to) == *old(to),
        },
{
    if !crate::addr::id_eq(&from.mint, &to.mint) {
        return Err(SolCreatorError::SettlementFailed);
    }
    if from.amount < amount {
        return Err(SolCreatorError::SettlementFailed);
    }
    match to.amount.checked_add(amount) {
        None => Err(SolCreatorError::SettlementFailed),
        Some(new_to) => {
            from.amount = from.amount - amount;
            to.amount = new_to;
            Ok(())
        },
    }
}

} // verus!
