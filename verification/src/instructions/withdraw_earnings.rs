//! Withdrawal: the provider takes out what the API has earned.

use crate::keys::same_key;
use crate::payment::Payout;
use crate::state::{ApiRegistry, CustomError, RegistryView};
use anchor_lang::prelude::Pubkey;
use vstd::prelude::*;

verus! {

/// The record and the parties of a withdrawal.
#[derive(Clone, Debug, PartialEq, Eq)]
pub struct WithdrawEarnings {
    /// The caller, who must be the registry's owner.
    pub owner: Pubkey,
    /// The API whose earnings are withdrawn.
    pub registry: ApiRegistry,
    /// Where the value goes.
    pub owner_wallet: Pubkey,
}

impl WithdrawEarnings {
    /// What a withdrawal of `amount` comes to: the registry as it is
    /// afterwards, or the reason for which it is refused.
    pub open spec fn outcome(self, amount: u64) -> Result<RegistryView, CustomError> {
        let registry = self.registry@;
        if self.owner != registry.owner {
            Err(CustomError::NotAuthorized)
        } else if registry.total_earnings < amount {
            Err(CustomError::InsufficientBalance)
        } else if amount == 0 {
            Err(CustomError::InvalidAmount)
        } else {
            Ok(
                RegistryView {
                    total_earnings: (registry.total_earnings - amount) as nat,
                    ..registry
                },
            )
        }
    }

    /// A withdrawal of `amount` takes the records from `pre` to `post` and
    /// answers `r`.
    pub open spec fn transition(
        pre: Self,
        amount: u64,
        post: Self,
        r: Result<Payout, CustomError>,
    ) -> bool {
        match pre.outcome(amount) {
            Ok(registry) => {
                &&& r == Ok::<Payout, CustomError>(Payout { to: pre.owner_wallet, amount })
                &&& post.registry@ == registry
                &&& post.owner == pre.owner
                &&& post.owner_wallet == pre.owner_wallet
            },
            Err(e) => r == Err::<Payout, CustomError>(e) && post == pre,
        }
    }
}

/// Takes `amount` out of the registry's earnings.
///
/// Refused with `NotAuthorized` where the caller is not the owner, else with
/// `InsufficientBalance` where less was earned than is asked, else with
/// `InvalidAmount` where nothing is asked; a refusal leaves the record as it
/// was. Otherwise the earnings go down by `amount`, and the answer is the
/// payout to make.
pub fn handler(ctx: &mut WithdrawEarnings, amount: u64) -> (r: Result<Payout, CustomError>)
    ensures
        WithdrawEarnings::transition(*old(ctx), amount, *final(ctx), r),
{
    if !same_key(&ctx.owner, &ctx.registry.owner) {
        return Err(CustomError::NotAuthorized);
    }
    if !(ctx.registry.total_earnings >= amount) {
        return Err(CustomError::InsufficientBalance);
    }
    if !(amount > 0) {
        return Err(CustomError::InvalidAmount);
    }
    ctx.registry.total_earnings = ctx.registry.total_earnings - amount;
    Ok(Payout { to: ctx.owner_wallet, amount })
}

/// A withdrawal asked by the owner is accepted exactly when the amount is
/// above zero and no more than was earned. An accepted one takes exactly the
/// amount off the earnings, orders the payout of exactly the amount to the
/// wallet named, and changes nothing else; a refused one changes nothing.
pub proof fn lemma_withdrawal(
    pre: WithdrawEarnings,
    amount: u64,
    post: WithdrawEarnings,
    r: Result<Payout, CustomError>,
)
    requires
        WithdrawEarnings::transition(pre, amount, post, r),
        pre.owner == pre.registry.owner,
    ensures
        r is Ok <==> amount > 0 && amount <= pre.registry.total_earnings,
        r is Ok ==> {
            &&& post.registry.total_earnings == pre.registry.total_earnings - amount
            &&& post.registry@ == RegistryView {
                total_earnings: post.registry@.total_earnings,
                ..pre.registry@
            }
            &&& r == Ok::<Payout, CustomError>(Payout { to: pre.owner_wallet, amount })
        },
        r is Err ==> post == pre,
        amount == 0 ==> r == Err::<Payout, CustomError>(CustomError::InvalidAmount),
        amount > pre.registry.total_earnings ==> r == Err::<Payout, CustomError>(
            CustomError::InsufficientBalance,
        ),
{
}

/// Nobody but the owner withdraws: from any other caller the withdrawal is
/// refused with `NotAuthorized`, and nothing changes.
pub proof fn lemma_withdrawal_is_the_owners(
    pre: WithdrawEarnings,
    amount: u64,
    post: WithdrawEarnings,
    r: Result<Payout, CustomError>,
)
    requires
        WithdrawEarnings::transition(pre, amount, post, r),
        pre.owner != pre.registry.owner,
    ensures
        r == Err::<Payout, CustomError>(CustomError::NotAuthorized),
        post == pre,
{
}

} // verus!
