//! Purchase of access: a consumer pays the price of one call and gets an
//! hour's quota at the registered rate.

use crate::payment::Payment;
use crate::state::{AccessKey, AccessKeyView, ApiRegistry, CustomError, RegistryView};
use anchor_lang::prelude::Pubkey;
use vstd::prelude::*;

verus! {

/// Minutes of quota that one purchase buys.
pub const MINUTES_PER_PURCHASE: u32 = 60;

/// The records and parties of a purchase.
#[derive(Clone, Debug, PartialEq, Eq)]
pub struct PurchaseAccess {
    /// The consumer, who pays.
    pub buyer: Pubkey,
    /// The API that access is bought of.
    pub registry: ApiRegistry,
    /// The record that the purchase fills: the buyer's new access key.
    pub access_key: AccessKey,
    /// Where the payment goes: the wallet of the registry's owner.
    pub owner_wallet: Pubkey,
    /// Address tag of the new access key.
    pub access_key_bump: u8,
}

impl PurchaseAccess {
    /// The quota that the purchase grants: an hour at the registered rate.
    pub open spec fn quota(self) -> nat {
        self.registry@.rate_limit * (MINUTES_PER_PURCHASE as nat)
    }

    /// Whether the quota fits in 32 bits and the earnings, with the price
    /// added, in 64.
    pub open spec fn fits(self) -> bool {
        &&& self.quota() <= u32::MAX
        &&& self.registry@.total_earnings + self.registry@.price_per_call <= u64::MAX
    }

    /// The payment that the purchase owes: the price of one call, from the
    /// buyer to the owner's wallet; none where the price is zero.
    pub open spec fn payment(self) -> Option<Payment> {
        if self.registry.price_per_call > 0 {
            Some(
                Payment {
                    from: self.buyer,
                    to: self.owner_wallet,
                    amount: self.registry.price_per_call,
                },
            )
        } else {
            None
        }
    }

    /// What a purchase for the API `api_id` comes to: the registry and the
    /// access key as they are afterwards, or the reason for which it is
    /// refused.
    pub open spec fn outcome(self, api_id: Pubkey) -> Result<
        (RegistryView, AccessKeyView),
        CustomError,
    > {
        let registry = self.registry@;
        if registry.paused {
            Err(CustomError::ApiPaused)
        } else if !self.fits() {
            Err(CustomError::Overflow)
        } else {
            Ok(
                (
                    RegistryView {
                        total_earnings: registry.total_earnings + registry.price_per_call,
                        ..registry
                    },
                    AccessKeyView {
                        api_id,
                        owner: self.buyer,
                        calls_remaining: self.quota(),
                        active: true,
                        bump: self.access_key_bump,
                    },
                ),
            )
        }
    }

    /// A purchase for the API `api_id` takes the records from `pre` to
    /// `post` and answers `r`.
    pub open spec fn transition(
        pre: Self,
        api_id: Pubkey,
        post: Self,
        r: Result<Option<Payment>, CustomError>,
    ) -> bool {
        match pre.outcome(api_id) {
            Ok((registry, key)) => {
                &&& r == Ok::<Option<Payment>, CustomError>(pre.payment())
                &&& post.registry@ == registry
                &&& post.access_key@ == key
                &&& post.buyer == pre.buyer
                &&& post.owner_wallet == pre.owner_wallet
                &&& post.access_key_bump == pre.access_key_bump
            },
            Err(e) => r == Err::<Option<Payment>, CustomError>(e) && post == pre,
        }
    }
}

/// Grants the buyer access to the API `api_id`.
///
/// Refused with `ApiPaused` while the API is paused, and with `Overflow`
/// where the quota or the earnings would leave their range; a refusal leaves
/// every record as it was. Otherwise the access key is filled, the price is
/// added to the registry's earnings, and the answer is the payment to make.
pub fn handler(ctx: &mut PurchaseAccess, api_id: Pubkey) -> (r: Result<
    Option<Payment>,
    CustomError,
>)
    ensures
        PurchaseAccess::transition(*old(ctx), api_id, *final(ctx), r),
{
    if ctx.registry.paused {
        return Err(CustomError::ApiPaused);
    }
    let amount: u64 = ctx.registry.price_per_call;
    let quota: u32 = ctx.registry.rate_limit.checked_mul(MINUTES_PER_PURCHASE).ok_or(
        CustomError::Overflow,
    )?;
    let earnings: u64 = ctx.registry.total_earnings.checked_add(amount).ok_or(
        CustomError::Overflow,
    )?;

    let payment = if amount > 0 {
        Some(Payment { from: ctx.buyer, to: ctx.owner_wallet, amount })
    } else {
        None
    };

    ctx.access_key.api_id = api_id;
    ctx.access_key.owner = ctx.buyer;
    ctx.access_key.calls_remaining = quota;
    ctx.access_key.active = true;
    ctx.access_key.bump = ctx.access_key_bump;
    ctx.registry.total_earnings = earnings;
    Ok(payment)
}

/// While an API is paused no access to it can be purchased: the purchase is
/// refused with `ApiPaused`, no access key is made, and nothing else changes.
pub proof fn lemma_paused_api_sells_nothing(
    pre: PurchaseAccess,
    api_id: Pubkey,
    post: PurchaseAccess,
    r: Result<Option<Payment>, CustomError>,
)
    requires
        PurchaseAccess::transition(pre, api_id, post, r),
        pre.registry.paused,
    ensures
        r == Err::<Option<Payment>, CustomError>(CustomError::ApiPaused),
        post == pre,
{
}

/// A purchase is accepted exactly when the API is not paused and both the
/// quota and the new earnings fit. An accepted purchase at a price above
/// zero orders the payment of exactly the price, from the buyer to the wallet
/// named as the owner's; at the price zero it orders none. Either way the
/// earnings go up by exactly the price, and the new access key is active,
/// belongs to the buyer and holds 60 calls for each call per minute.
pub proof fn lemma_purchase(
    pre: PurchaseAccess,
    api_id: Pubkey,
    post: PurchaseAccess,
    r: Result<Option<Payment>, CustomError>,
)
    requires
        PurchaseAccess::transition(pre, api_id, post, r),
    ensures
        r is Ok <==> !pre.registry.paused && pre.registry.rate_limit * 60 <= u32::MAX
            && pre.registry.total_earnings + pre.registry.price_per_call <= u64::MAX,
        r is Ok && pre.registry.price_per_call > 0 ==> r == Ok::<Option<Payment>, CustomError>(
            Some(
                Payment {
                    from: pre.buyer,
                    to: pre.owner_wallet,
                    amount: pre.registry.price_per_call,
                },
            ),
        ),
        r is Ok && pre.registry.price_per_call == 0 ==> r == Ok::<Option<Payment>, CustomError>(
            None,
        ),
        r is Ok ==> {
            &&& post.registry.total_earnings == pre.registry.total_earnings
                + pre.registry.price_per_call
            &&& post.registry@ == RegistryView {
                total_earnings: post.registry@.total_earnings,
                ..pre.registry@
            }
            &&& post.access_key.calls_remaining == pre.registry.rate_limit * 60
            &&& post.access_key.active
            &&& post.access_key.owner == pre.buyer
            &&& post.access_key.api_id == api_id
            &&& post.access_key.bump == pre.access_key_bump
        },
        r is Err ==> post == pre,
{
}

/// Where the wallet named in a purchase is the owner's, as it must be, what
/// an accepted purchase orders is paid by the buyer to the owner.
pub proof fn lemma_purchase_pays_owner(
    pre: PurchaseAccess,
    api_id: Pubkey,
    post: PurchaseAccess,
    r: Result<Option<Payment>, CustomError>,
)
    requires
        PurchaseAccess::transition(pre, api_id, post, r),
        pre.owner_wallet == pre.registry.owner,
        pre.registry.price_per_call > 0,
        r is Ok,
    ensures
        r matches Ok(Some(payment)) && payment.from == pre.buyer && payment.to
            == pre.registry.owner && payment.amount == pre.registry.price_per_call,
{
}

} // verus!
