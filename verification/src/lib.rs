//! A ledger of metered access to third-party APIs.
//!
//! A provider registers an API with a price per call and a rate limit. A
//! consumer purchases access and gets a quota of calls. Usage is recorded
//! against the quota and added to the provider's earnings and to the
//! consumer's usage log. The provider can pause and unpause the API, revoke a
//! consumer's access, and withdraw what was earned.
//!
//! Each operation is one function from the records it works on to the same
//! records afterwards. It checks first and changes after: an operation that
//! is refused has changed nothing. Where records are kept, how a caller is
//! known to be who it claims, and how value moves are not this crate's
//! business; an operation that owes a movement of value answers with an order
//! for it (see [`payment`]).
//!
//! The contract of each operation is its `transition`, a relation between the
//! records before, the arguments, the records after and the answer. What
//! follows from the transitions is proved beside each operation and in
//! [`lifecycle`].

use vstd::prelude::*;

pub mod instructions;
pub mod keys;
pub mod lifecycle;
pub mod payment;
pub mod state;

pub use instructions::{
    LogUsage, PauseApi, PurchaseAccess, RegisterApi, RevokeAccess, UnpauseApi, WithdrawEarnings,
};
pub use payment::{Payment, Payout};
pub use state::{AccessKey, ApiRegistry, CustomError, UsageLog};

verus! {

/// Publishes an API under `name`, owned by the signer; see
/// [`instructions::register_api::handler`].
pub fn register_api(
    ctx: &mut RegisterApi,
    name: String,
    backend_url: String,
    rate_limit: u32,
    price_per_call: u64,
) -> (r: Result<(), CustomError>)
    ensures
        RegisterApi::transition(
            *old(ctx),
            name@,
            backend_url@,
            rate_limit,
            price_per_call,
            *final(ctx),
            r,
        ),
{
    instructions::register_api::handler(ctx, name, backend_url, rate_limit, price_per_call)
}

/// Grants the buyer access to the API `api_id`; see
/// [`instructions::purchase_access::handler`].
pub fn purchase_access(ctx: &mut PurchaseAccess, api_id: anchor_lang::prelude::Pubkey) -> (r: Result<
    Option<Payment>,
    CustomError,
>)
    ensures
        PurchaseAccess::transition(*old(ctx), api_id, *final(ctx), r),
{
    instructions::purchase_access::handler(ctx, api_id)
}

/// Records `calls` calls made with an access key; see
/// [`instructions::log_usage::handler`].
pub fn log_usage(ctx: &mut LogUsage, calls: u32) -> (r: Result<(), CustomError>)
    ensures
        LogUsage::transition(*old(ctx), calls, *final(ctx), r),
{
    instructions::log_usage::handler(ctx, calls)
}

/// Takes `amount` out of the registry's earnings; see
/// [`instructions::withdraw_earnings::handler`].
pub fn withdraw_earnings(ctx: &mut WithdrawEarnings, amount: u64) -> (r: Result<
    Payout,
    CustomError,
>)
    ensures
        WithdrawEarnings::transition(*old(ctx), amount, *final(ctx), r),
{
    instructions::withdraw_earnings::handler(ctx, amount)
}

/// Revokes an access key; see [`instructions::revoke_access::handler`].
pub fn revoke_access(ctx: &mut RevokeAccess) -> (r: Result<(), CustomError>)
    ensures
        RevokeAccess::transition(*old(ctx), *final(ctx), r),
{
    instructions::revoke_access::handler(ctx)
}

/// Pauses an API; see [`instructions::pause_api::handler`].
pub fn pause_api(ctx: &mut PauseApi) -> (r: Result<(), CustomError>)
    ensures
        PauseApi::transition(*old(ctx), *final(ctx), r),
{
    instructions::pause_api::handler(ctx)
}

/// Opens a paused API again; see [`instructions::unpause_api::handler`].
pub fn unpause_api(ctx: &mut UnpauseApi) -> (r: Result<(), CustomError>)
    ensures
        UnpauseApi::transition(*old(ctx), *final(ctx), r),
{
    instructions::unpause_api::handler(ctx)
}

} // verus!
