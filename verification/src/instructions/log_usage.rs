//! Recording usage: calls are taken off a consumer's quota and added to the
//! provider's totals and to the consumer's usage log.

use crate::state::{AccessKey, AccessKeyView, ApiRegistry, CustomError, RegistryView, UsageLog, UsageLogView};
use anchor_lang::prelude::Pubkey;
use vstd::prelude::*;

verus! {

/// The records that a report of usage works on.
#[derive(Clone, Debug, PartialEq, Eq)]
pub struct LogUsage {
    /// The API that was called.
    pub registry: ApiRegistry,
    /// The quota that the calls are taken from.
    pub access_key: AccessKey,
    /// The consumer's log for this API; on the first report a blank record,
    /// with both counters at zero.
    pub usage_log: UsageLog,
    /// The consumer, who pays for the storage of a new log.
    pub access_key_owner: Pubkey,
}

/// What is left of a quota of `remaining` calls after `calls` more: the
/// difference, or nothing where more calls were made than were left.
pub open spec fn quota_after(remaining: nat, calls: nat) -> nat {
    if remaining >= calls {
        (remaining - calls) as nat
    } else {
        0
    }
}

impl LogUsage {
    /// Price of `calls` calls to the API.
    pub open spec fn cost(self, calls: u32) -> nat {
        self.registry@.price_per_call * (calls as nat)
    }

    /// Whether recording `calls` calls keeps the cost and all four counters
    /// within 64 bits.
    pub open spec fn fits(self, calls: u32) -> bool {
        &&& self.cost(calls) <= u64::MAX
        &&& self.registry@.total_calls + calls <= u64::MAX
        &&& self.registry@.total_earnings + self.cost(calls) <= u64::MAX
        &&& self.usage_log@.total_calls + calls <= u64::MAX
        &&& self.usage_log@.total_cost + self.cost(calls) <= u64::MAX
    }

    /// What a report of `calls` calls comes to: the three records as they
    /// are afterwards, or the reason for which it is refused.
    pub open spec fn outcome(self, calls: u32) -> Result<
        (RegistryView, AccessKeyView, UsageLogView),
        CustomError,
    > {
        let registry = self.registry@;
        let key = self.access_key@;
        let log = self.usage_log@;
        if !key.active {
            Err(CustomError::KeyInactive)
        } else if !self.fits(calls) {
            Err(CustomError::Overflow)
        } else {
            Ok(
                (
                    RegistryView {
                        total_calls: registry.total_calls + (calls as nat),
                        total_earnings: registry.total_earnings + self.cost(calls),
                        ..registry
                    },
                    AccessKeyView {
                        calls_remaining: quota_after(key.calls_remaining, calls as nat),
                        ..key
                    },
                    UsageLogView {
                        api_id: key.api_id,
                        user: key.owner,
                        total_calls: log.total_calls + (calls as nat),
                        total_cost: log.total_cost + self.cost(calls),
                        ..log
                    },
                ),
            )
        }
    }

    /// A report of `calls` calls takes the records from `pre` to `post` and
    /// answers `r`.
    pub open spec fn transition(pre: Self, calls: u32, post: Self, r: Result<(), CustomError>) -> bool {
        match pre.outcome(calls) {
            Ok((registry, key, log)) => {
                &&& r is Ok
                &&& post.registry@ == registry
                &&& post.access_key@ == key
                &&& post.usage_log@ == log
                &&& post.access_key_owner == pre.access_key_owner
            },
            Err(e) => r == Err::<(), CustomError>(e) && post == pre,
        }
    }
}

/// Records `calls` calls made with an access key.
///
/// Refused with `KeyInactive` for a revoked key, and with `Overflow` where
/// the cost or a counter would not fit in 64 bits; a refusal leaves every
/// record as it was. Calls beyond the quota are not refused: the quota goes
/// to zero, and the calls are counted and charged in full.
pub fn handler(ctx: &mut LogUsage, calls: u32) -> (r: Result<(), CustomError>)
    ensures
        LogUsage::transition(*old(ctx), calls, *final(ctx), r),
{
    if !ctx.access_key.active {
        return Err(CustomError::KeyInactive);
    }
    let remaining: u32 = if ctx.access_key.calls_remaining >= calls {
        ctx.access_key.calls_remaining - calls
    } else {
        0
    };
    let cost: u64 = ctx.registry.price_per_call.checked_mul(calls as u64).ok_or(
        CustomError::Overflow,
    )?;
    let registry_calls: u64 = ctx.registry.total_calls.checked_add(calls as u64).ok_or(
        CustomError::Overflow,
    )?;
    let registry_earnings: u64 = ctx.registry.total_earnings.checked_add(cost).ok_or(
        CustomError::Overflow,
    )?;
    let log_calls: u64 = ctx.usage_log.total_calls.checked_add(calls as u64).ok_or(
        CustomError::Overflow,
    )?;
    let log_cost: u64 = ctx.usage_log.total_cost.checked_add(cost).ok_or(CustomError::Overflow)?;

    ctx.access_key.calls_remaining = remaining;
    ctx.registry.total_calls = registry_calls;
    ctx.registry.total_earnings = registry_earnings;
    ctx.usage_log.api_id = ctx.access_key.api_id;
    ctx.usage_log.user = ctx.access_key.owner;
    ctx.usage_log.total_calls = log_calls;
    ctx.usage_log.total_cost = log_cost;
    Ok(())
}

/// A report against a revoked key is refused with `KeyInactive`, whatever
/// else holds, and changes nothing.
pub proof fn lemma_revoked_key_logs_nothing(
    pre: LogUsage,
    calls: u32,
    post: LogUsage,
    r: Result<(), CustomError>,
)
    requires
        LogUsage::transition(pre, calls, post, r),
        !pre.access_key.active,
    ensures
        r == Err::<(), CustomError>(CustomError::KeyInactive),
        post == pre,
{
}

/// A report of `calls` calls against an active key is accepted exactly when
/// the cost and the four counters fit in 64 bits, and is refused with
/// `Overflow` otherwise, leaving every counter as it was. An accepted one
/// leaves of the quota the difference, or nothing where it was smaller than
/// `calls`; it adds exactly `calls` to the calls of the registry and of the
/// log, and exactly the price times `calls` to the earnings of the registry
/// and to the cost in the log; and it changes nothing else, but for the log's
/// two references, which name the key's API and the key's owner.
pub proof fn lemma_usage(pre: LogUsage, calls: u32, post: LogUsage, r: Result<(), CustomError>)
    requires
        LogUsage::transition(pre, calls, post, r),
        pre.access_key.active,
    ensures
        r is Ok <==> pre.fits(calls),
        r is Err ==> r == Err::<(), CustomError>(CustomError::Overflow) && post == pre,
        r is Ok ==> {
            &&& post.access_key.calls_remaining == if pre.access_key.calls_remaining >= calls {
                pre.access_key.calls_remaining - calls
            } else {
                0
            }
            &&& post.access_key@ == AccessKeyView {
                calls_remaining: post.access_key@.calls_remaining,
                ..pre.access_key@
            }
            &&& post.registry.total_calls == pre.registry.total_calls + calls
            &&& post.registry.total_earnings == pre.registry.total_earnings
                + pre.registry.price_per_call * calls
            &&& post.registry@ == RegistryView {
                total_calls: post.registry@.total_calls,
                total_earnings: post.registry@.total_earnings,
                ..pre.registry@
            }
            &&& post.usage_log.total_calls == pre.usage_log.total_calls + calls
            &&& post.usage_log.total_cost == pre.usage_log.total_cost + pre.registry.price_per_call
                * calls
            &&& post.usage_log.api_id == pre.access_key.api_id
            &&& post.usage_log.user == pre.access_key.owner
            &&& post.usage_log.bump == pre.usage_log.bump
        },
{
}

/// A report of no calls against an active key is always accepted, and
/// changes no counter.
pub proof fn lemma_usage_of_nothing(pre: LogUsage, post: LogUsage, r: Result<(), CustomError>)
    requires
        LogUsage::transition(pre, 0, post, r),
        pre.access_key.active,
    ensures
        r is Ok,
        post.registry@ == pre.registry@,
        post.access_key@ == pre.access_key@,
        post.usage_log.total_calls == pre.usage_log.total_calls,
        post.usage_log.total_cost == pre.usage_log.total_cost,
{
}

} // verus!
