//! What holds of a record over its whole life, whatever operations it goes
//! through.

use crate::instructions::{
    LogUsage, PauseApi, PurchaseAccess, RevokeAccess, UnpauseApi, WithdrawEarnings,
};
use crate::payment::{Payment, Payout};
use crate::state::{AccessKeyView, CustomError, RegistryView};
use anchor_lang::prelude::Pubkey;
use vstd::prelude::*;

verus! {

/// One operation on an API that is registered: the records before, the
/// arguments, the records after, and the answer.
pub enum Step {
    Purchase {
        pre: PurchaseAccess,
        api_id: Pubkey,
        post: PurchaseAccess,
        r: Result<Option<Payment>, CustomError>,
    },
    Usage { pre: LogUsage, calls: u32, post: LogUsage, r: Result<(), CustomError> },
    Withdrawal {
        pre: WithdrawEarnings,
        amount: u64,
        post: WithdrawEarnings,
        r: Result<Payout, CustomError>,
    },
    Revocation { pre: RevokeAccess, post: RevokeAccess, r: Result<(), CustomError> },
    Pause { pre: PauseApi, post: PauseApi, r: Result<(), CustomError> },
    Unpause { pre: UnpauseApi, post: UnpauseApi, r: Result<(), CustomError> },
}

impl Step {
    /// Whether the step is one that the operation can take.
    pub open spec fn taken(self) -> bool {
        match self {
            Step::Purchase { pre, api_id, post, r } => PurchaseAccess::transition(
                pre,
                api_id,
                post,
                r,
            ),
            Step::Usage { pre, calls, post, r } => LogUsage::transition(pre, calls, post, r),
            Step::Withdrawal { pre, amount, post, r } => WithdrawEarnings::transition(
                pre,
                amount,
                post,
                r,
            ),
            Step::Revocation { pre, post, r } => RevokeAccess::transition(pre, post, r),
            Step::Pause { pre, post, r } => PauseApi::transition(pre, post, r),
            Step::Unpause { pre, post, r } => UnpauseApi::transition(pre, post, r),
        }
    }

    /// The registry before the step.
    pub open spec fn registry_before(self) -> RegistryView {
        match self {
            Step::Purchase { pre, .. } => pre.registry@,
            Step::Usage { pre, .. } => pre.registry@,
            Step::Withdrawal { pre, .. } => pre.registry@,
            Step::Revocation { pre, .. } => pre.registry@,
            Step::Pause { pre, .. } => pre.registry@,
            Step::Unpause { pre, .. } => pre.registry@,
        }
    }

    /// The registry after the step.
    pub open spec fn registry_after(self) -> RegistryView {
        match self {
            Step::Purchase { post, .. } => post.registry@,
            Step::Usage { post, .. } => post.registry@,
            Step::Withdrawal { post, .. } => post.registry@,
            Step::Revocation { post, .. } => post.registry@,
            Step::Pause { post, .. } => post.registry@,
            Step::Unpause { post, .. } => post.registry@,
        }
    }

    /// The access key that the step works on, as it is before; none where
    /// the step works on no key, or makes one.
    pub open spec fn access_key_before(self) -> Option<AccessKeyView> {
        match self {
            Step::Usage { pre, .. } => Some(pre.access_key@),
            Step::Revocation { pre, .. } => Some(pre.access_key@),
            _ => None,
        }
    }

    /// The access key that the step works on or makes, as it is after; none
    /// where the step works on no key.
    pub open spec fn access_key_after(self) -> Option<AccessKeyView> {
        match self {
            Step::Purchase { post, .. } => Some(post.access_key@),
            Step::Usage { post, .. } => Some(post.access_key@),
            Step::Revocation { post, .. } => Some(post.access_key@),
            _ => None,
        }
    }
}

/// No operation touches what the provider registered: owner, name, address
/// of the backend, rate limit, price and address tag stay as they are. So a
/// registry that is well formed stays well formed.
pub proof fn lemma_registration_is_kept(step: Step)
    requires
        step.taken(),
    ensures
        step.registry_after().owner == step.registry_before().owner,
        step.registry_after().name == step.registry_before().name,
        step.registry_after().backend_url == step.registry_before().backend_url,
        step.registry_after().rate_limit == step.registry_before().rate_limit,
        step.registry_after().price_per_call == step.registry_before().price_per_call,
        step.registry_after().bump == step.registry_before().bump,
        step.registry_before().wf() ==> step.registry_after().wf(),
{
}

/// The calls of a registry never go down; its earnings go down in a
/// withdrawal only.
pub proof fn lemma_totals_grow(step: Step)
    requires
        step.taken(),
    ensures
        step.registry_after().total_calls >= step.registry_before().total_calls,
        !(step is Withdrawal) ==> step.registry_after().total_earnings
            >= step.registry_before().total_earnings,
{
    match step {
        Step::Usage { pre, calls, post, r } => {
            assert(pre.cost(calls) >= 0);
        },
        _ => {},
    }
}

/// The pause flag changes in a pause and in an unpause only.
pub proof fn lemma_pause_flag_moves_by_pause_only(step: Step)
    requires
        step.taken(),
        !(step is Pause),
        !(step is Unpause),
    ensures
        step.registry_after().paused == step.registry_before().paused,
{
}

/// A pause stops purchases and nothing else: whether usage is recorded, and
/// what it comes to, does not depend on the flag.
pub proof fn lemma_pause_does_not_stop_usage(a: LogUsage, b: LogUsage, calls: u32)
    requires
        a.registry@ == (RegistryView { paused: !b.registry@.paused, ..b.registry@ }),
        a.access_key@ == b.access_key@,
        a.usage_log@ == b.usage_log@,
    ensures
        a.outcome(calls) is Ok <==> b.outcome(calls) is Ok,
        a.outcome(calls) is Err ==> a.outcome(calls)->Err_0 == b.outcome(calls)->Err_0,
        a.outcome(calls) matches Ok(x) ==> b.outcome(calls) matches Ok(y) && x.1 == y.1 && x.2
            == y.2 && x.0 == (RegistryView { paused: a.registry@.paused, ..y.0 }),
{
}

/// A pause stops purchases and nothing else: whether earnings can be
/// withdrawn, and how much is left, does not depend on the flag.
pub proof fn lemma_pause_does_not_stop_withdrawal(
    a: WithdrawEarnings,
    b: WithdrawEarnings,
    amount: u64,
)
    requires
        a.registry@ == (RegistryView { paused: !b.registry@.paused, ..b.registry@ }),
        a.owner == b.owner,
    ensures
        a.outcome(amount) is Ok <==> b.outcome(amount) is Ok,
        a.outcome(amount) is Err ==> a.outcome(amount)->Err_0 == b.outcome(amount)->Err_0,
        a.outcome(amount) matches Ok(x) ==> b.outcome(amount) matches Ok(y) && x == (RegistryView {
            paused: a.registry@.paused,
            ..y
        }),
{
}

/// An access key that is revoked stays revoked, and a quota never grows:
/// no operation on an existing key sets the flag or adds calls, and none
/// changes whose key it is or for which API.
pub proof fn lemma_access_key_only_shrinks(step: Step)
    requires
        step.taken(),
        step.access_key_before() is Some,
    ensures
        step.access_key_after() is Some,
        step.access_key_after()->Some_0.active ==> step.access_key_before()->Some_0.active,
        step.access_key_after()->Some_0.calls_remaining
            <= step.access_key_before()->Some_0.calls_remaining,
        step.access_key_after()->Some_0.owner == step.access_key_before()->Some_0.owner,
        step.access_key_after()->Some_0.api_id == step.access_key_before()->Some_0.api_id,
        step.access_key_after()->Some_0.bump == step.access_key_before()->Some_0.bump,
{
}

/// The counters of a usage log never go down.
pub proof fn lemma_usage_log_grows(
    pre: LogUsage,
    calls: u32,
    post: LogUsage,
    r: Result<(), CustomError>,
)
    requires
        LogUsage::transition(pre, calls, post, r),
    ensures
        post.usage_log@.total_calls >= pre.usage_log@.total_calls,
        post.usage_log@.total_cost >= pre.usage_log@.total_cost,
{
    assert(pre.cost(calls) >= 0);
}

/// Pause and unpause undo each other: after an accepted pause, an unpause
/// by the same caller is accepted and gives back the registry as it was.
pub proof fn lemma_pause_then_unpause(
    first: PauseApi,
    paused: PauseApi,
    r1: Result<(), CustomError>,
    again: UnpauseApi,
    last: UnpauseApi,
    r2: Result<(), CustomError>,
)
    requires
        PauseApi::transition(first, paused, r1),
        r1 is Ok,
        again.owner == paused.owner,
        again.registry == paused.registry,
        UnpauseApi::transition(again, last, r2),
    ensures
        r2 is Ok,
        last.registry@ == first.registry@,
{
}

} // verus!
