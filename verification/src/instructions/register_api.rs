//! Registration: a provider publishes an API.

use crate::state::{name_len, ApiRegistry, CustomError, RegistryView, MAX_NAME_LEN};
use anchor_lang::prelude::Pubkey;
use vstd::prelude::*;

verus! {

/// The record and the party of a registration.
#[derive(Clone, Debug, PartialEq, Eq)]
pub struct RegisterApi {
    /// The provider, who becomes the owner.
    pub signer: Pubkey,
    /// The record that the registration fills: the new registry.
    pub registry: ApiRegistry,
    /// Address tag of the new registry.
    pub registry_bump: u8,
}

impl RegisterApi {
    /// What a registration comes to: the registry as it is afterwards, or the
    /// reason for which it is refused. The name is judged before the rate
    /// limit.
    pub open spec fn outcome(
        self,
        name: Seq<char>,
        backend_url: Seq<char>,
        rate_limit: u32,
        price_per_call: u64,
    ) -> Result<RegistryView, CustomError> {
        if !(1 <= name_len(name) <= MAX_NAME_LEN) {
            Err(CustomError::InvalidName)
        } else if rate_limit == 0 {
            Err(CustomError::InvalidRateLimit)
        } else {
            Ok(
                RegistryView {
                    owner: self.signer,
                    name,
                    backend_url,
                    rate_limit: rate_limit as nat,
                    price_per_call: price_per_call as nat,
                    total_calls: 0,
                    total_earnings: 0,
                    paused: false,
                    bump: self.registry_bump,
                },
            )
        }
    }

    /// A registration takes the records from `pre` to `post` and answers `r`.
    pub open spec fn transition(
        pre: Self,
        name: Seq<char>,
        backend_url: Seq<char>,
        rate_limit: u32,
        price_per_call: u64,
        post: Self,
        r: Result<(), CustomError>,
    ) -> bool {
        match pre.outcome(name, backend_url, rate_limit, price_per_call) {
            Ok(registry) => {
                &&& r is Ok
                &&& post.registry@ == registry
                &&& post.signer == pre.signer
                &&& post.registry_bump == pre.registry_bump
            },
            Err(e) => r == Err::<(), CustomError>(e) && post == pre,
        }
    }
}

/// Publishes an API under `name`, owned by the signer.
///
/// Refused with `InvalidName` where the name is empty or longer than 64
/// bytes, else with `InvalidRateLimit` where the rate limit is zero; a
/// refusal leaves the record as it was. Otherwise the registry is filled:
/// no calls, no earnings, not paused.
pub fn handler(
    ctx: &mut RegisterApi,
    name: String,
    backend_url: String,
    rate_limit: u32,
    price_per_call: u64,
) -> (r: Result<(), CustomError>)
    ensures
        RegisterApi::transition(
            *old(ctx),
            name@,
            backend_url@,
            rate_limit,
            price_per_call,
            *final(ctx),
            r,
        ),
{
    let len: usize = name.as_str().as_bytes().len();
    if !(len > 0 && len <= MAX_NAME_LEN) {
        return Err(CustomError::InvalidName);
    }
    if !(rate_limit > 0) {
        return Err(CustomError::InvalidRateLimit);
    }
    ctx.registry.owner = ctx.signer;
    ctx.registry.name = name;
    ctx.registry.backend_url = backend_url;
    ctx.registry.rate_limit = rate_limit;
    ctx.registry.price_per_call = price_per_call;
    ctx.registry.total_calls = 0;
    ctx.registry.total_earnings = 0;
    ctx.registry.paused = false;
    ctx.registry.bump = ctx.registry_bump;
    Ok(())
}

/// A registration is accepted exactly when the name has 1 to 64 bytes and
/// the rate limit is not zero. An accepted one leaves a registry that is well
/// formed, owned by the signer, with what was asked, no calls, no earnings
/// and not paused; a refused one leaves everything as it was.
pub proof fn lemma_registration(
    pre: RegisterApi,
    name: Seq<char>,
    backend_url: Seq<char>,
    rate_limit: u32,
    price_per_call: u64,
    post: RegisterApi,
    r: Result<(), CustomError>,
)
    requires
        RegisterApi::transition(pre, name, backend_url, rate_limit, price_per_call, post, r),
    ensures
        r is Ok <==> 1 <= name_len(name) <= 64 && rate_limit > 0,
        r is Ok ==> {
            &&& post.registry@.wf()
            &&& post.registry@.owner == pre.signer
            &&& post.registry@.name == name
            &&& post.registry@.backend_url == backend_url
            &&& post.registry@.rate_limit == rate_limit
            &&& post.registry@.price_per_call == price_per_call
            &&& post.registry@.total_calls == 0
            &&& post.registry@.total_earnings == 0
            &&& !post.registry@.paused
        },
        r is Err ==> post == pre,
        !(1 <= name_len(name) <= 64) ==> r == Err::<(), CustomError>(CustomError::InvalidName),
        1 <= name_len(name) <= 64 && rate_limit == 0 ==> r == Err::<(), CustomError>(
            CustomError::InvalidRateLimit,
        ),
{
}

} // verus!
