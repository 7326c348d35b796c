//! Pause: the provider stops the sale of access.

use crate::keys::same_key;
use crate::state::{ApiRegistry, CustomError, RegistryView};
use anchor_lang::prelude::Pubkey;
use vstd::prelude::*;

verus! {

/// The record and the party of a pause.
#[derive(Clone, Debug, PartialEq, Eq)]
pub struct PauseApi {
    /// The caller, who must be the registry's owner.
    pub owner: Pubkey,
    /// The API that is paused.
    pub registry: ApiRegistry,
}

impl PauseApi {
    /// What a pause comes to: the registry as it is afterwards, or the reason
    /// for which it is refused.
    pub open spec fn outcome(self) -> Result<RegistryView, CustomError> {
        let registry = self.registry@;
        if self.owner != registry.owner {
            Err(CustomError::NotAuthorized)
        } else if registry.paused {
            Err(CustomError::AlreadyPaused)
        } else {
            Ok(RegistryView { paused: true, ..registry })
        }
    }

    /// A pause takes the records from `pre` to `post` and answers `r`.
    pub open spec fn transition(pre: Self, post: Self, r: Result<(), CustomError>) -> bool {
        match pre.outcome() {
            Ok(registry) => {
                &&& r is Ok
                &&& post.registry@ == registry
                &&& post.owner == pre.owner
            },
            Err(e) => r == Err::<(), CustomError>(e) && post == pre,
        }
    }
}

/// Pauses an API.
///
/// Refused with `NotAuthorized` where the caller is not the owner, else with
/// `AlreadyPaused` where the API is paused already; a refusal leaves the
/// record as it was. Otherwise the API is paused, and nothing else changes.
pub fn handler(ctx: &mut PauseApi) -> (r: Result<(), CustomError>)
    ensures
        PauseApi::transition(*old(ctx), *final(ctx), r),
{
    if !same_key(&ctx.owner, &ctx.registry.owner) {
        return Err(CustomError::NotAuthorized);
    }
    if ctx.registry.paused {
        return Err(CustomError::AlreadyPaused);
    }
    ctx.registry.paused = true;
    Ok(())
}

/// A pause asked by the owner is accepted exactly when the API is not
/// paused; it then sets that flag and changes nothing else. Of a paused API
/// it is refused with `AlreadyPaused`, and from any other caller with
/// `NotAuthorized`. A refused one changes nothing.
pub proof fn lemma_pause(pre: PauseApi, post: PauseApi, r: Result<(), CustomError>)
    requires
        PauseApi::transition(pre, post, r),
    ensures
        r is Ok <==> pre.owner == pre.registry.owner && !pre.registry.paused,
        r is Ok ==> post.registry@ == (RegistryView { paused: true, ..pre.registry@ })
            && post.owner == pre.owner,
        r is Err ==> post == pre,
        pre.owner == pre.registry.owner && pre.registry.paused ==> r == Err::<(), CustomError>(
            CustomError::AlreadyPaused,
        ),
        pre.owner != pre.registry.owner ==> r == Err::<(), CustomError>(
            CustomError::NotAuthorized,
        ),
{
}

} // verus!
