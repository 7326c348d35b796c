//! Unpause: the provider opens the sale of access again.

use crate::keys::same_key;
use crate::state::{ApiRegistry, CustomError, RegistryView};
use anchor_lang::prelude::Pubkey;
use vstd::prelude::*;

verus! {

/// The record and the party of an unpause.
#[derive(Clone, Debug, PartialEq, Eq)]
pub struct UnpauseApi {
    /// The caller, who must be the registry's owner.
    pub owner: Pubkey,
    /// The API that is opened again.
    pub registry: ApiRegistry,
}

impl UnpauseApi {
    /// What an unpause comes to: the registry as it is afterwards, or the
    /// reason for which it is refused.
    pub open spec fn outcome(self) -> Result<RegistryView, CustomError> {
        let registry = self.registry@;
        if self.owner != registry.owner {
            Err(CustomError::NotAuthorized)
        } else if !registry.paused {
            Err(CustomError::NotPaused)
        } else {
            Ok(RegistryView { paused: false, ..registry })
        }
    }

    /// An unpause takes the records from `pre` to `post` and answers `r`.
    pub open spec fn transition(pre: Self, post: Self, r: Result<(), CustomError>) -> bool {
        match pre.outcome() {
            Ok(registry) => {
                &&& r is Ok
                &&& post.registry@ == registry
                &&& post.owner == pre.owner
            },
            Err(e) => r == Err::<(), CustomError>(e) && post == pre,
        }
    }
}

/// Opens a paused API again.
///
/// Refused with `NotAuthorized` where the caller is not the owner, else with
/// `NotPaused` where the API is not paused; a refusal leaves the record as it
/// was. Otherwise the API is no longer paused, and nothing else changes.
pub fn handler(ctx: &mut UnpauseApi) -> (r: Result<(), CustomError>)
    ensures
        UnpauseApi::transition(*old(ctx), *final(ctx), r),
{
    if !same_key(&ctx.owner, &ctx.registry.owner) {
        return Err(CustomError::NotAuthorized);
    }
    if !ctx.registry.paused {
        return Err(CustomError::NotPaused);
    }
    ctx.registry.paused = false;
    Ok(())
}

/// An unpause asked by the owner is accepted exactly when the API is
/// paused; it then clears that flag and changes nothing else. Of an API that
/// is not paused it is refused with `NotPaused`, and from any other caller
/// with `NotAuthorized`. A refused one changes nothing.
pub proof fn lemma_unpause(pre: UnpauseApi, post: UnpauseApi, r: Result<(), CustomError>)
    requires
        UnpauseApi::transition(pre, post, r),
    ensures
        r is Ok <==> pre.owner == pre.registry.owner && pre.registry.paused,
        r is Ok ==> post.registry@ == (RegistryView { paused: false, ..pre.registry@ })
            && post.owner == pre.owner,
        r is Err ==> post == pre,
        pre.owner == pre.registry.owner && !pre.registry.paused ==> r == Err::<(), CustomError>(
            CustomError::NotPaused,
        ),
        pre.owner != pre.registry.owner ==> r == Err::<(), CustomError>(
            CustomError::NotAuthorized,
        ),
{
}

} // verus!
