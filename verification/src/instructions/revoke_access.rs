//! Revocation: the provider ends a consumer's access.

use crate::keys::same_key;
use crate::state::{AccessKey, AccessKeyView, ApiRegistry, CustomError};
use anchor_lang::prelude::Pubkey;
use vstd::prelude::*;

verus! {

/// The records and the party of a revocation.
#[derive(Clone, Debug, PartialEq, Eq)]
pub struct RevokeAccess {
    /// The caller, who must be the registry's owner.
    pub owner: Pubkey,
    /// The API.
    pub registry: ApiRegistry,
    /// The access key that is revoked.
    pub access_key: AccessKey,
}

impl RevokeAccess {
    /// What a revocation comes to: the access key as it is afterwards, or the
    /// reason for which it is refused.
    pub open spec fn outcome(self) -> Result<AccessKeyView, CustomError> {
        let key = self.access_key@;
        if self.owner != self.registry@.owner {
            Err(CustomError::NotAuthorized)
        } else if !key.active {
            Err(CustomError::AlreadyRevoked)
        } else {
            Ok(AccessKeyView { active: false, ..key })
        }
    }

    /// A revocation takes the records from `pre` to `post` and answers `r`.
    pub open spec fn transition(pre: Self, post: Self, r: Result<(), CustomError>) -> bool {
        match pre.outcome() {
            Ok(key) => {
                &&& r is Ok
                &&& post.access_key@ == key
                &&& post.registry == pre.registry
                &&& post.owner == pre.owner
            },
            Err(e) => r == Err::<(), CustomError>(e) && post == pre,
        }
    }
}

/// Revokes an access key.
///
/// Refused with `NotAuthorized` where the caller is not the registry's
/// owner, else with `AlreadyRevoked` where the key is revoked already; a
/// refusal leaves every record as it was. Otherwise the key is no longer
/// active, and nothing else changes.
pub fn handler(ctx: &mut RevokeAccess) -> (r: Result<(), CustomError>)
    ensures
        RevokeAccess::transition(*old(ctx), *final(ctx), r),
{
    if !same_key(&ctx.owner, &ctx.registry.owner) {
        return Err(CustomError::NotAuthorized);
    }
    if !ctx.access_key.active {
        return Err(CustomError::AlreadyRevoked);
    }
    ctx.access_key.active = false;
    Ok(())
}

/// A revocation asked by the registry's owner is accepted exactly when the
/// key is active; it then clears that flag and changes nothing else. From
/// any other caller it is refused with `NotAuthorized`. A refused one changes
/// nothing.
pub proof fn lemma_revocation(pre: RevokeAccess, post: RevokeAccess, r: Result<(), CustomError>)
    requires
        RevokeAccess::transition(pre, post, r),
    ensures
        r is Ok <==> pre.owner == pre.registry.owner && pre.access_key.active,
        r is Ok ==> post.access_key@ == (AccessKeyView { active: false, ..pre.access_key@ })
            && post.registry == pre.registry,
        r is Err ==> post == pre,
        pre.owner != pre.registry.owner ==> r == Err::<(), CustomError>(
            CustomError::NotAuthorized,
        ),
{
}

/// A key can be revoked once only: after an accepted revocation, a second
/// one asked by the registry's owner is refused with `AlreadyRevoked` and
/// changes nothing.
pub proof fn lemma_revocation_happens_once(
    first: RevokeAccess,
    second: RevokeAccess,
    last: RevokeAccess,
    r1: Result<(), CustomError>,
    r2: Result<(), CustomError>,
)
    requires
        RevokeAccess::transition(first, second, r1),
        r1 is Ok,
        RevokeAccess::transition(second, last, r2),
    ensures
        r2 == Err::<(), CustomError>(CustomError::AlreadyRevoked),
        last == second,
{
}

/// A revocation of a revoked key, asked by the registry's owner, is refused
/// with `AlreadyRevoked` and changes nothing.
pub proof fn lemma_revoked_stays_revoked(
    pre: RevokeAccess,
    post: RevokeAccess,
    r: Result<(), CustomError>,
)
    requires
        RevokeAccess::transition(pre, post, r),
        pre.owner == pre.registry.owner,
        !pre.access_key.active,
    ensures
        r == Err::<(), CustomError>(CustomError::AlreadyRevoked),
        post == pre,
{
}

} // verus!
