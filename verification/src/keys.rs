//! Identities.
//!
//! Every party (a provider, a consumer) and every record reference is a
//! `Pubkey`. The ledger logic never looks inside one: it stores them and asks
//! whether two of them are the same.

use anchor_lang::prelude::Pubkey;
use vstd::prelude::*;

verus! {

/// `anchor_lang::prelude::Pubkey`, a 32-byte address. Its bytes are not
/// visible to the verifier; two keys are equal in contracts exactly when they
/// are the same address.
#[verifier::external_type_specification]
#[verifier::external_body]
pub struct ExPubkey(Pubkey);

/// Trusted: calls `==` of `Pubkey`, which the outside crate derives on its
/// one field, the array of 32 bytes. The contract claims that the comparison
/// decides equality of the two addresses, and nothing more.
#[verifier::external_body]
pub(crate) fn same_key(a: &Pubkey, b: &Pubkey) -> (same: bool)
    ensures
        same == (*a == *b),
{
    a == b
}

/// Trusted: `clone` of `Pubkey`, which the outside crate derives. The
/// contract claims that the copy is the same address.
pub assume_specification[ <Pubkey as Clone>::clone ](key: &Pubkey) -> (copy: Pubkey)
    ensures
        copy == *key,
;

} // verus!
