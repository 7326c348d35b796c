//! The quota one consumer bought of one API.

use anchor_lang::prelude::Pubkey;
use vstd::prelude::*;

verus! {

/// A consumer's purchased, revocable quota of calls to one API.
#[derive(Clone, Debug, PartialEq, Eq)]
pub struct AccessKey {
    /// The API that the quota is for.
    pub api_id: Pubkey,
    /// The consumer.
    pub owner: Pubkey,
    /// Calls still permitted.
    pub calls_remaining: u32,
    /// Set at purchase, cleared by revocation, never set again.
    pub active: bool,
    /// Tag of the scheme that derives the record's address.
    pub bump: u8,
}

/// An `AccessKey` as a mathematical value.
pub struct AccessKeyView {
    pub api_id: Pubkey,
    pub owner: Pubkey,
    pub calls_remaining: nat,
    pub active: bool,
    pub bump: u8,
}

impl View for AccessKey {
    type V = AccessKeyView;

    open spec fn view(&self) -> AccessKeyView {
        AccessKeyView {
            api_id: self.api_id,
            owner: self.owner,
            calls_remaining: self.calls_remaining as nat,
            active: self.active,
            bump: self.bump,
        }
    }
}

} // verus!
