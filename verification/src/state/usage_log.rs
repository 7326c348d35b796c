//! What one consumer has used of one API, in all.

use anchor_lang::prelude::Pubkey;
use vstd::prelude::*;

verus! {

/// Calls made and cost incurred by one consumer on one API, since the first
/// report of usage.
#[derive(Clone, Debug, PartialEq, Eq)]
pub struct UsageLog {
    /// The API.
    pub api_id: Pubkey,
    /// The consumer.
    pub user: Pubkey,
    /// Calls recorded so far.
    pub total_calls: u64,
    /// Cost of those calls.
    pub total_cost: u64,
    /// Tag of the scheme that derives the record's address.
    pub bump: u8,
}

/// A `UsageLog` as a mathematical value.
pub struct UsageLogView {
    pub api_id: Pubkey,
    pub user: Pubkey,
    pub total_calls: nat,
    pub total_cost: nat,
    pub bump: u8,
}

impl View for UsageLog {
    type V = UsageLogView;

    open spec fn view(&self) -> UsageLogView {
        UsageLogView {
            api_id: self.api_id,
            user: self.user,
            total_calls: self.total_calls as nat,
            total_cost: self.total_cost as nat,
            bump: self.bump,
        }
    }
}

} // verus!
