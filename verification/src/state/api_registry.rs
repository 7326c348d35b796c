//! The record of one published API.

use anchor_lang::prelude::Pubkey;
use vstd::prelude::*;

verus! {

/// Longest name of an API, in bytes.
pub const MAX_NAME_LEN: usize = 64;

/// One published API: what the provider set, and the running totals.
#[derive(Clone, Debug, PartialEq, Eq)]
pub struct ApiRegistry {
    /// The provider.
    pub owner: Pubkey,
    /// The name, 1 to 64 bytes of UTF-8.
    pub name: String,
    /// Where the API is served.
    pub backend_url: String,
    /// Calls per minute that one consumer may make; never zero.
    pub rate_limit: u32,
    /// Price of one call, in the smallest unit of the currency.
    pub price_per_call: u64,
    /// Calls recorded so far.
    pub total_calls: u64,
    /// What was earned and not yet withdrawn.
    pub total_earnings: u64,
    /// While set, no access can be purchased.
    pub paused: bool,
    /// Tag of the scheme that derives the record's address.
    pub bump: u8,
}

/// An `ApiRegistry` as a mathematical value.
pub struct RegistryView {
    pub owner: Pubkey,
    pub name: Seq<char>,
    pub backend_url: Seq<char>,
    pub rate_limit: nat,
    pub price_per_call: nat,
    pub total_calls: nat,
    pub total_earnings: nat,
    pub paused: bool,
    pub bump: u8,
}

impl View for ApiRegistry {
    type V = RegistryView;

    open spec fn view(&self) -> RegistryView {
        RegistryView {
            owner: self.owner,
            name: self.name@,
            backend_url: self.backend_url@,
            rate_limit: self.rate_limit as nat,
            price_per_call: self.price_per_call as nat,
            total_calls: self.total_calls as nat,
            total_earnings: self.total_earnings as nat,
            paused: self.paused,
            bump: self.bump,
        }
    }
}

/// Length of a name in bytes, as UTF-8.
pub open spec fn name_len(name: Seq<char>) -> nat {
    vstd::utf8::encode_utf8(name).len()
}

impl RegistryView {
    /// What holds of every registry from its registration on: the name has
    /// 1 to 64 bytes, and the rate limit is not zero.
    pub open spec fn wf(self) -> bool {
        &&& 1 <= name_len(self.name) <= MAX_NAME_LEN
        &&& self.rate_limit > 0
    }
}

} // verus!
