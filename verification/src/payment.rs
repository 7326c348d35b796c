//! Value that an operation asks to be moved.
//!
//! The ledger moves no value itself. Where an operation owes a movement of
//! value it answers with an order for it; whoever runs the operation carries
//! the order out in the same atomic transaction in which the changed records
//! are stored, and stores nothing where the movement fails.

use anchor_lang::prelude::Pubkey;
use vstd::prelude::*;

verus! {

/// Value to be moved from one party to another.
#[derive(Clone, Debug, PartialEq, Eq)]
pub struct Payment {
    /// Who pays.
    pub from: Pubkey,
    /// Who is paid.
    pub to: Pubkey,
    /// How much, in the smallest unit of the currency.
    pub amount: u64,
}

/// Value to be released from what a registry holds.
#[derive(Clone, Debug, PartialEq, Eq)]
pub struct Payout {
    /// Who is paid.
    pub to: Pubkey,
    /// How much, in the smallest unit of the currency.
    pub amount: u64,
}

} // verus!
