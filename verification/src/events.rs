//! What an accepted operation tells its observers.

use anchor_lang::prelude::Pubkey;
use vstd::prelude::*;

verus! {

/// An option was minted.
#[derive(Clone, Copy, Debug, PartialEq, Eq)]
pub struct OptionMinted {
    pub minter: Pubkey,
    pub option_type: u8,
    pub strike_price: u64,
    pub expiration: i64,
    pub amount_underlying: u64,
}

/// The token that stands for an option changed hands.
#[derive(Clone, Copy, Debug, PartialEq, Eq)]
pub struct OptionTransferred {
    /// Owner of the account the token left.
    pub from: Pubkey,
    /// Owner of the account the token went to.
    pub to: Pubkey,
    pub amount: u64,
}

/// An option was exercised, in part or in full.
#[derive(Clone, Copy, Debug, PartialEq, Eq)]
pub struct OptionExercised {
    pub exerciser: Pubkey,
    pub option_type: u8,
    pub strike_price: u64,
    pub expiration: i64,
}

/// An option ran out and what the escrow held went back.
#[derive(Clone, Copy, Debug, PartialEq, Eq)]
pub struct OptionExpired {
    pub option_type: u8,
    pub strike_price: u64,
    pub expiration: i64,
}

/// An option was cancelled and the open notional refunded.
#[derive(Clone, Copy, Debug, PartialEq, Eq)]
pub struct OptionCancelled {
    pub creator: Pubkey,
    pub option_type: u8,
    pub amount_returned: u64,
}

} // verus!
