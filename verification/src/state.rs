//! The option record.

use anchor_lang::prelude::Pubkey;
use vstd::prelude::*;

verus! {

/// Tag of a call option: the holder may buy the underlying at the strike price.
pub const OPTION_TYPE_CALL: u8 = 0;

/// Tag of a put option: the holder may sell the underlying at the strike price.
pub const OPTION_TYPE_PUT: u8 = 1;

/// Whether `tag` names a call or a put.
pub open spec fn known_option_type(tag: u8) -> bool {
    tag == OPTION_TYPE_CALL || tag == OPTION_TYPE_PUT
}

/// One option contract: its terms, and how much of it is still open.
#[derive(Clone, Copy, Debug, PartialEq, Eq)]
pub struct OptionState {
    /// Price of the whole notional, in the counter-asset.
    pub strike_price: u64,
    /// Unix time from which the option counts as expired.
    pub expiration: i64,
    /// `OPTION_TYPE_CALL` or `OPTION_TYPE_PUT`.
    pub option_type: u8,
    /// Mint of the escrowed asset.
    pub underlying_mint: Pubkey,
    /// Notional not yet settled. It starts at the minted amount and only
    /// ever goes down.
    pub amount_underlying: u64,
    /// The writer: whoever minted the option.
    pub mint_authority: Pubkey,
    /// Set once nothing is open any more: the whole notional has been
    /// exercised, or the option has been cancelled.
    pub is_exercised: bool,
    /// `true` for the American style, `false` for the European.
    pub is_american: bool,
}

impl OptionState {
    /// The tag names a call or a put.
    pub open spec fn has_known_type(self) -> bool {
        known_option_type(self.option_type)
    }

    /// The settlement flag agrees with the open notional: the record is
    /// settled exactly when nothing remains.
    pub open spec fn is_consistent(self) -> bool {
        self.is_exercised <==> self.amount_underlying == 0
    }
}

} // verus!
