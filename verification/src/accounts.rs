//! The accounts that take part in each operation.
//!
//! Each structure holds the record the operation works on and the addresses
//! of the accounts it names in its ledger instructions and in its event.

use crate::state::OptionState;
use anchor_lang::prelude::Pubkey;
use vstd::prelude::*;

verus! {

/// Accounts of `mint_option`.
#[derive(Clone, Copy, Debug, PartialEq, Eq)]
pub struct MintOption {
    /// The record to fill in.
    pub option: OptionState,
    /// Mint of the token that stands for the option.
    pub mint: Pubkey,
    /// Account that receives that token.
    pub token_account: Pubkey,
    /// The minter, who signs and pays.
    pub user: Pubkey,
    /// Mint of the underlying asset.
    pub underlying_mint: Pubkey,
    /// The minter's account of the underlying asset.
    pub underlying_asset_account: Pubkey,
    /// Account that holds the underlying until settlement.
    pub escrow: Pubkey,
    /// Program that the token and escrow instructions go to.
    pub token_program: Pubkey,
    /// Program that the fee instruction goes to.
    pub system_program: Pubkey,
    /// Account that receives the minting fee.
    pub fee_receiver: Pubkey,
}

/// Accounts of `transfer_option`.
#[derive(Clone, Copy, Debug, PartialEq, Eq)]
pub struct TransferOption {
    /// Account the token leaves.
    pub from: Pubkey,
    /// Owner of `from`.
    pub from_owner: Pubkey,
    /// Account the token goes to.
    pub to: Pubkey,
    /// Owner of `to`.
    pub to_owner: Pubkey,
    /// The current holder, who signs.
    pub authority: Pubkey,
    pub token_program: Pubkey,
    /// The record, read for its expiration only.
    pub option: OptionState,
}

/// Accounts of `exercise_option`.
#[derive(Clone, Copy, Debug, PartialEq, Eq)]
pub struct ExerciseOption {
    /// The record being exercised.
    pub option: OptionState,
    /// Mint of the token that stands for the option.
    pub mint: Pubkey,
    /// The holder's account of that token.
    pub option_token_account: Pubkey,
    /// The holder's account that pays and is paid in the settlement.
    pub option_holder: Pubkey,
    /// Account that holds the underlying until settlement.
    pub escrow: Pubkey,
    /// Account that signs for what leaves the escrow.
    pub escrow_authority: Pubkey,
    /// The holder exercising, who signs for what enters the escrow.
    pub user: Pubkey,
    pub token_program: Pubkey,
}

/// Accounts of `expire_option`.
#[derive(Clone, Copy, Debug, PartialEq, Eq)]
pub struct ExpireOption {
    /// The record that ran out.
    pub option: OptionState,
    /// Account that holds the underlying until settlement.
    pub escrow: Pubkey,
    /// Account that signs for what leaves the escrow.
    pub escrow_authority: Pubkey,
    /// The writer's account, which what is left goes back to.
    pub mint_authority: Pubkey,
    pub token_program: Pubkey,
}

/// Accounts of `cancel_option`.
#[derive(Clone, Copy, Debug, PartialEq, Eq)]
pub struct CancelOption {
    /// The record being cancelled, which the cancellation closes.
    pub option: OptionState,
    /// The option's creator, to whom the open notional goes back.
    pub user: Pubkey,
    /// Account that holds the underlying until settlement.
    pub escrow: Pubkey,
    /// Account that signs for what leaves the escrow.
    pub escrow_authority: Pubkey,
    pub token_program: Pubkey,
}

} // verus!
