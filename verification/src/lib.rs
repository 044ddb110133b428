//! Lifecycle of a tokenized option: a record of the contract's terms and of
//! the notional still open, and the five operations on it (mint, transfer,
//! exercise, cancel, expire).
//!
//! Every operation is a decision: it reads the record, the accounts that take
//! part and the current time, and either rejects the request or names the
//! ledger instructions to carry out and the event to publish. Carrying them
//! out is left to the caller, which must apply all of them or none.
//!
//! Minting writes the record, exercising takes from its open notional and
//! cancelling closes it; a rejected request never changes it. Transfer and
//! expiry only read it.

pub mod accounts;
pub mod address;
pub mod cancel;
pub mod error;
pub mod events;
pub mod exercise;
pub mod expire;
pub mod history;
pub mod ledger;
pub mod mint;
pub mod settlement;
pub mod state;
pub mod transfer;

pub use accounts::{CancelOption, ExerciseOption, ExpireOption, MintOption, TransferOption};
pub use anchor_lang::prelude::Pubkey;
pub use cancel::cancel_option;
pub use error::MyError;
pub use events::{OptionCancelled, OptionExercised, OptionExpired, OptionMinted, OptionTransferred};
pub use exercise::{check_exercise, exercise_option};
pub use expire::expire_option;
pub use ledger::{Effects, LedgerInstruction};
pub use mint::mint_option;
pub use settlement::proportional_strike_price;
pub use state::{OptionState, OPTION_TYPE_CALL, OPTION_TYPE_PUT};
pub use transfer::transfer_option;
