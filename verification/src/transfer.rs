//! Transfer of the token that stands for the option.

use crate::accounts::TransferOption;
use crate::error::{rejected_with, MyError};
use crate::events::OptionTransferred;
use crate::ledger::{Effects, LedgerInstruction};
use crate::state::OptionState;
use vstd::prelude::*;

verus! {

/// Why a request to transfer at time `now` is turned down, or `None` where it
/// is accepted: trading stops at the expiration.
pub open spec fn transfer_rejection(option: OptionState, now: i64) -> Option<MyError> {
    if now >= option.expiration {
        Some(MyError::OptionExpired)
    } else {
        None
    }
}

/// What a transfer asks of the ledger: `amount` tokens move from the one
/// account to the other, on the holder's signature.
pub open spec fn transfer_instructions(
    ctx: TransferOption,
    amount: u64,
) -> Seq<LedgerInstruction> {
    seq![
        LedgerInstruction::Transfer {
            program: ctx.token_program,
            from: ctx.from,
            to: ctx.to,
            authority: ctx.authority,
            amount,
        },
    ]
}

/// The event of an accepted transfer. It names the owners of the two
/// accounts.
pub open spec fn transferred_event(ctx: TransferOption, amount: u64) -> OptionTransferred {
    OptionTransferred { from: ctx.from_owner, to: ctx.to_owner, amount }
}

/// Hands `amount` of the option's token on at time `now`.
///
/// Trading stops at the expiration: from then on the request is rejected.
/// The record is only read.
pub fn transfer_option(
    ctx: &TransferOption,
    now: i64,
    amount: u64,
) -> (outcome: Result<Effects<OptionTransferred>, MyError>)
    ensures
        match outcome {
            Ok(effects) => {
                &&& transfer_rejection(ctx.option, now) is None
                &&& effects.instructions@ == transfer_instructions(*ctx, amount)
                &&& effects.event == transferred_event(*ctx, amount)
            },
            Err(reason) => transfer_rejection(ctx.option, now) == Some(reason),
        },
        // Trading stops at the expiration, and nothing else stops it.
        now >= ctx.option.expiration ==> rejected_with(outcome, MyError::OptionExpired),
        now < ctx.option.expiration ==> outcome is Ok,
{
    if !(now < ctx.option.expiration) {
        return Err(MyError::OptionExpired);
    }
    let instructions: Vec<LedgerInstruction> = vec![
        LedgerInstruction::Transfer {
            program: ctx.token_program,
            from: ctx.from,
            to: ctx.to,
            authority: ctx.authority,
            amount,
        },
    ];
    let event = OptionTransferred { from: ctx.from_owner, to: ctx.to_owner, amount };
    Ok(Effects { instructions, event })
}

} // verus!
