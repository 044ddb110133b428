//! Cancelling: the open notional goes back to the creator, and the record is
//! closed for good.

use crate::accounts::CancelOption;
use crate::error::{rejected_with, MyError};
use crate::events::OptionCancelled;
use crate::exercise::exercise_rejection;
use crate::expire::expiry_refund;
use crate::ledger::{Effects, LedgerInstruction};
use crate::state::{OptionState, OPTION_TYPE_CALL};
use vstd::prelude::*;

verus! {

/// Why a request to cancel is turned down, or `None` where it is accepted:
/// only a settled record cannot be cancelled.
pub open spec fn cancel_rejection(option: OptionState) -> Option<MyError> {
    if option.is_exercised {
        Some(MyError::OptionAlreadyExercised)
    } else {
        None
    }
}

/// What goes back to the creator: all the notional that is still open.
pub open spec fn cancel_refund(option: OptionState) -> u64 {
    option.amount_underlying
}

/// The record after it has been cancelled: nothing is open any more and the
/// record counts as settled, so that it is never cancelled or exercised
/// again. The terms stay as they were.
pub open spec fn cancelled_record(option: OptionState) -> OptionState {
    OptionState { amount_underlying: 0, is_exercised: true, ..option }
}

/// The accounts after a request to cancel: an accepted request leaves the
/// record cancelled, a rejected one leaves everything as it was.
pub open spec fn after_cancel(ctx: CancelOption) -> CancelOption {
    if cancel_rejection(ctx.option) is None {
        CancelOption { option: cancelled_record(ctx.option), ..ctx }
    } else {
        ctx
    }
}

/// What cancelling asks of the ledger: one transfer of the refund from the
/// escrow to the creator, on the escrow authority's signature.
pub open spec fn cancel_instructions(ctx: CancelOption) -> Seq<LedgerInstruction> {
    seq![
        LedgerInstruction::Transfer {
            program: ctx.token_program,
            from: ctx.escrow,
            to: ctx.user,
            authority: ctx.escrow_authority,
            amount: cancel_refund(ctx.option),
        },
    ]
}

/// The event of an accepted cancellation.
pub open spec fn cancelled_event(ctx: CancelOption) -> OptionCancelled {
    OptionCancelled {
        creator: ctx.user,
        option_type: ctx.option.option_type,
        amount_returned: cancel_refund(ctx.option),
    }
}

/// A cancelled record is closed for good: whatever it was before, it is
/// consistent, every later request to cancel it is turned down, and so is
/// every request to exercise it, at any time and for any amount. If it is a
/// call, its expiry gives nothing back either, so that the open notional
/// leaves the escrow once and never twice.
pub proof fn lemma_cancelled_record_is_closed(option: OptionState, now: i64, amount: u64)
    ensures
        cancelled_record(option).is_consistent(),
        cancel_rejection(cancelled_record(option)) == Some(MyError::OptionAlreadyExercised),
        exercise_rejection(cancelled_record(option), now, amount) is Some,
        now < option.expiration ==> exercise_rejection(cancelled_record(option), now, amount)
            == Some(MyError::OptionAlreadyExercised),
        option.option_type == OPTION_TYPE_CALL ==> expiry_refund(cancelled_record(option)) == 0,
{
}

/// Cancels the option.
///
/// Any record that is not settled can be cancelled, also one that has been
/// exercised in part: then only what is still open goes back. An accepted
/// request closes the record: nothing is open afterwards and the record
/// counts as settled, so a second request to cancel it, or a request to
/// exercise it, is turned down. A rejected request leaves the record as it
/// was. The token that stands for the option is left outstanding.
pub fn cancel_option(ctx: &mut CancelOption) -> (outcome: Result<Effects<OptionCancelled>, MyError>)
    ensures
        match outcome {
            Ok(effects) => {
                &&& !old(ctx).option.is_exercised
                &&& effects.instructions@ == cancel_instructions(*old(ctx))
                &&& effects.event == cancelled_event(*old(ctx))
                &&& *final(ctx) == (CancelOption {
                    option: cancelled_record(old(ctx).option),
                    ..*old(ctx)
                })
            },
            Err(reason) => {
                &&& old(ctx).option.is_exercised
                &&& reason == MyError::OptionAlreadyExercised
                &&& *final(ctx) == *old(ctx)
            },
        },
        *final(ctx) == after_cancel(*old(ctx)),
        // A settled record is never cancelled; any other record is.
        old(ctx).option.is_exercised ==> rejected_with(outcome, MyError::OptionAlreadyExercised),
        !old(ctx).option.is_exercised ==> outcome is Ok,
        // Whatever the outcome, the record is settled afterwards, so the next
        // request to cancel it is turned down: nothing is refunded twice.
        final(ctx).option.is_exercised,
        cancel_rejection(final(ctx).option) == Some(MyError::OptionAlreadyExercised),
        // The open notional never grows, and the settlement flag keeps
        // agreeing with it.
        final(ctx).option.amount_underlying <= old(ctx).option.amount_underlying,
        old(ctx).option.is_consistent() ==> final(ctx).option.is_consistent(),
{
    if ctx.option.is_exercised {
        return Err(MyError::OptionAlreadyExercised);
    }
    let refund: u64 = ctx.option.amount_underlying;
    let instructions: Vec<LedgerInstruction> = vec![
        LedgerInstruction::Transfer {
            program: ctx.token_program,
            from: ctx.escrow,
            to: ctx.user,
            authority: ctx.escrow_authority,
            amount: refund,
        },
    ];
    let event = OptionCancelled {
        creator: ctx.user,
        option_type: ctx.option.option_type,
        amount_returned: refund,
    };
    ctx.option.amount_underlying = 0;
    ctx.option.is_exercised = true;
    Ok(Effects { instructions, event })
}

} // verus!
