//! Expiry: what the escrow still holds goes back to the writer.

use crate::accounts::ExpireOption;
use crate::error::{rejected_with, MyError};
use crate::events::OptionExpired;
use crate::exercise::exercise_rejection;
use crate::ledger::{Effects, LedgerInstruction};
use crate::state::{OptionState, OPTION_TYPE_CALL, OPTION_TYPE_PUT};
use crate::transfer::transfer_rejection;
use vstd::prelude::*;

verus! {

/// Why a request to expire the option at time `now` is turned down, or `None`
/// where it is accepted: the expiration must have come, and then the tag must
/// name a call or a put.
pub open spec fn expire_rejection(option: OptionState, now: i64) -> Option<MyError> {
    if now < option.expiration {
        Some(MyError::OptionNotExpired)
    } else if !option.has_known_type() {
        Some(MyError::InvalidOptionType)
    } else {
        None
    }
}

/// What goes back to the writer: for a call the notional still open, for a
/// put the strike price.
pub open spec fn expiry_refund(option: OptionState) -> u64 {
    if option.option_type == OPTION_TYPE_CALL {
        option.amount_underlying
    } else {
        option.strike_price
    }
}

/// What expiry asks of the ledger: one transfer of the refund from the escrow
/// to the writer's account, on the escrow authority's signature.
pub open spec fn expire_instructions(ctx: ExpireOption) -> Seq<LedgerInstruction> {
    seq![
        LedgerInstruction::Transfer {
            program: ctx.token_program,
            from: ctx.escrow,
            to: ctx.mint_authority,
            authority: ctx.escrow_authority,
            amount: expiry_refund(ctx.option),
        },
    ]
}

/// The event of an accepted expiry.
pub open spec fn expired_event(ctx: ExpireOption) -> OptionExpired {
    OptionExpired {
        option_type: ctx.option.option_type,
        strike_price: ctx.option.strike_price,
        expiration: ctx.option.expiration,
    }
}

/// The expiration divides time in two. Before it the option can be handed on
/// and cannot be expired; from it on the option can neither be handed on nor
/// exercised, and only its tag can keep it from being expired. So no request
/// to exercise and no request to expire are both accepted at the same time.
pub proof fn lemma_expiration_divides_time(option: OptionState, now: i64, amount: u64)
    ensures
        now < option.expiration ==> {
            &&& transfer_rejection(option, now) is None
            &&& expire_rejection(option, now) == Some(MyError::OptionNotExpired)
        },
        now >= option.expiration ==> {
            &&& transfer_rejection(option, now) == Some(MyError::OptionExpired)
            &&& exercise_rejection(option, now, amount) == Some(MyError::OptionExpired)
            &&& (expire_rejection(option, now) is None <==> option.has_known_type())
        },
        !(exercise_rejection(option, now, amount) is None && expire_rejection(option, now) is None),
{
}

/// Expires the option at time `now`.
///
/// The record is only read: expiry neither settles it nor touches the token
/// that stands for it.
pub fn expire_option(
    ctx: &ExpireOption,
    now: i64,
) -> (outcome: Result<Effects<OptionExpired>, MyError>)
    ensures
        match outcome {
            Ok(effects) => {
                &&& expire_rejection(ctx.option, now) is None
                &&& effects.instructions@ == expire_instructions(*ctx)
                &&& effects.event == expired_event(*ctx)
            },
            Err(reason) => expire_rejection(ctx.option, now) == Some(reason),
        },
        // Before the expiration nothing expires.
        now < ctx.option.expiration ==> rejected_with(outcome, MyError::OptionNotExpired),
{
    let option = ctx.option;
    if !(now >= option.expiration) {
        return Err(MyError::OptionNotExpired);
    }
    let refund: u64 = if option.option_type == OPTION_TYPE_CALL {
        option.amount_underlying
    } else if option.option_type == OPTION_TYPE_PUT {
        option.strike_price
    } else {
        return Err(MyError::InvalidOptionType);
    };
    let instructions: Vec<LedgerInstruction> = vec![
        LedgerInstruction::Transfer {
            program: ctx.token_program,
            from: ctx.escrow,
            to: ctx.mint_authority,
            authority: ctx.escrow_authority,
            amount: refund,
        },
    ];
    let event = OptionExpired {
        option_type: option.option_type,
        strike_price: option.strike_price,
        expiration: option.expiration,
    };
    Ok(Effects { instructions, event })
}

} // verus!
