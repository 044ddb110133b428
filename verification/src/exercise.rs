//! Exercise, in part or in full.

use crate::accounts::ExerciseOption;
use crate::error::{rejected_with, MyError};
use crate::events::OptionExercised;
use crate::ledger::{
    burn_count, lemma_burn_count_empty, lemma_burn_count_push, Effects, LedgerInstruction,
};
use crate::settlement::{
    lemma_proportional_strike_bounds, lemma_proportional_strike_rounds_down, proportional_strike,
    proportional_strike_price,
};
use crate::state::{OptionState, OPTION_TYPE_CALL, OPTION_TYPE_PUT};
use vstd::prelude::*;

verus! {

/// Why a request to exercise `amount` at time `now` is turned down, or `None`
/// where it is accepted. The conditions are tried in this order and the first
/// that fails decides:
///
/// 1. the option has not expired;
/// 2. it is not yet settled;
/// 3. no more is asked for than is still open;
/// 4. a European option is exercised at its expiration or later, which after
///    the first condition is never the case;
/// 5. the tag names a call or a put.
pub open spec fn exercise_rejection(option: OptionState, now: i64, amount: u64) -> Option<MyError> {
    if now >= option.expiration {
        Some(MyError::OptionExpired)
    } else if option.is_exercised {
        Some(MyError::OptionAlreadyExercised)
    } else if amount > option.amount_underlying {
        Some(MyError::InvalidAmount)
    } else if !option.is_american {
        Some(MyError::EarlyExerciseNotAllowed)
    } else if !option.has_known_type() {
        Some(MyError::InvalidOptionType)
    } else {
        None
    }
}

/// The record after `amount` of its open notional has been exercised: that
/// much less is open, and the record is settled once nothing is.
pub open spec fn exercised_record(option: OptionState, amount: u64) -> OptionState {
    OptionState {
        amount_underlying: (option.amount_underlying - amount) as u64,
        is_exercised: option.is_exercised || option.amount_underlying == amount,
        ..option
    }
}

/// The holder pays `amount` into the escrow, on the exerciser's signature.
pub open spec fn holder_pays(ctx: ExerciseOption, amount: u64) -> LedgerInstruction {
    LedgerInstruction::Transfer {
        program: ctx.token_program,
        from: ctx.option_holder,
        to: ctx.escrow,
        authority: ctx.user,
        amount,
    }
}

/// The escrow releases `amount` to the holder, on the escrow authority's
/// signature.
pub open spec fn escrow_releases(ctx: ExerciseOption, amount: u64) -> LedgerInstruction {
    LedgerInstruction::Transfer {
        program: ctx.token_program,
        from: ctx.escrow,
        to: ctx.option_holder,
        authority: ctx.escrow_authority,
        amount,
    }
}

/// The one token that stands for the option is destroyed in the holder's
/// account, on the exerciser's signature.
pub open spec fn token_burn(ctx: ExerciseOption) -> LedgerInstruction {
    LedgerInstruction::Burn {
        program: ctx.token_program,
        mint: ctx.mint,
        from: ctx.option_token_account,
        authority: ctx.user,
        amount: 1,
    }
}

/// The two legs of settling `amount`. The strike payment is the share of the
/// strike price that `amount` has in the notional open before this exercise.
/// For a call the holder pays the strike and the escrow releases the
/// underlying; for a put the holder delivers the underlying and the escrow
/// releases the strike.
pub open spec fn settlement_legs(ctx: ExerciseOption, amount: u64) -> Seq<LedgerInstruction> {
    let strike: u64 = proportional_strike(
        ctx.option.strike_price,
        amount,
        ctx.option.amount_underlying,
    ) as u64;
    if ctx.option.option_type == OPTION_TYPE_CALL {
        seq![holder_pays(ctx, strike), escrow_releases(ctx, amount)]
    } else {
        seq![holder_pays(ctx, amount), escrow_releases(ctx, strike)]
    }
}

/// What an accepted exercise of `amount` asks of the ledger: the two legs of
/// the settlement and, where this exercise takes all that was open, the burn
/// of the option's token.
pub open spec fn exercise_instructions(ctx: ExerciseOption, amount: u64) -> Seq<LedgerInstruction> {
    if ctx.option.amount_underlying == amount {
        settlement_legs(ctx, amount).push(token_burn(ctx))
    } else {
        settlement_legs(ctx, amount)
    }
}

/// The accounts after a request to exercise `amount` at time `now`: an
/// accepted request leaves the record exercised by that amount, a rejected
/// one leaves everything as it was.
pub open spec fn after_exercise(ctx: ExerciseOption, now: i64, amount: u64) -> ExerciseOption {
    if exercise_rejection(ctx.option, now, amount) is None {
        ExerciseOption { option: exercised_record(ctx.option, amount), ..ctx }
    } else {
        ctx
    }
}

/// The event of an accepted exercise.
pub open spec fn exercised_event(ctx: ExerciseOption) -> OptionExercised {
    OptionExercised {
        exerciser: ctx.user,
        option_type: ctx.option.option_type,
        strike_price: ctx.option.strike_price,
        expiration: ctx.option.expiration,
    }
}

/// Where no more is exercised than is open, the strike payment in the
/// settlement is the exact share, rounded down: nothing is lost in writing it
/// as an amount of tokens. It never exceeds the strike price, and it is the
/// whole strike price where all that is open is exercised.
pub proof fn lemma_strike_leg_is_exact(ctx: ExerciseOption, amount: u64)
    requires
        0 < ctx.option.amount_underlying,
        amount <= ctx.option.amount_underlying,
    ensures
        ({
            let remaining: u64 = ctx.option.amount_underlying;
            let strike: int = proportional_strike(ctx.option.strike_price, amount, remaining);
            &&& 0 <= strike <= ctx.option.strike_price
            &&& strike * remaining <= ctx.option.strike_price * amount < (strike + 1) * remaining
            &&& amount == remaining ==> strike == ctx.option.strike_price
            &&& (strike as u64) as int == strike
            &&& settlement_legs(ctx, amount) == if ctx.option.option_type == OPTION_TYPE_CALL {
                seq![holder_pays(ctx, strike as u64), escrow_releases(ctx, amount)]
            } else {
                seq![holder_pays(ctx, amount), escrow_releases(ctx, strike as u64)]
            }
        }),
{
    lemma_proportional_strike_bounds(ctx.option.strike_price, amount, ctx.option.amount_underlying);
    lemma_proportional_strike_rounds_down(
        ctx.option.strike_price,
        amount,
        ctx.option.amount_underlying,
    );
}

/// An accepted exercise burns the option's token exactly where it takes all
/// that was open, and burns nothing else.
pub proof fn lemma_exercise_burns_on_settlement(ctx: ExerciseOption, amount: u64)
    ensures
        burn_count(exercise_instructions(ctx, amount)) == if ctx.option.amount_underlying
            == amount {
            1nat
        } else {
            0nat
        },
{
    let legs = settlement_legs(ctx, amount);
    let none = Seq::<LedgerInstruction>::empty();
    assert(legs == none.push(legs[0]).push(legs[1]));
    lemma_burn_count_empty();
    lemma_burn_count_push(none, legs[0]);
    lemma_burn_count_push(none.push(legs[0]), legs[1]);
    lemma_burn_count_push(legs, token_burn(ctx));
}

/// Tells why a request to exercise `amount` at time `now` would be turned
/// down, or that it would be accepted.
pub fn check_exercise(option: &OptionState, now: i64, amount: u64) -> (rejection: Option<MyError>)
    ensures
        rejection == exercise_rejection(*option, now, amount),
{
    if !(now < option.expiration) {
        return Some(MyError::OptionExpired);
    }
    if option.is_exercised {
        return Some(MyError::OptionAlreadyExercised);
    }
    if !(amount <= option.amount_underlying) {
        return Some(MyError::InvalidAmount);
    }
    if !option.is_american {
        if !(now >= option.expiration) {
            return Some(MyError::EarlyExerciseNotAllowed);
        }
    }
    if !(option.option_type == OPTION_TYPE_CALL || option.option_type == OPTION_TYPE_PUT) {
        return Some(MyError::InvalidOptionType);
    }
    None
}

fn pay_in(ctx: &ExerciseOption, amount: u64) -> (leg: LedgerInstruction)
    ensures
        leg == holder_pays(*ctx, amount),
{
    LedgerInstruction::Transfer {
        program: ctx.token_program,
        from: ctx.option_holder,
        to: ctx.escrow,
        authority: ctx.user,
        amount,
    }
}

fn release(ctx: &ExerciseOption, amount: u64) -> (leg: LedgerInstruction)
    ensures
        leg == escrow_releases(*ctx, amount),
{
    LedgerInstruction::Transfer {
        program: ctx.token_program,
        from: ctx.escrow,
        to: ctx.option_holder,
        authority: ctx.escrow_authority,
        amount,
    }
}

fn burn_token(ctx: &ExerciseOption) -> (burn: LedgerInstruction)
    ensures
        burn == token_burn(*ctx),
{
    LedgerInstruction::Burn {
        program: ctx.token_program,
        mint: ctx.mint,
        from: ctx.option_token_account,
        authority: ctx.user,
        amount: 1,
    }
}

/// Exercises `amount` of the option's open notional at time `now`.
///
/// An accepted request takes `amount` off the record, settles the record when
/// nothing is left open, and returns the settlement for the caller to carry
/// out. A rejected request leaves the record as it was.
///
/// The strike payment is a share of what is still open, so a request that
/// passes every check must find notional open: a record that is not settled
/// and yet has nothing open cannot be exercised. `check_exercise` tells
/// whether a request passes.
pub fn exercise_option(
    ctx: &mut ExerciseOption,
    now: i64,
    amount: u64,
) -> (outcome: Result<Effects<OptionExercised>, MyError>)
    requires
        exercise_rejection(old(ctx).option, now, amount) is None
            ==> old(ctx).option.amount_underlying > 0,
    ensures
        *final(ctx) == after_exercise(*old(ctx), now, amount),
        match outcome {
            Ok(effects) => {
                &&& exercise_rejection(old(ctx).option, now, amount) is None
                &&& effects.instructions@ == exercise_instructions(*old(ctx), amount)
                &&& effects.event == exercised_event(*old(ctx))
            },
            Err(reason) => exercise_rejection(old(ctx).option, now, amount) == Some(reason),
        },
        // A rejected request leaves everything as it was.
        outcome is Err ==> *final(ctx) == *old(ctx),
        // From the expiration on nothing is exercised, whatever the style.
        now >= old(ctx).option.expiration ==> rejected_with(outcome, MyError::OptionExpired),
        // A settled record is not exercised again.
        old(ctx).option.is_exercised ==> outcome is Err,
        // More than is open is never exercised, and the record stays as it was.
        amount > old(ctx).option.amount_underlying ==> outcome is Err && *final(ctx) == *old(ctx),
        now < old(ctx).option.expiration && !old(ctx).option.is_exercised
            && amount > old(ctx).option.amount_underlying
            ==> rejected_with(outcome, MyError::InvalidAmount),
        // A European option is never exercised: before its expiration it is
        // too early, unless an earlier check has turned the request down.
        !old(ctx).option.is_american ==> outcome is Err,
        !old(ctx).option.is_american && now < old(ctx).option.expiration
            && !old(ctx).option.is_exercised && amount <= old(ctx).option.amount_underlying
            ==> rejected_with(outcome, MyError::EarlyExerciseNotAllowed),
        // The open notional never grows, a settled record stays settled, and
        // the settlement flag keeps agreeing with the open notional.
        final(ctx).option.amount_underlying <= old(ctx).option.amount_underlying,
        old(ctx).option.is_exercised ==> final(ctx).option.is_exercised,
        old(ctx).option.is_consistent() ==> final(ctx).option.is_consistent(),
{
    let option = ctx.option;
    if let Some(reason) = check_exercise(&option, now, amount) {
        return Err(reason);
    }
    let strike: u64 = proportional_strike_price(
        option.strike_price,
        amount,
        option.amount_underlying,
    );
    let mut instructions: Vec<LedgerInstruction> = if option.option_type == OPTION_TYPE_CALL {
        vec![pay_in(ctx, strike), release(ctx, amount)]
    } else {
        vec![pay_in(ctx, amount), release(ctx, strike)]
    };
    ctx.option.amount_underlying = option.amount_underlying - amount;
    if ctx.option.amount_underlying == 0 {
        ctx.option.is_exercised = true;
        instructions.push(burn_token(ctx));
    }
    let event = OptionExercised {
        exerciser: ctx.user,
        option_type: option.option_type,
        strike_price: option.strike_price,
        expiration: option.expiration,
    };
    Ok(Effects { instructions, event })
}

} // verus!
