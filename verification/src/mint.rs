//! Minting: the record is written and the escrow funded.

use crate::accounts::MintOption;
use crate::error::MyError;
use crate::events::OptionMinted;
use crate::ledger::{Effects, LedgerInstruction};
use crate::state::{known_option_type, OptionState, OPTION_TYPE_CALL, OPTION_TYPE_PUT};
use vstd::prelude::*;

verus! {

/// The record of a freshly minted option: the terms as given, the whole
/// notional open, not settled, written by the minter.
pub open spec fn minted_record(
    ctx: MintOption,
    strike_price: u64,
    expiration: i64,
    option_type: u8,
    amount_underlying: u64,
    is_american: bool,
) -> OptionState {
    OptionState {
        strike_price,
        expiration,
        option_type,
        underlying_mint: ctx.underlying_mint,
        amount_underlying,
        mint_authority: ctx.user,
        is_exercised: false,
        is_american,
    }
}

/// What minting asks of the ledger: one token that stands for the option goes
/// to the recipient's account, the minter's underlying goes into the escrow,
/// and a fee, where there is one, goes from the minter to the fee receiver.
/// The fee is a flat amount; none is charged where it is zero.
pub open spec fn mint_instructions(
    ctx: MintOption,
    amount_underlying: u64,
    fee: u64,
) -> Seq<LedgerInstruction> {
    let token = LedgerInstruction::MintTo {
        program: ctx.token_program,
        mint: ctx.mint,
        to: ctx.token_account,
        authority: ctx.user,
        amount: 1,
    };
    let funding = LedgerInstruction::Transfer {
        program: ctx.token_program,
        from: ctx.underlying_asset_account,
        to: ctx.escrow,
        authority: ctx.user,
        amount: amount_underlying,
    };
    let charge = LedgerInstruction::Transfer {
        program: ctx.system_program,
        from: ctx.user,
        to: ctx.fee_receiver,
        authority: ctx.user,
        amount: fee,
    };
    if fee > 0 {
        seq![token, funding, charge]
    } else {
        seq![token, funding]
    }
}

/// The event of an accepted mint.
pub open spec fn minted_event(
    ctx: MintOption,
    strike_price: u64,
    expiration: i64,
    option_type: u8,
    amount_underlying: u64,
) -> OptionMinted {
    OptionMinted { minter: ctx.user, option_type, strike_price, expiration, amount_underlying }
}

/// Mints an option with the given terms over `amount_underlying` units.
///
/// The request is rejected only for a tag that names neither a call nor a
/// put; the expiration is taken as it comes, even one that has passed. An
/// accepted request writes the record, with the whole notional open, and
/// returns what the ledger has to do. A rejected one leaves the record as it
/// was.
pub fn mint_option(
    ctx: &mut MintOption,
    strike_price: u64,
    expiration: i64,
    option_type: u8,
    amount_underlying: u64,
    fee: u64,
    is_american: bool,
) -> (outcome: Result<Effects<OptionMinted>, MyError>)
    ensures
        match outcome {
            Ok(effects) => {
                &&& known_option_type(option_type)
                &&& *final(ctx) == (MintOption {
                    option: minted_record(
                        *old(ctx),
                        strike_price,
                        expiration,
                        option_type,
                        amount_underlying,
                        is_american,
                    ),
                    ..*old(ctx)
                })
                &&& effects.instructions@ == mint_instructions(*old(ctx), amount_underlying, fee)
                &&& effects.event == minted_event(
                    *old(ctx),
                    strike_price,
                    expiration,
                    option_type,
                    amount_underlying,
                )
            },
            Err(reason) => {
                &&& !known_option_type(option_type)
                &&& reason == MyError::InvalidOptionType
                &&& *final(ctx) == *old(ctx)
            },
        },
        // Right after a mint the whole notional is open and nothing is settled.
        outcome is Ok ==> final(ctx).option.amount_underlying == amount_underlying,
        outcome is Ok ==> !final(ctx).option.is_exercised,
        // The minted record has a known tag, and its settlement flag agrees
        // with its notional unless it was minted over nothing.
        outcome is Ok ==> final(ctx).option.has_known_type(),
        outcome is Ok ==> (final(ctx).option.is_consistent() <==> amount_underlying > 0),
{
    if !(option_type == OPTION_TYPE_CALL || option_type == OPTION_TYPE_PUT) {
        return Err(MyError::InvalidOptionType);
    }
    ctx.option.strike_price = strike_price;
    ctx.option.expiration = expiration;
    ctx.option.option_type = option_type;
    ctx.option.amount_underlying = amount_underlying;
    ctx.option.mint_authority = ctx.user;
    ctx.option.is_exercised = false;
    ctx.option.underlying_mint = ctx.underlying_mint;
    ctx.option.is_american = is_american;

    let mut instructions: Vec<LedgerInstruction> = vec![
        LedgerInstruction::MintTo {
            program: ctx.token_program,
            mint: ctx.mint,
            to: ctx.token_account,
            authority: ctx.user,
            amount: 1,
        },
        LedgerInstruction::Transfer {
            program: ctx.token_program,
            from: ctx.underlying_asset_account,
            to: ctx.escrow,
            authority: ctx.user,
            amount: amount_underlying,
        },
    ];
    if fee > 0 {
        instructions.push(
            LedgerInstruction::Transfer {
                program: ctx.system_program,
                from: ctx.user,
                to: ctx.fee_receiver,
                authority: ctx.user,
                amount: fee,
            },
        );
    }
    let event = OptionMinted {
        minter: ctx.user,
        option_type,
        strike_price,
        expiration,
        amount_underlying,
    };
    Ok(Effects { instructions, event })
}

} // verus!
