//! Whole lifecycles, from mint to settlement or cancellation.

use options_tokenization::{
    cancel_option, exercise_option, expire_option, mint_option, CancelOption, Effects,
    ExerciseOption, ExpireOption, LedgerInstruction, MintOption, MyError, OptionCancelled,
    OptionExercised, OptionMinted, OptionState, Pubkey, OPTION_TYPE_CALL, OPTION_TYPE_PUT,
};

const T: i64 = 1_700_000_000;

fn key(n: u8) -> Pubkey {
    Pubkey::new_from_array([n; 32])
}

fn blank_record() -> OptionState {
    OptionState {
        strike_price: 0,
        expiration: 0,
        option_type: 0,
        underlying_mint: Pubkey::default(),
        amount_underlying: 0,
        mint_authority: Pubkey::default(),
        is_exercised: false,
        is_american: false,
    }
}

fn mint_accounts() -> MintOption {
    MintOption {
        option: blank_record(),
        mint: key(1),
        token_account: key(2),
        user: key(3),
        underlying_mint: key(4),
        underlying_asset_account: key(5),
        escrow: key(6),
        token_program: key(7),
        system_program: key(8),
        fee_receiver: key(9),
    }
}

fn exercise_accounts(option: OptionState) -> ExerciseOption {
    ExerciseOption {
        option,
        mint: key(1),
        option_token_account: key(2),
        option_holder: key(10),
        escrow: key(6),
        escrow_authority: key(11),
        user: key(12),
        token_program: key(7),
    }
}

fn cancel_accounts(option: OptionState) -> CancelOption {
    CancelOption {
        option,
        user: key(3),
        escrow: key(6),
        escrow_authority: key(11),
        token_program: key(7),
    }
}

fn holder_pays(amount: u64) -> LedgerInstruction {
    LedgerInstruction::Transfer {
        program: key(7),
        from: key(10),
        to: key(6),
        authority: key(12),
        amount,
    }
}

fn escrow_releases(amount: u64) -> LedgerInstruction {
    LedgerInstruction::Transfer {
        program: key(7),
        from: key(6),
        to: key(10),
        authority: key(11),
        amount,
    }
}

fn token_burn() -> LedgerInstruction {
    LedgerInstruction::Burn {
        program: key(7),
        mint: key(1),
        from: key(2),
        authority: key(12),
        amount: 1,
    }
}

fn refund_to_creator(amount: u64) -> Effects<OptionCancelled> {
    Effects {
        instructions: vec![LedgerInstruction::Transfer {
            program: key(7),
            from: key(6),
            to: key(3),
            authority: key(11),
            amount,
        }],
        event: OptionCancelled {
            creator: key(3),
            option_type: OPTION_TYPE_CALL,
            amount_returned: amount,
        },
    }
}

#[test]
fn american_call_exercised_in_two_parts() {
    let mut mint = mint_accounts();
    let minted = mint_option(&mut mint, 100, T + 1000, OPTION_TYPE_CALL, 10, 0, true).unwrap();
    assert_eq!(
        minted,
        Effects {
            instructions: vec![
                LedgerInstruction::MintTo {
                    program: key(7),
                    mint: key(1),
                    to: key(2),
                    authority: key(3),
                    amount: 1,
                },
                LedgerInstruction::Transfer {
                    program: key(7),
                    from: key(5),
                    to: key(6),
                    authority: key(3),
                    amount: 10,
                },
            ],
            event: OptionMinted {
                minter: key(3),
                option_type: OPTION_TYPE_CALL,
                strike_price: 100,
                expiration: T + 1000,
                amount_underlying: 10,
            },
        }
    );
    assert_eq!(mint.option.amount_underlying, 10);
    assert!(!mint.option.is_exercised);

    let mut ctx = exercise_accounts(mint.option);
    let first = exercise_option(&mut ctx, T + 10, 4).unwrap();
    assert_eq!(first.instructions, vec![holder_pays(40), escrow_releases(4)]);
    assert_eq!(
        first.event,
        OptionExercised {
            exerciser: key(12),
            option_type: OPTION_TYPE_CALL,
            strike_price: 100,
            expiration: T + 1000,
        }
    );
    assert_eq!(ctx.option.amount_underlying, 6);
    assert!(!ctx.option.is_exercised);

    let second = exercise_option(&mut ctx, T + 20, 6).unwrap();
    assert_eq!(
        second.instructions,
        vec![holder_pays(100), escrow_releases(6), token_burn()]
    );
    assert_eq!(ctx.option.amount_underlying, 0);
    assert!(ctx.option.is_exercised);
}

#[test]
fn european_put_is_never_exercisable() {
    let mut mint = mint_accounts();
    mint_option(&mut mint, 50, T + 100, OPTION_TYPE_PUT, 5, 0, false).unwrap();
    let minted = mint.option;

    let mut ctx = exercise_accounts(minted);
    assert_eq!(
        exercise_option(&mut ctx, T + 50, 5),
        Err(MyError::EarlyExerciseNotAllowed)
    );
    assert_eq!(ctx.option, minted);
    assert_eq!(exercise_option(&mut ctx, T + 150, 5), Err(MyError::OptionExpired));
    assert_eq!(ctx.option, minted);
}

#[test]
fn cancel_after_mint_refunds_the_whole_notional() {
    let mut mint = mint_accounts();
    mint_option(&mut mint, 100, T + 1000, OPTION_TYPE_CALL, 10, 0, true).unwrap();

    let mut ctx = cancel_accounts(mint.option);
    assert_eq!(cancel_option(&mut ctx), Ok(refund_to_creator(10)));
    assert_eq!(ctx.option.amount_underlying, 0);
    assert!(ctx.option.is_exercised);

    // The cancellation has closed the record: a second one is turned away
    // and changes nothing, so the notional is refunded once.
    let cancelled = ctx;
    assert_eq!(cancel_option(&mut ctx), Err(MyError::OptionAlreadyExercised));
    assert_eq!(ctx, cancelled);
}

#[test]
fn cancelled_option_is_not_exercised() {
    let mut mint = mint_accounts();
    mint_option(&mut mint, 100, T + 1000, OPTION_TYPE_CALL, 10, 0, true).unwrap();
    let mut cancel = cancel_accounts(mint.option);
    cancel_option(&mut cancel).unwrap();

    for amount in [0u64, 1, 10] {
        let mut ctx = exercise_accounts(cancel.option);
        assert_eq!(
            exercise_option(&mut ctx, T + 1, amount),
            Err(MyError::OptionAlreadyExercised)
        );
        assert_eq!(ctx.option, cancel.option);
    }
}

#[test]
fn cancel_after_full_exercise_fails() {
    let mut mint = mint_accounts();
    mint_option(&mut mint, 100, T + 1000, OPTION_TYPE_CALL, 10, 0, true).unwrap();
    let mut exercise = exercise_accounts(mint.option);
    exercise_option(&mut exercise, T + 1, 10).unwrap();
    assert_eq!(
        cancel_option(&mut cancel_accounts(exercise.option)),
        Err(MyError::OptionAlreadyExercised)
    );
}

#[test]
fn cancel_after_partial_exercise_refunds_what_is_open() {
    let mut mint = mint_accounts();
    mint_option(&mut mint, 100, T + 1000, OPTION_TYPE_CALL, 10, 0, true).unwrap();
    let mut exercise = exercise_accounts(mint.option);
    exercise_option(&mut exercise, T + 1, 3).unwrap();
    let mut ctx = cancel_accounts(exercise.option);
    assert_eq!(cancel_option(&mut ctx), Ok(refund_to_creator(7)));
    assert_eq!(cancel_option(&mut ctx), Err(MyError::OptionAlreadyExercised));
}

#[test]
fn partial_exercises_that_sum_to_the_notional_settle_and_burn_once() {
    let mut mint = mint_accounts();
    mint_option(&mut mint, 900, T + 1000, OPTION_TYPE_CALL, 12, 0, true).unwrap();
    let mut ctx = exercise_accounts(mint.option);

    let mut burns = 0;
    let mut released = 0;
    for (step, amount) in [5u64, 0, 4, 2, 1].into_iter().enumerate() {
        assert!(!ctx.option.is_exercised);
        let effects = exercise_option(&mut ctx, T + step as i64, amount).unwrap();
        for instruction in &effects.instructions {
            match instruction {
                LedgerInstruction::Burn { .. } => burns += 1,
                LedgerInstruction::Transfer { from, amount, .. } if *from == key(6) => {
                    released += amount
                }
                _ => {}
            }
        }
    }
    assert!(ctx.option.is_exercised);
    assert_eq!(ctx.option.amount_underlying, 0);
    assert_eq!(burns, 1);
    assert_eq!(released, 12);
    assert_eq!(
        exercise_option(&mut ctx, T + 10, 0),
        Err(MyError::OptionAlreadyExercised)
    );
}

#[test]
fn strike_share_is_taken_of_what_is_still_open() {
    let mut mint = mint_accounts();
    mint_option(&mut mint, 100, T + 1000, OPTION_TYPE_CALL, 10, 0, true).unwrap();
    let mut ctx = exercise_accounts(mint.option);

    let first = exercise_option(&mut ctx, T, 4).unwrap();
    assert_eq!(first.instructions, vec![holder_pays(40), escrow_releases(4)]);
    let second = exercise_option(&mut ctx, T, 3).unwrap();
    assert_eq!(second.instructions, vec![holder_pays(50), escrow_releases(3)]);
    let third = exercise_option(&mut ctx, T, 3).unwrap();
    assert_eq!(
        third.instructions,
        vec![holder_pays(100), escrow_releases(3), token_burn()]
    );
}

#[test]
fn expiry_after_partial_exercise_returns_what_is_open() {
    let mut mint = mint_accounts();
    mint_option(&mut mint, 100, T + 1000, OPTION_TYPE_CALL, 10, 0, true).unwrap();
    let mut exercise = exercise_accounts(mint.option);
    exercise_option(&mut exercise, T + 1, 4).unwrap();

    let ctx = ExpireOption {
        option: exercise.option,
        escrow: key(6),
        escrow_authority: key(11),
        mint_authority: key(3),
        token_program: key(7),
    };
    assert_eq!(expire_option(&ctx, T + 999), Err(MyError::OptionNotExpired));
    let expired = expire_option(&ctx, T + 1000).unwrap();
    assert_eq!(
        expired.instructions,
        vec![LedgerInstruction::Transfer {
            program: key(7),
            from: key(6),
            to: key(3),
            authority: key(11),
            amount: 6,
        }]
    );
}
