//! What a run of exercise requests makes of a record.
//!
//! The requests are taken one after the other, each on the record as the ones
//! before left it, and each as `exercise_option` takes it: a request that is
//! rejected changes nothing and asks nothing of the ledger.

use crate::accounts::{CancelOption, ExerciseOption, ExpireOption};
use crate::cancel::{after_cancel, cancel_refund, cancel_rejection, cancelled_record};
use crate::error::MyError;
use crate::expire::expiry_refund;
use crate::exercise::{
    after_exercise, exercise_instructions, exercise_rejection, lemma_exercise_burns_on_settlement,
};
use crate::ledger::{burn_count, lemma_burn_count_add, lemma_burn_count_empty, LedgerInstruction};
use crate::state::{OptionState, OPTION_TYPE_CALL};
use vstd::prelude::*;

verus! {

/// One request to exercise: the time it is made at and the notional it asks
/// for.
pub struct ExerciseRequest {
    pub now: i64,
    pub amount: u64,
}

/// The request is accepted on the record that `ctx` holds.
pub open spec fn accepted(ctx: ExerciseOption, request: ExerciseRequest) -> bool {
    exercise_rejection(ctx.option, request.now, request.amount) is None
}

/// The accounts after `request`, as `exercise_option` leaves them.
pub open spec fn after_request(ctx: ExerciseOption, request: ExerciseRequest) -> ExerciseOption {
    after_exercise(ctx, request.now, request.amount)
}

/// What `request` asks of the ledger: nothing where it is rejected.
pub open spec fn instructions_of(
    ctx: ExerciseOption,
    request: ExerciseRequest,
) -> Seq<LedgerInstruction> {
    if accepted(ctx, request) {
        exercise_instructions(ctx, request.amount)
    } else {
        Seq::empty()
    }
}

/// The accounts after all of `requests`, taken in order.
pub open spec fn after_requests(
    ctx: ExerciseOption,
    requests: Seq<ExerciseRequest>,
) -> ExerciseOption
    decreases requests.len(),
{
    if requests.len() == 0 {
        ctx
    } else {
        after_request(after_requests(ctx, requests.drop_last()), requests.last())
    }
}

/// The notional that `requests` exercised: the amounts of those that were
/// accepted, added up.
pub open spec fn exercised_amount(ctx: ExerciseOption, requests: Seq<ExerciseRequest>) -> nat
    decreases requests.len(),
{
    if requests.len() == 0 {
        0
    } else {
        let earlier = requests.drop_last();
        let last: nat = if accepted(after_requests(ctx, earlier), requests.last()) {
            requests.last().amount as nat
        } else {
            0
        };
        exercised_amount(ctx, earlier) + last
    }
}

/// All that `requests` asked of the ledger, in order.
pub open spec fn issued_instructions(
    ctx: ExerciseOption,
    requests: Seq<ExerciseRequest>,
) -> Seq<LedgerInstruction>
    decreases requests.len(),
{
    if requests.len() == 0 {
        Seq::empty()
    } else {
        let earlier = requests.drop_last();
        let last = instructions_of(after_requests(ctx, earlier), requests.last());
        issued_instructions(ctx, earlier) + last
    }
}

/// Whatever requests are made of a consistent record, in whatever order and
/// whether accepted or not:
///
/// - the terms and the accounts stay as they were;
/// - the record stays consistent, and once settled it stays settled;
/// - what is open and what was exercised add up to what was open at first, so
///   the open notional never grows;
/// - the option's token is burnt once if the requests settled the record, and
///   not at all if they did not.
pub proof fn lemma_exercise_history(ctx: ExerciseOption, requests: Seq<ExerciseRequest>)
    requires
        ctx.option.is_consistent(),
    ensures
        ({
            let end = after_requests(ctx, requests);
            let settled_now = end.option.is_exercised && !ctx.option.is_exercised;
            &&& end == (ExerciseOption { option: end.option, ..ctx })
            &&& end.option == (OptionState {
                amount_underlying: end.option.amount_underlying,
                is_exercised: end.option.is_exercised,
                ..ctx.option
            })
            &&& end.option.is_consistent()
            &&& ctx.option.is_exercised ==> end.option.is_exercised
            &&& end.option.amount_underlying + exercised_amount(ctx, requests)
                == ctx.option.amount_underlying
            &&& burn_count(issued_instructions(ctx, requests)) == if settled_now {
                1nat
            } else {
                0nat
            }
        }),
    decreases requests.len(),
{
    if requests.len() == 0 {
        lemma_burn_count_empty();
    } else {
        let earlier = requests.drop_last();
        let before = after_requests(ctx, earlier);
        lemma_exercise_history(ctx, earlier);
        lemma_burn_count_add(
            issued_instructions(ctx, earlier),
            instructions_of(before, requests.last()),
        );
        if accepted(before, requests.last()) {
            lemma_exercise_burns_on_settlement(before, requests.last().amount);
        } else {
            lemma_burn_count_empty();
        }
    }
}

/// A record that is settled, or of the European style, or of an unknown kind,
/// turns every request to exercise away: whatever is asked of it, and
/// whenever, it stays as it is and the ledger is asked nothing.
pub proof fn lemma_unexercisable_record_stays(ctx: ExerciseOption, requests: Seq<ExerciseRequest>)
    requires
        ctx.option.is_exercised || !ctx.option.is_american || !ctx.option.has_known_type(),
    ensures
        after_requests(ctx, requests) == ctx,
        exercised_amount(ctx, requests) == 0,
        issued_instructions(ctx, requests) == Seq::<LedgerInstruction>::empty(),
    decreases requests.len(),
{
    if requests.len() > 0 {
        lemma_unexercisable_record_stays(ctx, requests.drop_last());
    }
}

/// Once the requests that were accepted have exercised the whole notional of
/// a record that had some, the record is settled, nothing is open, and the
/// option's token has been burnt exactly once.
pub proof fn lemma_full_exercise_settles_and_burns_once(
    ctx: ExerciseOption,
    requests: Seq<ExerciseRequest>,
)
    requires
        !ctx.option.is_exercised,
        ctx.option.amount_underlying > 0,
        exercised_amount(ctx, requests) == ctx.option.amount_underlying,
    ensures
        after_requests(ctx, requests).option.is_exercised,
        after_requests(ctx, requests).option.amount_underlying == 0,
        burn_count(issued_instructions(ctx, requests)) == 1,
{
    lemma_exercise_history(ctx, requests);
}

/// As long as the requests that were accepted have exercised less than the
/// whole notional, the record is not settled, and no token has been burnt.
pub proof fn lemma_partial_exercise_leaves_the_option_open(
    ctx: ExerciseOption,
    requests: Seq<ExerciseRequest>,
)
    requires
        ctx.option.is_consistent(),
        exercised_amount(ctx, requests) < ctx.option.amount_underlying,
    ensures
        !after_requests(ctx, requests).option.is_exercised,
        after_requests(ctx, requests).option.amount_underlying == ctx.option.amount_underlying
            - exercised_amount(ctx, requests),
        burn_count(issued_instructions(ctx, requests)) == 0,
{
    lemma_exercise_history(ctx, requests);
}

/// Cancelling after a run of requests gives back exactly what the requests
/// left open: with what they exercised it makes up the notional that was open
/// at first. Once they have exercised all of it, cancelling is turned down.
pub proof fn lemma_cancel_refunds_what_is_open(
    ctx: ExerciseOption,
    requests: Seq<ExerciseRequest>,
    cancel: CancelOption,
)
    requires
        ctx.option.is_consistent(),
        !ctx.option.is_exercised,
        cancel.option == after_requests(ctx, requests).option,
    ensures
        cancel_refund(cancel.option) + exercised_amount(ctx, requests)
            == ctx.option.amount_underlying,
        exercised_amount(ctx, requests) < ctx.option.amount_underlying
            ==> cancel_rejection(cancel.option) is None,
        exercised_amount(ctx, requests) == ctx.option.amount_underlying
            ==> cancel_rejection(cancel.option) == Some(MyError::OptionAlreadyExercised),
{
    lemma_exercise_history(ctx, requests);
}

/// Nothing follows a cancellation. Once a record has been cancelled, a second
/// request to cancel it is turned down and changes nothing, and whatever
/// requests to exercise are made of it, and whenever, all are turned down:
/// the record stays as the cancellation left it, nothing is exercised and
/// the ledger is asked nothing.
pub proof fn lemma_nothing_follows_a_cancel(
    cancel: CancelOption,
    ctx: ExerciseOption,
    requests: Seq<ExerciseRequest>,
)
    requires
        cancel_rejection(cancel.option) is None,
        ctx.option == after_cancel(cancel).option,
    ensures
        ctx.option == cancelled_record(cancel.option),
        cancel_rejection(after_cancel(cancel).option) == Some(MyError::OptionAlreadyExercised),
        after_cancel(after_cancel(cancel)) == after_cancel(cancel),
        forall|i: int| 0 <= i < requests.len() ==> !accepted(ctx, #[trigger] requests[i]),
        after_requests(ctx, requests) == ctx,
        exercised_amount(ctx, requests) == 0,
        issued_instructions(ctx, requests) == Seq::<LedgerInstruction>::empty(),
{
    lemma_unexercisable_record_stays(ctx, requests);
}

/// Expiring a call after a run of requests gives back exactly what the
/// requests left open: with what they exercised it makes up the notional that
/// was open at first. A put gives back its strike price whatever was
/// exercised.
pub proof fn lemma_expiry_returns_what_is_open(
    ctx: ExerciseOption,
    requests: Seq<ExerciseRequest>,
    expire: ExpireOption,
)
    requires
        ctx.option.is_consistent(),
        expire.option == after_requests(ctx, requests).option,
    ensures
        expire.option.option_type == OPTION_TYPE_CALL
            ==> expiry_refund(expire.option) + exercised_amount(ctx, requests)
            == ctx.option.amount_underlying,
        expire.option.option_type != OPTION_TYPE_CALL
            ==> expiry_refund(expire.option) == ctx.option.strike_price,
{
    lemma_exercise_history(ctx, requests);
}

} // verus!
