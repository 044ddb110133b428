//! Why a request is turned down.

use vstd::prelude::*;

verus! {

/// The reasons for which a lifecycle operation rejects a request. Each one
/// names a condition of the request that the caller can correct; a rejected
/// request changes nothing.
#[derive(Clone, Copy, Debug, PartialEq, Eq, Structural)]
pub enum MyError {
    /// The tag is neither `OPTION_TYPE_CALL` nor `OPTION_TYPE_PUT`.
    InvalidOptionType,
    /// The operation had to come strictly before the expiration.
    OptionExpired,
    /// The record is settled: the whole notional has been exercised
    /// already, or the option has been cancelled.
    OptionAlreadyExercised,
    /// A European option was exercised before its expiration.
    EarlyExerciseNotAllowed,
    /// More was asked for than the record still holds.
    InvalidAmount,
    /// The option cannot be expired before its expiration.
    OptionNotExpired,
}

/// The request was turned down, and for this reason.
pub open spec fn rejected_with<T>(outcome: Result<T, MyError>, reason: MyError) -> bool {
    outcome is Err && outcome->Err_0 == reason
}

} // verus!
