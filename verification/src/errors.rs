use vstd::prelude::*;

verus! {

/// Caller-visible failures of the escrow engine. Every precondition failure
/// aborts its command before any state mutation, so an error always means
/// that no record was written and no funds moved.
#[derive(Clone, Copy, Debug, PartialEq, Eq, Structural)]
pub enum ErrorCode {
    /// The escrowed amount at creation was zero.
    InvalidAmount,
    /// The creation deadline was not strictly in the future.
    DeadlineInPast,
    /// A commitment with the same (creator, description) identity already
    /// exists in the store.
    AlreadyExists,
    /// The caller of a judgement is not the record's judge.
    NotAuthorized,
    /// The outcome was already set, or a clawback targeted a judged record.
    AlreadyJudged,
    /// A judgement or clawback was attempted before its time threshold.
    DeadlineNotPassed,
    /// The supplied destination account does not match the canonically
    /// derived one.
    WrongDestination,
    /// The vault could not complete the transfer: the source does not cover
    /// the amount, or the destination balance would overflow.
    VaultFailure,
}

} // verus!
