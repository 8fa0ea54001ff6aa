use vstd::prelude::*;

use crate::account::AccountId;

verus! {

/// Published after a successful creation.
#[derive(Clone, Copy, Debug)]
pub struct NewHabitEvent {
    /// Identity that created the habit.
    pub creator: AccountId,
    /// Identity that will judge it.
    pub judge: AccountId,
    /// Time from which the judge may rule.
    pub deadline: u64,
}

/// Published after a successful judgement.
#[derive(Clone, Copy, Debug)]
pub struct HabitJudgedEvent {
    /// The judged habit record.
    pub habit: AccountId,
    /// Identity that created it.
    pub creator: AccountId,
    /// Identity that judged it.
    pub judge: AccountId,
    /// The verdict.
    pub result: bool,
}

/// Published after a successful clawback.
#[derive(Clone, Copy, Debug)]
pub struct ClawbackEvent {
    /// The habit whose funds were reclaimed.
    pub habit: AccountId,
    /// Identity that created it.
    pub creator: AccountId,
}

} // verus!
