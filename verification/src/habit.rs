use vstd::prelude::*;

use crate::account::AccountId;

verus! {

/// Seconds after the deadline during which only the judge may act; once it
/// has elapsed, anyone may trigger a clawback of unjudged funds.
pub const GRACE_PERIOD: u64 = 604800;

/// The persistent record of one habit: parties, destinations, deadline and
/// outcome. Its stable identity is the (creator, description) pair; every
/// field but `outcome` is immutable after creation, and `outcome` is written
/// at most once, by the judge.
pub struct Habit {
    /// Identity that proposed the habit.
    pub creator: AccountId,
    /// Opaque text identifying the habit; with `creator` it forms the
    /// record's stable identity.
    pub description: String,
    /// Identity authorized to set the outcome.
    pub judge: AccountId,
    /// Destination identity when the judge rules success.
    pub to_success: AccountId,
    /// Destination identity when the judge rules failure.
    pub to_failure: AccountId,
    /// Timestamp before which no verdict may be cast.
    pub deadline: u64,
    /// `None` while pending; `Some(verdict)` once judged, immutable from
    /// then on.
    pub outcome: Option<bool>,
}

/// The destination that a verdict selects: `to_success` on a success ruling,
/// `to_failure` on a failure ruling.
pub open spec fn winning_destination(habit: Habit, verdict: bool) -> AccountId {
    if verdict {
        habit.to_success
    } else {
        habit.to_failure
    }
}

/// The record as it stands after a verdict has been recorded: the outcome is
/// set and every other field is untouched.
pub open spec fn judged(habit: Habit, verdict: bool) -> Habit {
    Habit { outcome: Some(verdict), ..habit }
}

} // verus!
