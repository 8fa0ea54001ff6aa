use vstd::prelude::*;

use crate::account::AccountId;
use crate::engine::clawback_error;
use crate::engine::judgement_error;
use crate::engine::released_balance;
use crate::errors::ErrorCode;
use crate::habit::judged;
use crate::habit::Habit;

verus! {

/// A commitment is judged at most once. After any accepted judgement the
/// record carries the verdict, and a second judgement command issued by the
/// record's judge is rejected as `AlreadyJudged`, whatever verdict, time,
/// destination or balances it carries; the handler then leaves the record and
/// the balances untouched. (A second call by any other identity is rejected
/// even earlier, as `NotAuthorized`.)
pub proof fn lemma_judge_at_most_once(
    habit: Habit,
    caller1: AccountId,
    verdict1: bool,
    now1: u64,
    mint1: AccountId,
    destination1: AccountId,
    vault1: u64,
    dest_bal1: u64,
    caller2: AccountId,
    verdict2: bool,
    now2: u64,
    mint2: AccountId,
    destination2: AccountId,
    vault2: u64,
    dest_bal2: u64,
)
    requires
        judgement_error(
            habit,
            caller1,
            verdict1,
            now1,
            mint1,
            destination1,
            vault1,
            dest_bal1,
        ) is None,
        caller2 == habit.judge,
    ensures
        judgement_error(
            judged(habit, verdict1),
            caller2,
            verdict2,
            now2,
            mint2,
            destination2,
            vault2,
            dest_bal2,
        ) == Some(ErrorCode::AlreadyJudged),
{
}

/// Replaying a fund-moving command against a commitment whose vault is
/// already drained never moves funds again. A release always credits the
/// destination with exactly the vault's balance, so once that balance is
/// zero, even an accepted replay (a clawback run twice, or the late
/// judgement a reclaimed record still admits) reports the destination
/// balance it was given, unchanged.
pub proof fn lemma_drained_vault_releases_nothing(destination_balance: u64)
    ensures
        released_balance(0, destination_balance) == destination_balance,
{
}

/// A clawback replayed after an accepted clawback is either rejected or
/// releases nothing: the first release drains the vault, and a second
/// accepted run over the drained vault leaves the destination balance as it
/// stands.
pub proof fn lemma_clawback_replay_moves_no_funds(
    habit: Habit,
    now1: u64,
    mint1: AccountId,
    destination1: AccountId,
    vault1: u64,
    dest_bal1: u64,
    now2: u64,
    mint2: AccountId,
    destination2: AccountId,
    dest_bal2: u64,
)
    requires
        clawback_error(habit, now1, mint1, destination1, vault1, dest_bal1) is None,
    ensures
        clawback_error(habit, now2, mint2, destination2, 0, dest_bal2) is None ==> released_balance(
            0,
            dest_bal2,
        ) == dest_bal2,
{
}

} // verus!
