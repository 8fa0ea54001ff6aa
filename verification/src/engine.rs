use vstd::prelude::*;

use crate::account::id_eq;
use crate::account::lemma_id_eq_bytes;
use crate::account::AccountId;
use crate::destination::ata_of;
use crate::destination::derive_destination;
use crate::errors::ErrorCode;
use crate::events::ClawbackEvent;
use crate::events::HabitJudgedEvent;
use crate::events::NewHabitEvent;
use crate::habit::judged;
use crate::habit::winning_destination;
use crate::habit::Habit;
use crate::habit::GRACE_PERIOD;

verus! {

/// What a successful creation leaves behind: the persisted record, the fresh
/// vault holding the locked amount, the debited source account, and the event
/// to publish.
pub struct HabitCreated {
    /// The record persisted to the store, with `outcome` still pending.
    pub habit: Habit,
    /// Balance of the vault bound to the new record.
    pub vault_balance: u64,
    /// Balance left in the creator's source account.
    pub source_balance: u64,
    /// The notification to publish.
    pub event: NewHabitEvent,
}

/// What a successful judgement leaves behind: the drained vault, the credited
/// destination account, and the event to publish. The updated record is
/// written back through the command's `&mut` argument.
pub struct JudgementApplied {
    /// Balance left in the vault; a judgement always releases everything.
    pub vault_balance: u64,
    /// Balance of the destination account after the release.
    pub destination_balance: u64,
    /// The notification to publish.
    pub event: HabitJudgedEvent,
}

/// What a successful clawback leaves behind: the drained vault, the credited
/// success destination, and the event to publish. A clawback does not touch
/// the record itself.
pub struct ClawbackApplied {
    /// Balance left in the vault; a clawback always releases everything.
    pub vault_balance: u64,
    /// Balance of the destination account after the release.
    pub destination_balance: u64,
    /// The notification to publish.
    pub event: ClawbackEvent,
}

/// The destination balance after a release of the whole vault into it.
pub open spec fn released_balance(vault_balance: u64, destination_balance: u64) -> int {
    vault_balance + destination_balance
}

/// The error a creation reports, checked in this order, or `None` when the
/// command is accepted.
pub open spec fn creation_error(
    amount: u64,
    deadline: u64,
    now: u64,
    record_exists: bool,
    source_balance: u64,
) -> Option<ErrorCode> {
    if amount == 0 {
        Some(ErrorCode::InvalidAmount)
    } else if deadline <= now {
        Some(ErrorCode::DeadlineInPast)
    } else if record_exists {
        Some(ErrorCode::AlreadyExists)
    } else if source_balance < amount {
        Some(ErrorCode::VaultFailure)
    } else {
        None
    }
}

/// The error a judgement reports, checked in this order, or `None` when the
/// command is accepted.
pub open spec fn judgement_error(
    habit: Habit,
    caller: AccountId,
    verdict: bool,
    now: u64,
    mint: AccountId,
    destination: AccountId,
    vault_balance: u64,
    destination_balance: u64,
) -> Option<ErrorCode> {
    if caller != habit.judge {
        Some(ErrorCode::NotAuthorized)
    } else if habit.outcome is Some {
        Some(ErrorCode::AlreadyJudged)
    } else if now < habit.deadline {
        Some(ErrorCode::DeadlineNotPassed)
    } else if destination.bytes@ != ata_of(
        winning_destination(habit, verdict).bytes@,
        mint.bytes@,
    ) {
        Some(ErrorCode::WrongDestination)
    } else if vault_balance + destination_balance > u64::MAX {
        Some(ErrorCode::VaultFailure)
    } else {
        None
    }
}

/// The error a clawback reports, checked in this order, or `None` when the
/// command is accepted.
pub open spec fn clawback_error(
    habit: Habit,
    now: u64,
    mint: AccountId,
    destination: AccountId,
    vault_balance: u64,
    destination_balance: u64,
) -> Option<ErrorCode> {
    if habit.outcome is Some {
        Some(ErrorCode::AlreadyJudged)
    } else if now < habit.deadline + GRACE_PERIOD {
        Some(ErrorCode::DeadlineNotPassed)
    } else if destination.bytes@ != ata_of(habit.to_success.bytes@, mint.bytes@) {
        Some(ErrorCode::WrongDestination)
    } else if vault_balance + destination_balance > u64::MAX {
        Some(ErrorCode::VaultFailure)
    } else {
        None
    }
}

/// Create a commitment: lock `amount` from the creator's source account into
/// a fresh vault and persist the record with a pending outcome. The command
/// succeeds exactly when the amount is positive, the deadline lies strictly
/// in the future, no record with the same identity exists, and the source
/// covers the amount; on failure nothing is created and no funds move.
pub fn handle_new_habit(
    creator: AccountId,
    description: String,
    judge: AccountId,
    to_success: AccountId,
    to_failure: AccountId,
    deadline: u64,
    amount: u64,
    now: u64,
    record_exists: bool,
    source_balance: u64,
) -> (r: Result<HabitCreated, ErrorCode>)
    ensures
        r is Ok <==> (amount > 0 && deadline > now && !record_exists && source_balance
            >= amount),
        r matches Err(e) ==> creation_error(amount, deadline, now, record_exists, source_balance)
            == Some(e),
        r matches Ok(c) ==> {
            &&& c.habit.creator == creator
            &&& c.habit.description == description
            &&& c.habit.judge == judge
            &&& c.habit.to_success == to_success
            &&& c.habit.to_failure == to_failure
            &&& c.habit.deadline == deadline
            &&& c.habit.outcome is None
            &&& c.vault_balance == amount
            &&& c.source_balance == source_balance - amount
            &&& c.event.creator == creator
            &&& c.event.judge == judge
            &&& c.event.deadline == deadline
        },
{
    if amount == 0 {
        return Err(ErrorCode::InvalidAmount);
    }
    if deadline <= now {
        return Err(ErrorCode::DeadlineInPast);
    }
    if record_exists {
        return Err(ErrorCode::AlreadyExists);
    }
    if source_balance < amount {
        return Err(ErrorCode::VaultFailure);
    }
    let event = NewHabitEvent { creator, judge, deadline };
    let habit = Habit {
        creator,
        description,
        judge,
        to_success,
        to_failure,
        deadline,
        outcome: None,
    };
    Ok(HabitCreated { habit, vault_balance: amount, source_balance: source_balance - amount, event })
}

/// Judge a commitment: record the verdict and release the whole vault to the
/// canonically derived destination of the winning identity, as one atomic
/// unit. Only the record's judge may rule, only once, only from the deadline
/// on, and only towards the canonical destination; on any failure the record
/// is untouched and no funds move.
pub fn handle_cast_judgement(
    habit: &mut Habit,
    habit_ref: AccountId,
    caller: AccountId,
    verdict: bool,
    now: u64,
    mint: AccountId,
    destination: AccountId,
    vault_balance: u64,
    destination_balance: u64,
) -> (r: Result<JudgementApplied, ErrorCode>)
    ensures
        r is Ok <==> judgement_error(
            *old(habit),
            caller,
            verdict,
            now,
            mint,
            destination,
            vault_balance,
            destination_balance,
        ) is None,
        r matches Err(e) ==> judgement_error(
            *old(habit),
            caller,
            verdict,
            now,
            mint,
            destination,
            vault_balance,
            destination_balance,
        ) == Some(e),
        r is Err ==> *final(habit) == *old(habit),
        caller != old(habit).judge <==> r matches Err(ErrorCode::NotAuthorized),
        (caller == old(habit).judge && old(habit).outcome is Some) <==> r matches Err(
            ErrorCode::AlreadyJudged,
        ),
        (caller == old(habit).judge && old(habit).outcome is None && now < old(habit).deadline)
            <==> r matches Err(ErrorCode::DeadlineNotPassed),
        r matches Ok(a) ==> {
            &&& *final(habit) == judged(*old(habit), verdict)
            &&& a.vault_balance == 0
            &&& a.destination_balance == released_balance(vault_balance, destination_balance)
            &&& a.event.habit == habit_ref
            &&& a.event.creator == old(habit).creator
            &&& a.event.judge == old(habit).judge
            &&& a.event.result == verdict
        },
{
    if !id_eq(&caller, &habit.judge) {
        return Err(ErrorCode::NotAuthorized);
    }
    if habit.outcome.is_some() {
        return Err(ErrorCode::AlreadyJudged);
    }
    if now < habit.deadline {
        return Err(ErrorCode::DeadlineNotPassed);
    }
    let winner = if verdict {
        habit.to_success
    } else {
        habit.to_failure
    };
    let canonical = derive_destination(&winner, &mint);
    proof {
        lemma_id_eq_bytes(destination, canonical);
    }
    if !id_eq(&destination, &canonical) {
        return Err(ErrorCode::WrongDestination);
    }
    if vault_balance > u64::MAX - destination_balance {
        return Err(ErrorCode::VaultFailure);
    }
    let event = HabitJudgedEvent {
        habit: habit_ref,
        creator: habit.creator,
        judge: habit.judge,
        result: verdict,
    };
    habit.outcome = Some(verdict);
    Ok(JudgementApplied {
        vault_balance: 0,
        destination_balance: destination_balance + vault_balance,
        event,
    })
}

/// Reclaim unjudged funds: once the grace period after the deadline has
/// elapsed and no verdict has landed, release the whole vault to the
/// canonical destination of `to_success`. Anyone may call this; the record
/// itself is left untouched, so a drained vault is what blocks a second
/// release.
pub fn handle_clawback(
    habit: &Habit,
    habit_ref: AccountId,
    now: u64,
    mint: AccountId,
    destination: AccountId,
    vault_balance: u64,
    destination_balance: u64,
) -> (r: Result<ClawbackApplied, ErrorCode>)
    ensures
        r is Ok <==> clawback_error(
            *habit,
            now,
            mint,
            destination,
            vault_balance,
            destination_balance,
        ) is None,
        r matches Err(e) ==> clawback_error(
            *habit,
            now,
            mint,
            destination,
            vault_balance,
            destination_balance,
        ) == Some(e),
        habit.outcome is Some <==> r matches Err(ErrorCode::AlreadyJudged),
        (habit.outcome is None && now < habit.deadline + GRACE_PERIOD) <==> r matches Err(
            ErrorCode::DeadlineNotPassed,
        ),
        r matches Ok(a) ==> {
            &&& a.vault_balance == 0
            &&& a.destination_balance == released_balance(vault_balance, destination_balance)
            &&& a.event.habit == habit_ref
            &&& a.event.creator == habit.creator
        },
{
    if habit.outcome.is_some() {
        return Err(ErrorCode::AlreadyJudged);
    }
    if now < habit.deadline || now - habit.deadline < GRACE_PERIOD {
        return Err(ErrorCode::DeadlineNotPassed);
    }
    let canonical = derive_destination(&habit.to_success, &mint);
    proof {
        lemma_id_eq_bytes(destination, canonical);
    }
    if !id_eq(&destination, &canonical) {
        return Err(ErrorCode::WrongDestination);
    }
    if vault_balance > u64::MAX - destination_balance {
        return Err(ErrorCode::VaultFailure);
    }
    let event = ClawbackEvent { habit: habit_ref, creator: habit.creator };
    Ok(ClawbackApplied {
        vault_balance: 0,
        destination_balance: destination_balance + vault_balance,
        event,
    })
}

} // verus!
