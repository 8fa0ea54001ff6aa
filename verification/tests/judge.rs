use solhabits::account::AccountId;
use solhabits::engine::handle_cast_judgement;
use solhabits::errors::ErrorCode;
use solhabits::habit::Habit;

fn id(n: u8) -> AccountId {
    AccountId { bytes: [n; 32] }
}

fn ata(owner: &AccountId, mint: &AccountId) -> AccountId {
    let wallet = anchor_lang::prelude::Pubkey::new_from_array(owner.bytes);
    let mint_key = anchor_lang::prelude::Pubkey::new_from_array(mint.bytes);
    let derived = anchor_spl::associated_token::get_associated_token_address(&wallet, &mint_key);
    AccountId { bytes: derived.to_bytes() }
}

fn pending_habit(deadline: u64) -> Habit {
    Habit {
        creator: id(1),
        description: String::from("drink water"),
        judge: id(2),
        to_success: id(3),
        to_failure: id(4),
        deadline,
        outcome: None,
    }
}

#[test]
fn judge_before_deadline_fails_and_moves_nothing() {
    let t: u64 = 1_000;
    let mut habit = pending_habit(t + 10);
    let mint = id(5);
    let dest = ata(&id(3), &mint);
    let r = handle_cast_judgement(&mut habit, id(9), id(2), true, t + 5, mint, dest, 100, 0);
    assert!(matches!(r, Err(ErrorCode::DeadlineNotPassed)));
    assert_eq!(habit.outcome, None);
}

#[test]
fn judge_success_verdict_pays_success_destination() {
    let t: u64 = 1_000;
    let mut habit = pending_habit(t + 10);
    let mint = id(5);
    let dest = ata(&id(3), &mint);
    let r = handle_cast_judgement(&mut habit, id(9), id(2), true, t + 11, mint, dest, 100, 0);
    let a = match r {
        Ok(a) => a,
        Err(_) => panic!("judgement should succeed"),
    };
    assert_eq!(a.vault_balance, 0);
    assert_eq!(a.destination_balance, 100);
    assert_eq!(habit.outcome, Some(true));
    assert!(a.event.habit.bytes == id(9).bytes);
    assert!(a.event.creator.bytes == id(1).bytes);
    assert!(a.event.judge.bytes == id(2).bytes);
    assert!(a.event.result);
}

#[test]
fn judge_at_exact_deadline_succeeds() {
    let mut habit = pending_habit(1_010);
    let mint = id(5);
    let dest = ata(&id(3), &mint);
    let r = handle_cast_judgement(&mut habit, id(9), id(2), true, 1_010, mint, dest, 100, 0);
    assert!(r.is_ok());
    assert_eq!(habit.outcome, Some(true));
}

#[test]
fn judge_failure_verdict_pays_failure_destination() {
    let mut habit = pending_habit(1_010);
    let mint = id(5);
    let dest = ata(&id(4), &mint);
    let r = handle_cast_judgement(&mut habit, id(9), id(2), false, 1_011, mint, dest, 70, 30);
    let a = match r {
        Ok(a) => a,
        Err(_) => panic!("judgement should succeed"),
    };
    assert_eq!(a.destination_balance, 100);
    assert_eq!(habit.outcome, Some(false));
    assert!(!a.event.result);
}

#[test]
fn second_judgement_fails_and_keeps_verdict() {
    let t: u64 = 1_000;
    let mut habit = pending_habit(t + 10);
    let mint = id(5);
    let first = handle_cast_judgement(
        &mut habit,
        id(9),
        id(2),
        true,
        t + 11,
        mint,
        ata(&id(3), &mint),
        100,
        0,
    );
    assert!(first.is_ok());
    let replay = handle_cast_judgement(
        &mut habit,
        id(9),
        id(2),
        false,
        t + 20,
        mint,
        ata(&id(4), &mint),
        0,
        100,
    );
    assert!(matches!(replay, Err(ErrorCode::AlreadyJudged)));
    assert_eq!(habit.outcome, Some(true));
}

#[test]
fn judge_by_other_caller_fails_even_after_deadline() {
    let mut habit = pending_habit(1_010);
    let mint = id(5);
    let dest = ata(&id(3), &mint);
    let r = handle_cast_judgement(&mut habit, id(9), id(7), true, 2_000, mint, dest, 100, 0);
    assert!(matches!(r, Err(ErrorCode::NotAuthorized)));
    assert_eq!(habit.outcome, None);
}

#[test]
fn judge_rejects_non_canonical_destination() {
    let mut habit = pending_habit(1_010);
    let mint = id(5);
    let r = handle_cast_judgement(&mut habit, id(9), id(2), true, 1_011, mint, id(3), 100, 0);
    assert!(matches!(r, Err(ErrorCode::WrongDestination)));
    assert_eq!(habit.outcome, None);
}

#[test]
fn judge_destination_depends_on_verdict() {
    let mut habit = pending_habit(1_010);
    let mint = id(5);
    let success_dest = ata(&id(3), &mint);
    let r = handle_cast_judgement(
        &mut habit,
        id(9),
        id(2),
        false,
        1_011,
        mint,
        success_dest,
        100,
        0,
    );
    assert!(matches!(r, Err(ErrorCode::WrongDestination)));
}

#[test]
fn judge_overflowing_destination_is_vault_failure() {
    let mut habit = pending_habit(1_010);
    let mint = id(5);
    let dest = ata(&id(3), &mint);
    let r = handle_cast_judgement(
        &mut habit,
        id(9),
        id(2),
        true,
        1_011,
        mint,
        dest,
        1,
        u64::MAX,
    );
    assert!(matches!(r, Err(ErrorCode::VaultFailure)));
    assert_eq!(habit.outcome, None);
}
