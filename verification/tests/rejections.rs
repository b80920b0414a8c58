//! Every rejection leaves the record unchanged and names its exact reason.

use battle_dinghy::errors::BattleDinghyError;
use battle_dinghy::escrow::{AccountId, GameEscrow, GameStatus};

const RESERVE: u64 = 1_000;

fn new_game(buy_in: u64, max_players: u8, now: i64) -> GameEscrow {
    GameEscrow::create_game(
        b"g1".to_vec(),
        AccountId(1),
        buy_in,
        max_players,
        1,
        [7u8; 32],
        now,
        RESERVE,
    )
    .expect("creation with valid inputs must succeed")
}

#[test]
fn creation_validates_inputs() {
    let seed = [0u8; 32];
    assert_eq!(
        GameEscrow::create_game(vec![0u8; 33], AccountId(1), 100, 2, 1, seed, 0, RESERVE).err(),
        Some(BattleDinghyError::GameIdTooLong)
    );
    assert_eq!(
        GameEscrow::create_game(b"g1".to_vec(), AccountId(1), 100, 0, 1, seed, 0, RESERVE).err(),
        Some(BattleDinghyError::InvalidMaxPlayers)
    );
    assert_eq!(
        GameEscrow::create_game(b"g1".to_vec(), AccountId(1), 100, 11, 1, seed, 0, RESERVE).err(),
        Some(BattleDinghyError::InvalidMaxPlayers)
    );
    assert_eq!(
        GameEscrow::create_game(b"g1".to_vec(), AccountId(1), 0, 2, 1, seed, 0, RESERVE).err(),
        Some(BattleDinghyError::InvalidBuyIn)
    );
    assert_eq!(
        GameEscrow::create_game(b"g1".to_vec(), AccountId(1), 100, 2, 0, seed, 0, RESERVE).err(),
        Some(BattleDinghyError::InvalidFillDeadline)
    );
    // A deadline that cannot be represented is rejected up front.
    assert_eq!(
        GameEscrow::create_game(b"g1".to_vec(), AccountId(1), 100, 2, u64::MAX, seed, 0, RESERVE)
            .err(),
        Some(BattleDinghyError::InvalidFillDeadline)
    );
    // A 32-byte identifier is the longest accepted one.
    assert!(GameEscrow::create_game(vec![0u8; 32], AccountId(1), 1, 10, 1, seed, 0, RESERVE).is_ok());
}

#[test]
fn join_rejections() {
    let mut e = new_game(100, 2, 0);
    let mut b: u64 = 500;

    // The operator may not play in their own game.
    assert_eq!(
        e.join_game(AccountId(1), 10, &mut b),
        Err(BattleDinghyError::OperatorCannotPlay)
    );
    // A wallet that cannot cover the buy-in is rejected by the transfer.
    let mut poor: u64 = 99;
    assert_eq!(
        e.join_game(AccountId(2), 10, &mut poor),
        Err(BattleDinghyError::InsufficientFunds)
    );
    assert_eq!(poor, 99);
    // The same participant cannot join twice.
    assert_eq!(e.join_game(AccountId(2), 10, &mut b), Ok(()));
    assert_eq!(
        e.join_game(AccountId(2), 20, &mut b),
        Err(BattleDinghyError::AlreadyJoined)
    );
    assert_eq!(b, 400);
    assert_eq!(e.current_players, 1);
    assert_eq!(e.balance, RESERVE + 100);
}

#[test]
fn deadline_gates_joining() {
    let mut e = new_game(100, 2, 0);
    let mut b: u64 = 500;
    // The fill deadline is three thousand six hundred seconds after creation,
    // and reaching it closes the game to joining even with room left.
    assert_eq!(
        e.join_game(AccountId(2), 3600, &mut b),
        Err(BattleDinghyError::DeadlinePassed)
    );
    assert_eq!(
        e.join_game(AccountId(2), 5000, &mut b),
        Err(BattleDinghyError::DeadlinePassed)
    );
    assert_eq!(b, 500);
    assert_eq!(e.current_players, 0);
    assert_eq!(e.status, GameStatus::Open);
    // One second before the deadline the join still succeeds.
    assert_eq!(e.join_game(AccountId(2), 3599, &mut b), Ok(()));
}

#[test]
fn joining_needs_an_open_game() {
    let mut e = new_game(100, 1, 0);
    let mut b: u64 = 500;
    assert_eq!(e.join_game(AccountId(2), 10, &mut b), Ok(()));
    assert_eq!(e.status, GameStatus::Filled);
    let mut b2: u64 = 500;
    assert_eq!(
        e.join_game(AccountId(3), 20, &mut b2),
        Err(BattleDinghyError::GameNotOpen)
    );
    assert_eq!(b2, 500);
}

#[test]
fn unauthorized_start_leaves_record_unchanged() {
    let mut e = new_game(100, 1, 0);
    let mut b: u64 = 500;
    assert_eq!(e.join_game(AccountId(2), 10, &mut b), Ok(()));
    assert_eq!(
        e.start_game(AccountId(99), 20),
        Err(BattleDinghyError::UnauthorizedOperator)
    );
    assert_eq!(e.status, GameStatus::Filled);
    assert_eq!(e.started_at, None);
    assert_eq!(e.players, vec![AccountId(2)]);
    assert_eq!(e.balance, RESERVE + 100);
}

#[test]
fn start_needs_a_filled_game() {
    let mut e = new_game(100, 2, 0);
    assert_eq!(
        e.start_game(AccountId(1), 10),
        Err(BattleDinghyError::GameNotFilled)
    );
}

#[test]
fn premature_winner_declaration_is_rejected() {
    let op = AccountId(1);
    let p1 = AccountId(2);
    let mut e = new_game(100, 1, 0);
    let mut b: u64 = 100;
    assert_eq!(e.join_game(p1, 10, &mut b), Ok(()));
    assert_eq!(e.start_game(op, 100), Ok(()));

    // Ten seconds into a game with a sixty-second minimum is too early.
    let mut w: u64 = 0;
    assert_eq!(
        e.declare_winner(op, p1, [0u8; 32], 110, &mut w),
        Err(BattleDinghyError::TooEarlyForWinner)
    );
    assert_eq!(w, 0);
    assert_eq!(e.status, GameStatus::Active);
    assert_eq!(e.winner, None);
    // At exactly the minimum the declaration goes through.
    assert_eq!(e.declare_winner(op, p1, [0u8; 32], 160, &mut w), Ok(()));
}

#[test]
fn winner_must_be_a_participant() {
    let op = AccountId(1);
    let mut e = new_game(100, 1, 0);
    let mut b: u64 = 100;
    assert_eq!(e.join_game(AccountId(2), 10, &mut b), Ok(()));
    assert_eq!(e.start_game(op, 20), Ok(()));
    let mut w: u64 = 0;
    assert_eq!(
        e.declare_winner(op, AccountId(3), [0u8; 32], 1_000, &mut w),
        Err(BattleDinghyError::WinnerNotPlayer)
    );
    assert_eq!(
        e.declare_winner(AccountId(9), AccountId(2), [0u8; 32], 1_000, &mut w),
        Err(BattleDinghyError::UnauthorizedOperator)
    );
    assert_eq!(w, 0);
    assert_eq!(e.status, GameStatus::Active);
}

#[test]
fn cancel_rejections() {
    let op = AccountId(1);
    let mut e = new_game(100, 1, 0);
    assert_eq!(
        e.cancel_game(AccountId(9), 10),
        Err(BattleDinghyError::UnauthorizedOperator)
    );
    let mut b: u64 = 100;
    assert_eq!(e.join_game(AccountId(2), 10, &mut b), Ok(()));
    assert_eq!(e.start_game(op, 20), Ok(()));
    // An active game has no cancellation edge.
    assert_eq!(e.cancel_game(op, 30), Err(BattleDinghyError::CannotCancel));
    assert_eq!(e.status, GameStatus::Active);
}

#[test]
fn refund_rejections() {
    let op = AccountId(1);
    let p1 = AccountId(2);
    let mut e = new_game(100, 2, 0);
    let mut b: u64 = 500;
    assert_eq!(e.join_game(p1, 10, &mut b), Ok(()));

    // Refunds exist only after cancellation.
    assert_eq!(
        e.claim_refund(p1, &mut b),
        Err(BattleDinghyError::GameNotCancelled)
    );
    assert_eq!(e.cancel_game(op, 20), Ok(()));
    // Only participants are owed a refund.
    let mut stranger: u64 = 0;
    assert_eq!(
        e.claim_refund(AccountId(9), &mut stranger),
        Err(BattleDinghyError::PlayerNotInGame)
    );
    assert_eq!(stranger, 0);
    assert_eq!(e.claim_refund(p1, &mut b), Ok(()));
    assert_eq!(b, 500);
}

#[test]
fn halt_and_resume_rejections() {
    let op = AccountId(1);
    let mut e = new_game(100, 1, 0);
    assert_eq!(e.emergency_halt(op), Err(BattleDinghyError::GameNotActive));
    assert_eq!(e.resume_game(op), Err(BattleDinghyError::GameNotPaused));
    let mut b: u64 = 100;
    assert_eq!(e.join_game(AccountId(2), 10, &mut b), Ok(()));
    assert_eq!(e.start_game(op, 20), Ok(()));
    assert_eq!(
        e.emergency_halt(AccountId(9)),
        Err(BattleDinghyError::UnauthorizedOperator)
    );
    assert_eq!(e.emergency_halt(op), Ok(()));
    assert_eq!(
        e.resume_game(AccountId(9)),
        Err(BattleDinghyError::UnauthorizedOperator)
    );
    assert_eq!(e.status, GameStatus::Paused);
}
