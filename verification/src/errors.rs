//! Error taxonomy shared by every escrow operation.
//!
//! Each operation rejects with exactly one of these reasons and leaves the
//! record unchanged; no error is ever swallowed or mapped to another.

use vstd::prelude::*;

verus! {

/// Reason a lifecycle operation was rejected.
#[derive(Clone, Copy, PartialEq, Eq, Structural, Debug)]
pub enum BattleDinghyError {
    /// The game already holds `max_players` participants.
    GameFull,
    /// The game is not open for joining.
    GameNotOpen,
    /// The deposited amount does not match the configured buy-in.
    IncorrectBuyIn,
    /// The caller already joined this game.
    AlreadyJoined,
    /// The game has fewer participants than required.
    NotEnoughPlayers,
    /// The game has already started.
    GameAlreadyStarted,
    /// The game is not in the active state.
    GameNotActive,
    /// The caller is not the operator of this game.
    UnauthorizedOperator,
    /// The fill deadline has not been reached yet.
    DeadlineNotReached,
    /// The fill deadline has passed.
    DeadlinePassed,
    /// The minimum game time has not elapsed since the game started.
    TooEarlyForWinner,
    /// The proposed winner is not a participant of this game.
    WinnerNotPlayer,
    /// The caller is not a participant of this game.
    PlayerNotInGame,
    /// No refund is available for the caller.
    RefundNotAvailable,
    /// The game is paused.
    GamePaused,
    /// The operator may not join their own game as a participant.
    OperatorCannotPlay,
    /// The game identifier exceeds the maximum length.
    GameIdTooLong,
    /// The player cap is zero or above the supported maximum.
    InvalidMaxPlayers,
    /// The buy-in must be a positive amount.
    InvalidBuyIn,
    /// The fill deadline is zero hours away or not representable.
    InvalidFillDeadline,
    /// The caller's refund was already paid out.
    AlreadyRefunded,
    /// The game is not cancelled, so refunds are not claimable.
    GameNotCancelled,
    /// The game cannot be cancelled in its current state.
    CannotCancel,
    /// The game is not paused.
    GameNotPaused,
    /// The game is not filled.
    GameNotFilled,
    /// The payer's balance does not cover the amount to transfer.
    InsufficientFunds,
}

} // verus!
