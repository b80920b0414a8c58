//! Cross-operation guarantees of the escrow state machine.
//!
//! Each lifecycle operation already carries its own exact contract; the proof
//! functions here state the guarantees that only emerge from several of those
//! contracts together: terminal states stay terminal, funds are conserved
//! over every history, a refund is paid at most once, and the fill deadline
//! gates joining unconditionally.
//!
//! Invariant preservation itself needs no separate statement: `create_game`
//! establishes `GameEscrow::well_formed` and every operation requires and
//! re-establishes it, so it holds after each step of every operation
//! sequence.

use vstd::prelude::*;

verus! {

use crate::counting::{
    count_true, lemma_count_true_all_false, lemma_count_true_all_true, lemma_count_true_bounds,
};
use crate::errors::BattleDinghyError;
use crate::escrow::{
    cancel_outcome, claim_refund_outcome, declare_winner_outcome, halt_outcome, join_outcome,
    player_index, resume_outcome, start_outcome, AccountId, GameEscrow, GameStatus,
};

/// A well-formed record never holds less than its reserve in custody: the
/// reserve is never distributed.
pub proof fn lemma_reserve_kept(e: GameEscrow)
    requires
        e.well_formed(),
    ensures
        e.balance >= e.reserve,
{
    if e.status == GameStatus::Complete {
        lemma_count_true_all_false(e.refunded@);
        assert((e.buy_in as int) * 0 == 0) by (nonlinear_arith);
    } else {
        lemma_count_true_bounds(e.refunded@);
        assert((e.buy_in as int) * count_true(e.refunded@) <= (e.buy_in as int) * (
        e.refunded@.len() as int)) by (nonlinear_arith)
            requires
                e.buy_in as int >= 0,
                count_true(e.refunded@) <= e.refunded@.len() as int,
        ;
    }
}

/// Conservation of funds: once a record can take in no further deposit and
/// owes no further payment — it is complete, or cancelled with every refund
/// claimed — everything participants ever deposited has gone out again,
/// either to the winner or as refunds, and custody is down to the bare
/// reserve.
pub proof fn lemma_conservation_of_funds(e: GameEscrow)
    requires
        e.well_formed(),
        e.is_terminal(),
        e.status == GameStatus::Cancelled ==> forall|i: int|
            0 <= i < e.refunded@.len() ==> e.refunded@[i],
    ensures
        e.total_deposited@ == e.total_paid_out@ + e.total_refunded@,
        e.balance == e.reserve,
{
    if e.status == GameStatus::Complete {
        lemma_count_true_all_false(e.refunded@);
        assert((e.buy_in as int) * 0 == 0) by (nonlinear_arith);
    } else {
        lemma_count_true_all_true(e.refunded@);
    }
}

/// Settlement happens at most once: a completed record rejects every further
/// operation, and in particular a second `declare_winner` always fails with
/// `GameNotActive`, whoever calls it and whenever.
pub proof fn lemma_settlement_at_most_once(
    e: GameEscrow,
    caller: AccountId,
    winner: AccountId,
    now: i64,
    player_balance: u64,
)
    requires
        e.status == GameStatus::Complete,
    ensures
        declare_winner_outcome(e, caller, winner, now) == Err::<(), BattleDinghyError>(
            BattleDinghyError::GameNotActive,
        ),
        join_outcome(e, caller, now, player_balance) == Err::<(), BattleDinghyError>(
            BattleDinghyError::GameNotOpen,
        ),
        start_outcome(e, caller) == Err::<(), BattleDinghyError>(BattleDinghyError::GameNotFilled),
        cancel_outcome(e, caller, now) == Err::<(), BattleDinghyError>(
            if caller != e.operator {
                BattleDinghyError::UnauthorizedOperator
            } else {
                BattleDinghyError::CannotCancel
            },
        ),
        halt_outcome(e, caller) == Err::<(), BattleDinghyError>(BattleDinghyError::GameNotActive),
        resume_outcome(e, caller) == Err::<(), BattleDinghyError>(BattleDinghyError::GameNotPaused),
        claim_refund_outcome(e, caller) == Err::<(), BattleDinghyError>(
            BattleDinghyError::GameNotCancelled,
        ),
{
}

/// A cancelled record accepts refund claims and nothing else: every other
/// operation is rejected, so cancellation is terminal too.
pub proof fn lemma_cancelled_accepts_only_refunds(
    e: GameEscrow,
    caller: AccountId,
    winner: AccountId,
    now: i64,
    player_balance: u64,
)
    requires
        e.status == GameStatus::Cancelled,
    ensures
        join_outcome(e, caller, now, player_balance) == Err::<(), BattleDinghyError>(
            BattleDinghyError::GameNotOpen,
        ),
        start_outcome(e, caller) == Err::<(), BattleDinghyError>(BattleDinghyError::GameNotFilled),
        declare_winner_outcome(e, caller, winner, now) == Err::<(), BattleDinghyError>(
            BattleDinghyError::GameNotActive,
        ),
        cancel_outcome(e, caller, now) == Err::<(), BattleDinghyError>(
            if caller != e.operator {
                BattleDinghyError::UnauthorizedOperator
            } else {
                BattleDinghyError::CannotCancel
            },
        ),
        halt_outcome(e, caller) == Err::<(), BattleDinghyError>(BattleDinghyError::GameNotActive),
        resume_outcome(e, caller) == Err::<(), BattleDinghyError>(BattleDinghyError::GameNotPaused),
{
}

/// A refund is paid at most once: as soon as a participant's refund is
/// recorded — which `claim_refund` does in the very step that pays it — any
/// further claim by that participant is rejected with `AlreadyRefunded`.
pub proof fn lemma_refund_at_most_once(e: GameEscrow, player: AccountId, i: int)
    requires
        e.well_formed(),
        e.status == GameStatus::Cancelled,
        0 <= i < e.players@.len(),
        e.players@[i] == player,
        e.refunded@[i],
    ensures
        claim_refund_outcome(e, player) == Err::<(), BattleDinghyError>(
            BattleDinghyError::AlreadyRefunded,
        ),
{
    assert(e.players@.contains(player));
    let j = player_index(e.players@, player);
    assert(0 <= j < e.players@.len() && e.players@[j] == player);
    if i < j {
        assert(e.players@[i] != e.players@[j]);
    } else if j < i {
        assert(e.players@[j] != e.players@[i]);
    }
}

/// The fill deadline gates joining unconditionally: once the clock reaches
/// it, every join of an open game is rejected with `DeadlinePassed`, whoever
/// asks and however much room or money remains.
pub proof fn lemma_deadline_gates_joining(
    e: GameEscrow,
    player: AccountId,
    now: i64,
    player_balance: u64,
)
    requires
        e.well_formed(),
        e.status == GameStatus::Open,
        now >= e.fill_deadline,
    ensures
        join_outcome(e, player, now, player_balance) == Err::<(), BattleDinghyError>(
            BattleDinghyError::DeadlinePassed,
        ),
{
}

} // verus!
