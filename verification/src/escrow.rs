//! The escrow record and its lifecycle operations.
//!
//! A `GameEscrow` value is one game instance together with the custodied
//! balance of the account backing it. The lifecycle runs
//! `Open -> Filled -> Active -> Complete`, with cancellation edges from
//! `Open`, from `Filled` once the fill deadline has passed, and from
//! `Paused`, and with `Active <-> Paused` as an operator circuit breaker.
//!
//! Each operation takes the authenticated caller identity, a trusted clock
//! reading where time matters, and mutable views of the wallet balances it
//! moves funds between. The exact accept/reject decision of every operation
//! is written out as a spec-level outcome function, and each operation's
//! contract states that it returns precisely that outcome, mutates the record
//! precisely as described on acceptance, and changes nothing on rejection.

use vstd::prelude::*;

verus! {

use crate::counting::{
    count_true, lemma_count_true_all_false, lemma_count_true_below_len, lemma_count_true_bounds,
    lemma_count_true_push, lemma_count_true_set,
};
use crate::errors::BattleDinghyError;

/// Longest accepted game identifier, in bytes.
pub const MAX_GAME_ID_LEN: usize = 32;

/// Largest supported player cap.
pub const MAX_PLAYERS: usize = 10;

/// Seconds that must elapse after a game starts before a winner may be
/// declared.
pub const MINIMUM_GAME_TIME: i64 = 60;

/// An authenticated account identity.
///
/// The hosting platform verifies signatures before an operation runs, so the
/// core only ever compares identities for equality; an identity is therefore
/// modelled as an opaque numeric token.
#[derive(Clone, Copy, PartialEq, Eq, Structural, Debug)]
pub struct AccountId(pub u64);

/// Lifecycle state of one escrow record.
#[derive(Clone, Copy, PartialEq, Eq, Structural, Debug)]
pub enum GameStatus {
    Open,
    Filled,
    Active,
    Complete,
    Cancelled,
    Paused,
}

impl Default for GameStatus {
    fn default() -> (r: Self)
        ensures
            r == GameStatus::Open,
    {
        GameStatus::Open
    }
}

/// One game instance: its configuration, lifecycle state, participant roster
/// and the custodied balance of the account backing it.
///
/// The `total_*` ghost fields accumulate every amount that ever moved in or
/// out of custody for this record; they carry no runtime cost and exist so
/// that conservation of funds can be stated and proved.
pub struct GameEscrow {
    /// Lookup key chosen at creation; at most `MAX_GAME_ID_LEN` bytes.
    pub game_id: Vec<u8>,
    /// Identity of the creator; authorizes lifecycle transitions.
    pub operator: AccountId,
    /// Current lifecycle state.
    pub status: GameStatus,
    /// Fixed price of entry, positive.
    pub buy_in: u64,
    /// Player cap, between 1 and `MAX_PLAYERS`.
    pub max_players: u8,
    /// Number of joined participants, always `players.len()`.
    pub current_players: u8,
    /// Joined participants in join order, without duplicates.
    pub players: Vec<AccountId>,
    /// Externally verifiable randomness commitment; opaque to the core.
    pub seed: [u8; 32],
    /// Declared winner, set exactly once on completion.
    pub winner: Option<AccountId>,
    /// Externally verifiable outcome commitment, set alongside the winner.
    pub proof_hash: Option<[u8; 32]>,
    /// Clock reading at creation.
    pub created_at: i64,
    /// Instant after which joining is rejected; fixed at creation.
    pub fill_deadline: i64,
    /// Clock reading at the transition to `Active`, set exactly once.
    pub started_at: Option<i64>,
    /// Per-participant refund completion, index-aligned with `players`.
    pub refunded: Vec<bool>,
    /// Custodied balance of the backing account, reserve included.
    pub balance: u64,
    /// Platform-mandated minimum balance that is never distributed.
    pub reserve: u64,
    /// Total amount participants ever deposited into custody.
    pub total_deposited: Ghost<int>,
    /// Total amount ever paid out to a declared winner.
    pub total_paid_out: Ghost<int>,
    /// Total amount ever returned to participants as refunds.
    pub total_refunded: Ghost<int>,
}

impl GameEscrow {
    /// The record invariant: every operation requires it of the record it is
    /// given and re-establishes it on the record it leaves behind.
    pub open spec fn well_formed(self) -> bool {
        &&& self.game_id@.len() <= MAX_GAME_ID_LEN
        &&& self.buy_in > 0
        &&& 0 < self.max_players as int <= MAX_PLAYERS as int
        &&& self.current_players as int == self.players@.len()
        &&& self.refunded@.len() == self.players@.len()
        &&& self.players@.len() <= self.max_players as int
        &&& (forall|i: int, j: int|
            0 <= i < j < self.players@.len() ==> self.players@[i] != self.players@[j])
        &&& (forall|i: int| 0 <= i < self.players@.len() ==> self.players@[i] != self.operator)
        &&& self.created_at < self.fill_deadline
        &&& (self.status == GameStatus::Open ==> self.players@.len() < self.max_players as int)
        &&& (self.status == GameStatus::Filled || self.status == GameStatus::Active
            || self.status == GameStatus::Paused || self.status == GameStatus::Complete
            ==> self.players@.len() == self.max_players as int)
        &&& (self.winner is Some ==> self.status == GameStatus::Complete)
        &&& (self.status == GameStatus::Complete ==> self.winner is Some
            && self.players@.contains(self.winner->0))
        &&& (self.proof_hash is Some <==> self.status == GameStatus::Complete)
        &&& (self.status == GameStatus::Active || self.status == GameStatus::Paused
            || self.status == GameStatus::Complete ==> self.started_at is Some)
        &&& (self.status == GameStatus::Open || self.status == GameStatus::Filled
            ==> self.started_at is None)
        &&& (forall|i: int|
            0 <= i < self.refunded@.len() && self.refunded@[i]
                ==> self.status == GameStatus::Cancelled)
        &&& self.total_deposited@ == (self.buy_in as int) * (self.players@.len() as int)
        &&& self.total_refunded@ == (self.buy_in as int) * count_true(self.refunded@)
        &&& (self.status == GameStatus::Complete ==> self.total_paid_out@ == self.total_deposited@)
        &&& (self.status != GameStatus::Complete ==> self.total_paid_out@ == 0)
        &&& self.balance as int == self.reserve as int + self.total_deposited@
            - self.total_paid_out@ - self.total_refunded@
    }

    /// A record in a state that accepts no further operation except, after
    /// cancellation, the refund claims still owed.
    pub open spec fn is_terminal(self) -> bool {
        self.status == GameStatus::Complete || self.status == GameStatus::Cancelled
    }
}

/// The fields fixed at creation read the same in `b` as in `a`: no operation
/// ever rewrites the record's configuration.
pub open spec fn same_config(a: GameEscrow, b: GameEscrow) -> bool {
    &&& b.game_id@ == a.game_id@
    &&& b.operator == a.operator
    &&& b.buy_in == a.buy_in
    &&& b.max_players == a.max_players
    &&& b.seed == a.seed
    &&& b.created_at == a.created_at
    &&& b.fill_deadline == a.fill_deadline
    &&& b.reserve == a.reserve
}

/// Index of `p` in `players`; meaningful only when `players` contains `p`,
/// and unique when `players` has no duplicates.
pub open spec fn player_index(players: Seq<AccountId>, p: AccountId) -> int {
    choose|i: int| 0 <= i < players.len() && players[i] == p
}

/// Whether the joined roster holds `p`.
fn roster_contains(players: &Vec<AccountId>, p: AccountId) -> (r: bool)
    ensures
        r == players@.contains(p),
{
    let n = players.len();
    let mut i: usize = 0;
    while i < n
        invariant
            n == players@.len(),
            i <= n,
            forall|k: int| 0 <= k < i ==> players@[k] != p,
        decreases n - i,
    {
        if players[i] == p {
            assert(players@.contains(p));
            return true;
        }
        i = i + 1;
    }
    false
}

/// Position of `p` in the joined roster, if present.
fn roster_index_of(players: &Vec<AccountId>, p: AccountId) -> (r: Option<usize>)
    ensures
        match r {
            Some(i) => i < players@.len() && players@[i as int] == p,
            None => !players@.contains(p),
        },
{
    let n = players.len();
    let mut i: usize = 0;
    while i < n
        invariant
            n == players@.len(),
            i <= n,
            forall|k: int| 0 <= k < i ==> players@[k] != p,
        decreases n - i,
    {
        if players[i] == p {
            return Some(i);
        }
        i = i + 1;
    }
    None
}

/// Decision of `GameEscrow::create_game`, as a function of the validated
/// inputs: the exact reason a creation request is rejected, or acceptance.
pub open spec fn create_outcome(
    game_id: Seq<u8>,
    buy_in: u64,
    max_players: u8,
    fill_deadline_hours: u64,
    now: i64,
) -> Result<(), BattleDinghyError> {
    if game_id.len() > MAX_GAME_ID_LEN as int {
        Err(BattleDinghyError::GameIdTooLong)
    } else if max_players == 0 || max_players as int > MAX_PLAYERS as int {
        Err(BattleDinghyError::InvalidMaxPlayers)
    } else if buy_in == 0 {
        Err(BattleDinghyError::InvalidBuyIn)
    } else if fill_deadline_hours == 0 {
        Err(BattleDinghyError::InvalidFillDeadline)
    } else if now as int + (fill_deadline_hours as int) * 3600 > i64::MAX as int {
        Err(BattleDinghyError::InvalidFillDeadline)
    } else {
        Ok(())
    }
}

impl GameEscrow {
    /// Allocate a fresh escrow record in the `Open` state.
    ///
    /// `now` is the trusted clock reading at creation and `reserve` is the
    /// platform-mandated minimum balance the backing account is created with;
    /// no participant funds move here. The platform's addressing scheme is
    /// relied on to ensure at most one record exists per `game_id`.
    pub fn create_game(
        game_id: Vec<u8>,
        operator: AccountId,
        buy_in: u64,
        max_players: u8,
        fill_deadline_hours: u64,
        seed: [u8; 32],
        now: i64,
        reserve: u64,
    ) -> (r: Result<GameEscrow, BattleDinghyError>)
        ensures
            match r {
                Ok(e) => {
                    &&& create_outcome(game_id@, buy_in, max_players, fill_deadline_hours, now)
                        == Ok::<(), BattleDinghyError>(())
                    &&& e.well_formed()
                    &&& e.game_id@ == game_id@
                    &&& e.operator == operator
                    &&& e.status == GameStatus::Open
                    &&& e.buy_in == buy_in
                    &&& e.max_players == max_players
                    &&& e.current_players == 0
                    &&& e.players@ == Seq::<AccountId>::empty()
                    &&& e.seed == seed
                    &&& e.winner is None
                    &&& e.proof_hash is None
                    &&& e.created_at == now
                    &&& e.fill_deadline as int == now as int + (fill_deadline_hours as int) * 3600
                    &&& e.started_at is None
                    &&& e.refunded@ == Seq::<bool>::empty()
                    &&& e.balance == reserve
                    &&& e.reserve == reserve
                    &&& e.total_deposited@ == 0
                    &&& e.total_paid_out@ == 0
                    &&& e.total_refunded@ == 0
                },
                Err(err) => Err::<(), BattleDinghyError>(err)
                    == create_outcome(game_id@, buy_in, max_players, fill_deadline_hours, now),
            },
    {
        if game_id.len() > MAX_GAME_ID_LEN {
            return Err(BattleDinghyError::GameIdTooLong);
        }
        if max_players == 0 || max_players as usize > MAX_PLAYERS {
            return Err(BattleDinghyError::InvalidMaxPlayers);
        }
        if buy_in == 0 {
            return Err(BattleDinghyError::InvalidBuyIn);
        }
        if fill_deadline_hours == 0 {
            return Err(BattleDinghyError::InvalidFillDeadline);
        }
        let deadline_wide: i128 = now as i128 + (fill_deadline_hours as i128) * 3600;
        if deadline_wide > i64::MAX as i128 {
            return Err(BattleDinghyError::InvalidFillDeadline);
        }
        let fill_deadline: i64 = deadline_wide as i64;
        Ok(GameEscrow {
            game_id,
            operator,
            status: GameStatus::Open,
            buy_in,
            max_players,
            current_players: 0,
            players: Vec::new(),
            seed,
            winner: None,
            proof_hash: None,
            created_at: now,
            fill_deadline,
            started_at: None,
            refunded: Vec::new(),
            balance: reserve,
            reserve,
            total_deposited: Ghost(0int),
            total_paid_out: Ghost(0int),
            total_refunded: Ghost(0int),
        })
    }

    /// Admit `player` into the game, taking the buy-in into custody.
    ///
    /// `now` is the trusted clock reading for this operation and
    /// `player_balance` is the caller's wallet balance. On acceptance the
    /// buy-in moves atomically from the wallet into custody and the player is
    /// appended to the roster; a game that just reached its cap becomes
    /// `Filled`. On rejection nothing changes.
    pub fn join_game(&mut self, player: AccountId, now: i64, player_balance: &mut u64) -> (r:
        Result<(), BattleDinghyError>)
        requires
            old(self).well_formed(),
            old(self).balance as int + old(self).buy_in as int <= u64::MAX as int,
        ensures
            final(self).well_formed(),
            same_config(*old(self), *final(self)),
            r == join_outcome(*old(self), player, now, *old(player_balance)),
            r is Err ==> *final(self) == *old(self) && *final(player_balance) == *old(
                player_balance,
            ),
            r is Ok ==> ({
                &&& *final(player_balance) == *old(player_balance) - old(self).buy_in
                &&& final(self).balance == old(self).balance + old(self).buy_in
                &&& final(self).players@ == old(self).players@.push(player)
                &&& final(self).refunded@ == old(self).refunded@.push(false)
                &&& final(self).current_players == old(self).current_players + 1
                &&& final(self).status == (if old(self).players@.len() + 1 == old(
                    self,
                ).max_players as int {
                    GameStatus::Filled
                } else {
                    GameStatus::Open
                })
                &&& final(self).winner == old(self).winner
                &&& final(self).proof_hash == old(self).proof_hash
                &&& final(self).started_at == old(self).started_at
                &&& final(self).total_deposited@ == old(self).total_deposited@ + old(
                    self,
                ).buy_in as int
                &&& final(self).total_paid_out@ == old(self).total_paid_out@
                &&& final(self).total_refunded@ == old(self).total_refunded@
            }),
    {
        if self.status != GameStatus::Open {
            return Err(BattleDinghyError::GameNotOpen);
        }
        if self.current_players >= self.max_players {
            return Err(BattleDinghyError::GameFull);
        }
        if now >= self.fill_deadline {
            return Err(BattleDinghyError::DeadlinePassed);
        }
        if player == self.operator {
            return Err(BattleDinghyError::OperatorCannotPlay);
        }
        if roster_contains(&self.players, player) {
            return Err(BattleDinghyError::AlreadyJoined);
        }
        if *player_balance < self.buy_in {
            return Err(BattleDinghyError::InsufficientFunds);
        }
        // The whole buy-in moves from the wallet into custody, or nothing does.
        *player_balance = *player_balance - self.buy_in;
        self.balance = self.balance + self.buy_in;
        self.players.push(player);
        self.refunded.push(false);
        self.current_players = self.current_players + 1;
        self.total_deposited = Ghost(self.total_deposited@ + self.buy_in as int);
        if self.current_players == self.max_players {
            self.status = GameStatus::Filled;
        }
        proof {
            lemma_count_true_push(old(self).refunded@, false);
            let b = old(self).buy_in as int;
            let n = old(self).players@.len() as int;
            assert(b * n + b == b * (n + 1)) by (nonlinear_arith);
        }
        Ok(())
    }

    /// Move a filled game into play.
    ///
    /// Only the operator may start a game, and only once the roster is full;
    /// the trusted clock reading `now` is recorded as the start time.
    pub fn start_game(&mut self, caller: AccountId, now: i64) -> (r: Result<
        (),
        BattleDinghyError,
    >)
        requires
            old(self).well_formed(),
        ensures
            final(self).well_formed(),
            same_config(*old(self), *final(self)),
            r == start_outcome(*old(self), caller),
            r is Err ==> *final(self) == *old(self),
            r is Ok ==> ({
                &&& final(self).status == GameStatus::Active
                &&& final(self).started_at == Some(now)
                &&& final(self).players@ == old(self).players@
                &&& final(self).refunded@ == old(self).refunded@
                &&& final(self).current_players == old(self).current_players
                &&& final(self).winner == old(self).winner
                &&& final(self).proof_hash == old(self).proof_hash
                &&& final(self).balance == old(self).balance
                &&& final(self).total_deposited@ == old(self).total_deposited@
                &&& final(self).total_paid_out@ == old(self).total_paid_out@
                &&& final(self).total_refunded@ == old(self).total_refunded@
            }),
    {
        if self.status != GameStatus::Filled {
            return Err(BattleDinghyError::GameNotFilled);
        }
        if caller != self.operator {
            return Err(BattleDinghyError::UnauthorizedOperator);
        }
        self.status = GameStatus::Active;
        self.started_at = Some(now);
        Ok(())
    }

    /// Cancel a game so that participants can reclaim their buy-ins.
    ///
    /// Only the operator may cancel, and only while the game is `Open` or
    /// `Paused`, or once it is `Filled` and the fill deadline has passed. No
    /// funds move here: refunds are claimed individually afterwards, so one
    /// unreachable participant can never block the others.
    pub fn cancel_game(&mut self, caller: AccountId, now: i64) -> (r: Result<
        (),
        BattleDinghyError,
    >)
        requires
            old(self).well_formed(),
        ensures
            final(self).well_formed(),
            same_config(*old(self), *final(self)),
            r == cancel_outcome(*old(self), caller, now),
            r is Err ==> *final(self) == *old(self),
            r is Ok ==> ({
                &&& final(self).status == GameStatus::Cancelled
                &&& final(self).players@ == old(self).players@
                &&& final(self).refunded@ == old(self).refunded@
                &&& final(self).current_players == old(self).current_players
                &&& final(self).winner == old(self).winner
                &&& final(self).proof_hash == old(self).proof_hash
                &&& final(self).started_at == old(self).started_at
                &&& final(self).balance == old(self).balance
                &&& final(self).total_deposited@ == old(self).total_deposited@
                &&& final(self).total_paid_out@ == old(self).total_paid_out@
                &&& final(self).total_refunded@ == old(self).total_refunded@
            }),
    {
        if caller != self.operator {
            return Err(BattleDinghyError::UnauthorizedOperator);
        }
        let can_cancel = match self.status {
            GameStatus::Open => true,
            GameStatus::Filled => now > self.fill_deadline,
            GameStatus::Paused => true,
            _ => false,
        };
        if !can_cancel {
            return Err(BattleDinghyError::CannotCancel);
        }
        self.status = GameStatus::Cancelled;
        Ok(())
    }

    /// Pause an active game: the operator's circuit breaker for dispute or
    /// incident handling. A paused game can be resumed or cancelled, but no
    /// winner can be declared for it.
    pub fn emergency_halt(&mut self, caller: AccountId) -> (r: Result<(), BattleDinghyError>)
        requires
            old(self).well_formed(),
        ensures
            final(self).well_formed(),
            same_config(*old(self), *final(self)),
            r == halt_outcome(*old(self), caller),
            r is Err ==> *final(self) == *old(self),
            r is Ok ==> ({
                &&& final(self).status == GameStatus::Paused
                &&& final(self).players@ == old(self).players@
                &&& final(self).refunded@ == old(self).refunded@
                &&& final(self).current_players == old(self).current_players
                &&& final(self).winner == old(self).winner
                &&& final(self).proof_hash == old(self).proof_hash
                &&& final(self).started_at == old(self).started_at
                &&& final(self).balance == old(self).balance
                &&& final(self).total_deposited@ == old(self).total_deposited@
                &&& final(self).total_paid_out@ == old(self).total_paid_out@
                &&& final(self).total_refunded@ == old(self).total_refunded@
            }),
    {
        if self.status != GameStatus::Active {
            return Err(BattleDinghyError::GameNotActive);
        }
        if caller != self.operator {
            return Err(BattleDinghyError::UnauthorizedOperator);
        }
        self.status = GameStatus::Paused;
        Ok(())
    }

    /// Settle an active game: record the winner and pay out the pool.
    ///
    /// Only the operator may settle, the winner must be a participant, and at
    /// least `MINIMUM_GAME_TIME` seconds must have passed since the game
    /// started. On acceptance everything in custody above the reserve moves
    /// atomically to the winner's wallet `winner_balance`, the winner and the
    /// outcome commitment `proof_hash` are recorded, and the record becomes
    /// `Complete` for good. The commitment is stored for auditors, not
    /// interpreted here.
    pub fn declare_winner(
        &mut self,
        caller: AccountId,
        winner: AccountId,
        proof_hash: [u8; 32],
        now: i64,
        winner_balance: &mut u64,
    ) -> (r: Result<(), BattleDinghyError>)
        requires
            old(self).well_formed(),
            *old(winner_balance) as int + old(self).balance as int <= u64::MAX as int,
        ensures
            final(self).well_formed(),
            same_config(*old(self), *final(self)),
            r == declare_winner_outcome(*old(self), caller, winner, now),
            r is Err ==> *final(self) == *old(self) && *final(winner_balance) == *old(
                winner_balance,
            ),
            r is Ok ==> ({
                &&& final(self).status == GameStatus::Complete
                &&& final(self).winner == Some(winner)
                &&& final(self).proof_hash == Some(proof_hash)
                &&& old(self).balance >= old(self).reserve
                &&& final(self).balance == old(self).reserve
                &&& *final(winner_balance) == *old(winner_balance) + (old(self).balance - old(
                    self,
                ).reserve)
                &&& final(self).players@ == old(self).players@
                &&& final(self).refunded@ == old(self).refunded@
                &&& final(self).current_players == old(self).current_players
                &&& final(self).started_at == old(self).started_at
                &&& final(self).total_deposited@ == old(self).total_deposited@
                &&& final(self).total_paid_out@ == old(self).total_paid_out@ + (old(
                    self,
                ).balance as int - old(self).reserve as int)
                &&& final(self).total_refunded@ == old(self).total_refunded@
            }),
    {
        if self.status != GameStatus::Active {
            return Err(BattleDinghyError::GameNotActive);
        }
        if caller != self.operator {
            return Err(BattleDinghyError::UnauthorizedOperator);
        }
        if !roster_contains(&self.players, winner) {
            return Err(BattleDinghyError::WinnerNotPlayer);
        }
        if let Some(started_at) = self.started_at {
            // Widened arithmetic: the sum of two 64-bit values always fits.
            if (now as i128) < started_at as i128 + MINIMUM_GAME_TIME as i128 {
                return Err(BattleDinghyError::TooEarlyForWinner);
            }
        }
        proof {
            // An active game has taken no refunds, so custody covers the
            // reserve and the payout is exactly the deposited pool.
            lemma_count_true_all_false(self.refunded@);
            let b = self.buy_in as int;
            let n = self.players@.len() as int;
            assert(b * 0 == 0 && b * n >= 0) by (nonlinear_arith)
                requires
                    b > 0,
                    n >= 0,
            ;
        }
        // Everything above the reserve moves to the winner, saturating at
        // zero so the reserve itself is never distributed.
        let payout = if self.balance >= self.reserve {
            self.balance - self.reserve
        } else {
            0
        };
        if payout > 0 {
            self.balance = self.balance - payout;
            *winner_balance = *winner_balance + payout;
        }
        self.winner = Some(winner);
        self.proof_hash = Some(proof_hash);
        self.status = GameStatus::Complete;
        self.total_paid_out = Ghost(self.total_paid_out@ + payout as int);
        Ok(())
    }

    /// Return one participant's buy-in from a cancelled game.
    ///
    /// The caller must be a participant whose refund has not been paid yet.
    /// On acceptance the buy-in moves atomically from custody back to the
    /// caller's wallet `player_balance` and the caller's refund is recorded,
    /// so a repeated claim is rejected rather than paid twice.
    pub fn claim_refund(&mut self, player: AccountId, player_balance: &mut u64) -> (r: Result<
        (),
        BattleDinghyError,
    >)
        requires
            old(self).well_formed(),
            *old(player_balance) as int + old(self).buy_in as int <= u64::MAX as int,
        ensures
            final(self).well_formed(),
            same_config(*old(self), *final(self)),
            r == claim_refund_outcome(*old(self), player),
            r is Err ==> *final(self) == *old(self) && *final(player_balance) == *old(
                player_balance,
            ),
            r is Ok ==> ({
                &&& final(self).status == GameStatus::Cancelled
                &&& *final(player_balance) == *old(player_balance) + old(self).buy_in
                &&& final(self).balance == old(self).balance - old(self).buy_in
                &&& final(self).players@ == old(self).players@
                &&& final(self).refunded@ == old(self).refunded@.update(
                    player_index(old(self).players@, player),
                    true,
                )
                &&& final(self).current_players == old(self).current_players
                &&& final(self).winner == old(self).winner
                &&& final(self).proof_hash == old(self).proof_hash
                &&& final(self).started_at == old(self).started_at
                &&& final(self).total_deposited@ == old(self).total_deposited@
                &&& final(self).total_paid_out@ == old(self).total_paid_out@
                &&& final(self).total_refunded@ == old(self).total_refunded@ + old(
                    self,
                ).buy_in as int
            }),
    {
        if self.status != GameStatus::Cancelled {
            return Err(BattleDinghyError::GameNotCancelled);
        }
        let index = match roster_index_of(&self.players, player) {
            Some(i) => i,
            None => {
                return Err(BattleDinghyError::PlayerNotInGame);
            },
        };
        proof {
            // The roster has no duplicates, so the found position is the
            // position the contract speaks of.
            let j = player_index(self.players@, player);
            assert(self.players@.contains(player));
            assert(0 <= j < self.players@.len() && self.players@[j] == player);
            assert(j == index as int);
        }
        if self.refunded[index] {
            return Err(BattleDinghyError::AlreadyRefunded);
        }
        proof {
            // An unpaid participant remains in the count, so custody still
            // covers this refund.
            lemma_count_true_below_len(self.refunded@, index as int);
            lemma_count_true_bounds(self.refunded@);
            let b = self.buy_in as int;
            let n = self.players@.len() as int;
            let c = count_true(self.refunded@);
            assert(b * n - b * c >= b && b * c + b == b * (c + 1)) by (nonlinear_arith)
                requires
                    b > 0,
                    0 <= c < n,
            ;
            lemma_count_true_set(self.refunded@, index as int);
        }
        // The whole refund moves from custody to the wallet, or nothing does.
        self.balance = self.balance - self.buy_in;
        *player_balance = *player_balance + self.buy_in;
        self.refunded[index] = true;
        self.total_refunded = Ghost(self.total_refunded@ + self.buy_in as int);
        Ok(())
    }

    /// Resume a paused game, reopening it for winner declaration.
    pub fn resume_game(&mut self, caller: AccountId) -> (r: Result<(), BattleDinghyError>)
        requires
            old(self).well_formed(),
        ensures
            final(self).well_formed(),
            same_config(*old(self), *final(self)),
            r == resume_outcome(*old(self), caller),
            r is Err ==> *final(self) == *old(self),
            r is Ok ==> ({
                &&& final(self).status == GameStatus::Active
                &&& final(self).players@ == old(self).players@
                &&& final(self).refunded@ == old(self).refunded@
                &&& final(self).current_players == old(self).current_players
                &&& final(self).winner == old(self).winner
                &&& final(self).proof_hash == old(self).proof_hash
                &&& final(self).started_at == old(self).started_at
                &&& final(self).balance == old(self).balance
                &&& final(self).total_deposited@ == old(self).total_deposited@
                &&& final(self).total_paid_out@ == old(self).total_paid_out@
                &&& final(self).total_refunded@ == old(self).total_refunded@
            }),
    {
        if self.status != GameStatus::Paused {
            return Err(BattleDinghyError::GameNotPaused);
        }
        if caller != self.operator {
            return Err(BattleDinghyError::UnauthorizedOperator);
        }
        self.status = GameStatus::Active;
        Ok(())
    }
}

/// Decision of `GameEscrow::join_game`: the exact reason a join is rejected,
/// or acceptance. The checks run in this order, so the first failing one
/// names the error.
pub open spec fn join_outcome(
    e: GameEscrow,
    player: AccountId,
    now: i64,
    player_balance: u64,
) -> Result<(), BattleDinghyError> {
    if e.status != GameStatus::Open {
        Err(BattleDinghyError::GameNotOpen)
    } else if e.current_players as int >= e.max_players as int {
        Err(BattleDinghyError::GameFull)
    } else if now >= e.fill_deadline {
        Err(BattleDinghyError::DeadlinePassed)
    } else if player == e.operator {
        Err(BattleDinghyError::OperatorCannotPlay)
    } else if e.players@.contains(player) {
        Err(BattleDinghyError::AlreadyJoined)
    } else if player_balance < e.buy_in {
        Err(BattleDinghyError::InsufficientFunds)
    } else {
        Ok(())
    }
}

/// Decision of `GameEscrow::start_game`.
pub open spec fn start_outcome(e: GameEscrow, caller: AccountId) -> Result<
    (),
    BattleDinghyError,
> {
    if e.status != GameStatus::Filled {
        Err(BattleDinghyError::GameNotFilled)
    } else if caller != e.operator {
        Err(BattleDinghyError::UnauthorizedOperator)
    } else {
        Ok(())
    }
}

/// Decision of `GameEscrow::cancel_game`: cancellation is allowed from
/// `Open` and `Paused` unconditionally, and from `Filled` only once the fill
/// deadline has passed.
pub open spec fn cancel_outcome(e: GameEscrow, caller: AccountId, now: i64) -> Result<
    (),
    BattleDinghyError,
> {
    if caller != e.operator {
        Err(BattleDinghyError::UnauthorizedOperator)
    } else if !(e.status == GameStatus::Open || e.status == GameStatus::Paused || (e.status
        == GameStatus::Filled && now > e.fill_deadline)) {
        Err(BattleDinghyError::CannotCancel)
    } else {
        Ok(())
    }
}

/// Decision of `GameEscrow::emergency_halt`.
pub open spec fn halt_outcome(e: GameEscrow, caller: AccountId) -> Result<
    (),
    BattleDinghyError,
> {
    if e.status != GameStatus::Active {
        Err(BattleDinghyError::GameNotActive)
    } else if caller != e.operator {
        Err(BattleDinghyError::UnauthorizedOperator)
    } else {
        Ok(())
    }
}

/// Decision of `GameEscrow::declare_winner`: settlement is allowed only for
/// the operator of an active game, for a winner drawn from the roster, and
/// only once `MINIMUM_GAME_TIME` seconds have passed since the start.
pub open spec fn declare_winner_outcome(
    e: GameEscrow,
    caller: AccountId,
    winner: AccountId,
    now: i64,
) -> Result<(), BattleDinghyError> {
    if e.status != GameStatus::Active {
        Err(BattleDinghyError::GameNotActive)
    } else if caller != e.operator {
        Err(BattleDinghyError::UnauthorizedOperator)
    } else if !e.players@.contains(winner) {
        Err(BattleDinghyError::WinnerNotPlayer)
    } else if e.started_at matches Some(s) && ((now as int) < s as int + MINIMUM_GAME_TIME as int) {
        Err(BattleDinghyError::TooEarlyForWinner)
    } else {
        Ok(())
    }
}

/// Decision of `GameEscrow::claim_refund`: a refund is owed to every
/// participant of a cancelled game exactly once.
pub open spec fn claim_refund_outcome(e: GameEscrow, player: AccountId) -> Result<
    (),
    BattleDinghyError,
> {
    if e.status != GameStatus::Cancelled {
        Err(BattleDinghyError::GameNotCancelled)
    } else if !e.players@.contains(player) {
        Err(BattleDinghyError::PlayerNotInGame)
    } else if e.refunded@[player_index(e.players@, player)] {
        Err(BattleDinghyError::AlreadyRefunded)
    } else {
        Ok(())
    }
}

/// Decision of `GameEscrow::resume_game`.
pub open spec fn resume_outcome(e: GameEscrow, caller: AccountId) -> Result<
    (),
    BattleDinghyError,
> {
    if e.status != GameStatus::Paused {
        Err(BattleDinghyError::GameNotPaused)
    } else if caller != e.operator {
        Err(BattleDinghyError::UnauthorizedOperator)
    } else {
        Ok(())
    }
}

} // verus!
