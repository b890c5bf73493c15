//! The transition engine: create, join, resolve-win, resolve-draw, cancel.
//!
//! Each transition checks its preconditions against the match record and the
//! caller's authenticated identity, moves value between the escrow pool and
//! the accounts handed in, updates the record, and returns the event record
//! for the transition — or returns a named error and changes nothing.
//!
//! A transition operates on a *live* pair of match record and escrow pool
//! (see [`live`]): an entry the host ledger still stores, whose pool holds
//! exactly what its status accounts for. A transition that pays the pool out
//! leaves the pair *settled* (see [`settled`]); the ledger then reclaims its
//! storage, and no further transition runs on it.

use vstd::prelude::*;
use crate::errors::StakingError;
use crate::errors::TransitionError;
use crate::escrow::Escrow;
use crate::events::MatchCancelled;
use crate::events::MatchCreated;
use crate::events::MatchDraw;
use crate::events::MatchStarted;
use crate::events::RewardClaimed;
use crate::events::WinnerDeclared;
use crate::state::MatchAccount;
use crate::state::MatchId;
use crate::state::MatchStatus;
use crate::state::PlayerId;
use crate::state::MAX_STAKE_LAMPORTS;
use crate::state::MIN_STAKE_LAMPORTS;
use crate::state::PLATFORM_FEE_BPS;

verus! {

// ------------------------------------------------------------------------
// The relationship invariant between a match record and its escrow pool.
// ------------------------------------------------------------------------

/// The entry is still stored and its pool holds exactly what the status
/// accounts for: one stake while waiting for a challenger, both stakes from
/// the start of play until the pot is paid out. A cancelled or drawn entry
/// is reclaimed at once, so it is never live.
pub open spec fn live(m: MatchAccount, escrow: Escrow) -> bool {
    &&& m.wf()
    &&& match m.status {
        MatchStatus::WaitingForChallenger => escrow@ == m.stake_amount,
        MatchStatus::InProgress => escrow@ == 2 * m.stake_amount,
        MatchStatus::Completed => escrow@ == 2 * m.stake_amount,
        MatchStatus::Cancelled => false,
        MatchStatus::Draw => false,
    }
}

/// The entry has reached a terminal status and its pool is fully paid out;
/// the host ledger may reclaim both accounts.
pub open spec fn settled(m: MatchAccount, escrow: Escrow) -> bool {
    &&& m.wf()
    &&& escrow@ == 0
    &&& (m.status is Completed || m.status is Cancelled || m.status is Draw)
}

// ------------------------------------------------------------------------
// Fee and payout arithmetic.
// ------------------------------------------------------------------------

/// The pot: both players' stakes.
pub open spec fn total_pot(stake_amount: u64) -> int {
    2 * stake_amount
}

/// The platform's cut of the pot, in basis points, rounded down.
pub open spec fn platform_fee(stake_amount: u64) -> int {
    total_pot(stake_amount) * PLATFORM_FEE_BPS / 10_000
}

/// What the winner collects: the pot less the platform fee.
pub open spec fn winner_reward(stake_amount: u64) -> int {
    total_pot(stake_amount) - platform_fee(stake_amount)
}

/// Computes `(pot, fee, reward)` for a stake: the pot is both stakes, the
/// fee is the platform's cut rounded down, and the reward is the rest, so
/// fee and reward together make up exactly the pot.
pub fn compute_payout(stake_amount: u64) -> (r: (u64, u64, u64))
    requires
        stake_amount <= MAX_STAKE_LAMPORTS,
    ensures
        r.0 == total_pot(stake_amount),
        r.1 == platform_fee(stake_amount),
        r.2 == winner_reward(stake_amount),
        r.1 + r.2 == r.0,
{
    let pot: u64 = 2 * stake_amount;
    let fee: u64 = (pot * PLATFORM_FEE_BPS) / 10_000;
    assert(pot * PLATFORM_FEE_BPS / 10_000 <= pot) by {
        vstd::arithmetic::div_mod::lemma_div_is_ordered(
            pot * PLATFORM_FEE_BPS,
            pot * 10_000,
            10_000,
        );
        vstd::arithmetic::div_mod::lemma_div_by_multiple(pot as int, 10_000);
    };
    let reward: u64 = pot - fee;
    (pot, fee, reward)
}

// ------------------------------------------------------------------------
// Creation.
// ------------------------------------------------------------------------

/// The validation `create_match` applies to the requested stake, and the
/// error each violation reports.
pub open spec fn create_check(stake_amount: u64) -> Option<StakingError> {
    if stake_amount < MIN_STAKE_LAMPORTS {
        Some(StakingError::StakeTooLow)
    } else if stake_amount > MAX_STAKE_LAMPORTS {
        Some(StakingError::StakeTooHigh)
    } else {
        None
    }
}

/// Creates a match: allocates the record waiting for a challenger and moves
/// the host's stake into a fresh escrow pool.
///
/// Fails with `StakeTooLow` / `StakeTooHigh` when the stake is out of
/// bounds, and with the ledger's insufficient-funds condition when the host
/// cannot cover it; on failure the host's balance is untouched. Uniqueness
/// of `match_id` is the host ledger's exclusive-creation guarantee, outside
/// this engine.
pub fn create_match(
    match_id: MatchId,
    stake_amount: u64,
    host: PlayerId,
    created_at: i64,
    host_balance: &mut u64,
) -> (r: Result<(MatchAccount, Escrow, MatchCreated), TransitionError>)
    ensures
        match create_check(stake_amount) {
            Some(err) => {
                &&& r matches Err(e) && e == TransitionError::Rule(err)
                &&& *final(host_balance) == *old(host_balance)
            },
            None => {
                if *old(host_balance) < stake_amount {
                    &&& r matches Err(e) && e == TransitionError::InsufficientFunds
                    &&& *final(host_balance) == *old(host_balance)
                } else {
                    &&& r matches Ok(created)
                    &&& created.0 == (MatchAccount {
                        match_id,
                        host,
                        challenger: None,
                        stake_amount,
                        status: MatchStatus::WaitingForChallenger,
                        winner: None,
                        created_at,
                    })
                    &&& created.1@ == stake_amount
                    &&& live(created.0, created.1)
                    &&& created.2 == (MatchCreated { match_id, host, stake_amount })
                    &&& *final(host_balance) == *old(host_balance) - stake_amount
                }
            },
        },
{
    if stake_amount < MIN_STAKE_LAMPORTS {
        return Err(TransitionError::Rule(StakingError::StakeTooLow));
    }
    if stake_amount > MAX_STAKE_LAMPORTS {
        return Err(TransitionError::Rule(StakingError::StakeTooHigh));
    }
    if *host_balance < stake_amount {
        return Err(TransitionError::InsufficientFunds);
    }
    *host_balance = *host_balance - stake_amount;
    let mut escrow = Escrow::open_empty();
    escrow.credit(stake_amount);
    let entry = MatchAccount {
        match_id,
        host,
        challenger: None,
        stake_amount,
        status: MatchStatus::WaitingForChallenger,
        winner: None,
        created_at,
    };
    let event = MatchCreated { match_id, host, stake_amount };
    Ok((entry, escrow, event))
}

// ------------------------------------------------------------------------
// Joining.
// ------------------------------------------------------------------------

/// The preconditions `join_match` checks, in order, and the error each
/// violation reports.
pub open spec fn join_check(m: MatchAccount, challenger: PlayerId) -> Option<StakingError> {
    if m.status != MatchStatus::WaitingForChallenger {
        Some(StakingError::MatchNotJoinable)
    } else if challenger == m.host {
        Some(StakingError::CannotPlaySelf)
    } else {
        None
    }
}

/// A challenger joins a waiting match: their identity is recorded, the match
/// starts, and the stake fixed at creation — the challenger cannot alter it —
/// moves from the challenger's balance into the escrow pool, bringing it to
/// the full pot of twice the stake.
///
/// Fails with `MatchNotJoinable` unless the match is waiting for a
/// challenger, with `CannotPlaySelf` when the challenger is the host, and
/// with the ledger's insufficient-funds condition when the challenger cannot
/// cover the stake; on failure nothing changes.
pub fn join_match(
    m: &mut MatchAccount,
    escrow: &mut Escrow,
    challenger: PlayerId,
    challenger_balance: &mut u64,
) -> (r: Result<MatchStarted, TransitionError>)
    requires
        live(*old(m), *old(escrow)),
    ensures
        match join_check(*old(m), challenger) {
            Some(err) => {
                &&& r matches Err(e) && e == TransitionError::Rule(err)
                &&& *final(m) == *old(m)
                &&& *final(escrow) == *old(escrow)
                &&& *final(challenger_balance) == *old(challenger_balance)
            },
            None => {
                if *old(challenger_balance) < old(m).stake_amount {
                    &&& r matches Err(e) && e == TransitionError::InsufficientFunds
                    &&& *final(m) == *old(m)
                    &&& *final(escrow) == *old(escrow)
                    &&& *final(challenger_balance) == *old(challenger_balance)
                } else {
                    &&& r matches Ok(ev)
                    &&& ev.match_id == old(m).match_id
                    &&& ev.host == old(m).host
                    &&& ev.challenger == challenger
                    &&& ev.total_pot == total_pot(old(m).stake_amount)
                    &&& *final(m) == (MatchAccount {
                        match_id: old(m).match_id,
                        host: old(m).host,
                        challenger: Some(challenger),
                        stake_amount: old(m).stake_amount,
                        status: MatchStatus::InProgress,
                        winner: old(m).winner,
                        created_at: old(m).created_at,
                    })
                    &&& final(escrow)@ == old(escrow)@ + old(m).stake_amount
                    &&& live(*final(m), *final(escrow))
                    &&& *final(challenger_balance) == *old(challenger_balance) - old(
                        m,
                    ).stake_amount
                }
            },
        },
{
    if m.status != MatchStatus::WaitingForChallenger {
        return Err(TransitionError::Rule(StakingError::MatchNotJoinable));
    }
    if challenger == m.host {
        return Err(TransitionError::Rule(StakingError::CannotPlaySelf));
    }
    let stake_amount = m.stake_amount;
    if *challenger_balance < stake_amount {
        return Err(TransitionError::InsufficientFunds);
    }
    *challenger_balance = *challenger_balance - stake_amount;
    escrow.credit(stake_amount);
    m.challenger = Some(challenger);
    m.status = MatchStatus::InProgress;
    Ok(MatchStarted {
        match_id: m.match_id,
        host: m.host,
        challenger,
        total_pot: 2 * stake_amount,
    })
}

// ------------------------------------------------------------------------
// Settlement: the unified declare-and-pay path.
// ------------------------------------------------------------------------

/// The preconditions `claim_winner_reward` checks, in order, and the error
/// each violation reports. The declared winner must be a participant, the
/// caller must be a participant (either player may report the outcome), and
/// the payout destination must be the declared winner's own account.
pub open spec fn resolve_check(
    m: MatchAccount,
    caller: PlayerId,
    winner: PlayerId,
    winner_account: PlayerId,
) -> Option<StakingError> {
    if m.status != MatchStatus::InProgress {
        Some(StakingError::MatchNotInProgress)
    } else if !m.spec_is_participant(winner) {
        Some(StakingError::InvalidWinner)
    } else if !m.spec_is_participant(caller) {
        Some(StakingError::NotParticipant)
    } else if winner_account != winner {
        Some(StakingError::InvalidWinner)
    } else {
        None
    }
}

/// Declares the winner and pays the pot out in one atomic step: the winner's
/// account is credited with the pot less the platform fee, the treasury with
/// the fee, the record turns `Completed` with the winner set, and the pair is
/// settled for the ledger to reclaim.
///
/// Either participant may call this; the winner need not. `winner_account`
/// names the payout destination, which must be the declared winner — this
/// guards against naming the right winner but paying a different account.
/// On failure nothing changes and the match can still be resolved.
pub fn claim_winner_reward(
    m: &mut MatchAccount,
    escrow: &mut Escrow,
    caller: PlayerId,
    winner: PlayerId,
    winner_account: PlayerId,
    winner_balance: &mut u64,
    treasury_balance: &mut u64,
) -> (r: Result<RewardClaimed, TransitionError>)
    requires
        live(*old(m), *old(escrow)),
        resolve_check(*old(m), caller, winner, winner_account) is None ==> *old(winner_balance)
            + winner_reward(old(m).stake_amount) <= u64::MAX,
        resolve_check(*old(m), caller, winner, winner_account) is None ==> *old(treasury_balance)
            + platform_fee(old(m).stake_amount) <= u64::MAX,
    ensures
        match resolve_check(*old(m), caller, winner, winner_account) {
            Some(err) => {
                &&& r matches Err(e) && e == TransitionError::Rule(err)
                &&& *final(m) == *old(m)
                &&& *final(escrow) == *old(escrow)
                &&& *final(winner_balance) == *old(winner_balance)
                &&& *final(treasury_balance) == *old(treasury_balance)
            },
            None => {
                &&& r matches Ok(ev)
                &&& ev.match_id == old(m).match_id
                &&& ev.winner == winner
                &&& ev.amount == winner_reward(old(m).stake_amount)
                &&& ev.platform_fee == platform_fee(old(m).stake_amount)
                &&& *final(m) == (MatchAccount {
                    match_id: old(m).match_id,
                    host: old(m).host,
                    challenger: old(m).challenger,
                    stake_amount: old(m).stake_amount,
                    status: MatchStatus::Completed,
                    winner: Some(winner),
                    created_at: old(m).created_at,
                })
                &&& final(escrow)@ == 0
                &&& settled(*final(m), *final(escrow))
                &&& *final(winner_balance) == *old(winner_balance) + winner_reward(
                    old(m).stake_amount,
                )
                &&& *final(treasury_balance) == *old(treasury_balance) + platform_fee(
                    old(m).stake_amount,
                )
            },
        },
{
    if m.status != MatchStatus::InProgress {
        return Err(TransitionError::Rule(StakingError::MatchNotInProgress));
    }
    if !m.is_participant(winner) {
        return Err(TransitionError::Rule(StakingError::InvalidWinner));
    }
    if !m.is_participant(caller) {
        return Err(TransitionError::Rule(StakingError::NotParticipant));
    }
    if winner_account != winner {
        return Err(TransitionError::Rule(StakingError::InvalidWinner));
    }
    let (pot, fee, reward) = compute_payout(m.stake_amount);
    m.winner = Some(winner);
    m.status = MatchStatus::Completed;
    escrow.debit(reward);
    *winner_balance = *winner_balance + reward;
    escrow.debit(fee);
    *treasury_balance = *treasury_balance + fee;
    Ok(RewardClaimed { match_id: m.match_id, winner, amount: reward, platform_fee: fee })
}

// ------------------------------------------------------------------------
// Settlement: the legacy two-step path.
// ------------------------------------------------------------------------

/// The preconditions `declare_winner` checks, in order, and the error each
/// violation reports.
pub open spec fn declare_check(
    m: MatchAccount,
    caller: PlayerId,
    winner: PlayerId,
) -> Option<StakingError> {
    if m.status != MatchStatus::InProgress {
        Some(StakingError::MatchNotInProgress)
    } else if !m.spec_is_participant(winner) {
        Some(StakingError::InvalidWinner)
    } else if !m.spec_is_participant(caller) {
        Some(StakingError::NotParticipant)
    } else {
        None
    }
}

/// Records the winner without paying anything out (legacy settlement, first
/// step). The record turns `Completed`; the pot stays in escrow until the
/// winner collects it with `claim_reward`.
///
/// Either participant may call this. No value moves, so no balance is
/// involved; the escrow pool is untouched, which keeps the pair live.
pub fn declare_winner(m: &mut MatchAccount, caller: PlayerId, winner: PlayerId) -> (r: Result<
    WinnerDeclared,
    StakingError,
>)
    requires
        old(m).wf(),
    ensures
        match declare_check(*old(m), caller, winner) {
            Some(err) => {
                &&& r matches Err(e) && e == err
                &&& *final(m) == *old(m)
            },
            None => {
                &&& r matches Ok(ev)
                &&& ev == (WinnerDeclared {
                    match_id: old(m).match_id,
                    winner,
                    declared_by: caller,
                })
                &&& *final(m) == (MatchAccount {
                    match_id: old(m).match_id,
                    host: old(m).host,
                    challenger: old(m).challenger,
                    stake_amount: old(m).stake_amount,
                    status: MatchStatus::Completed,
                    winner: Some(winner),
                    created_at: old(m).created_at,
                })
                &&& final(m).wf()
            },
        },
{
    if m.status != MatchStatus::InProgress {
        return Err(StakingError::MatchNotInProgress);
    }
    if !m.is_participant(winner) {
        return Err(StakingError::InvalidWinner);
    }
    if !m.is_participant(caller) {
        return Err(StakingError::NotParticipant);
    }
    m.winner = Some(winner);
    m.status = MatchStatus::Completed;
    Ok(WinnerDeclared { match_id: m.match_id, winner, declared_by: caller })
}

/// The preconditions `claim_reward` checks, in order, and the error each
/// violation reports. Unlike the unified path, the claimant must be the
/// recorded winner themselves.
pub open spec fn claim_check(m: MatchAccount, claimant: PlayerId) -> Option<StakingError> {
    if m.status != MatchStatus::Completed {
        Some(StakingError::MatchNotCompleted)
    } else if m.winner != Some(claimant) {
        Some(StakingError::NotWinner)
    } else {
        None
    }
}

/// The recorded winner collects the pot (legacy settlement, second step):
/// their account is credited with the pot less the platform fee, the
/// treasury with the fee, and the pair is settled for the ledger to reclaim.
/// The record itself is not rewritten; its closure is the ledger's.
///
/// Fails with `MatchNotCompleted` unless a winner has been declared, and
/// with `NotWinner` when the claimant is not that winner; on failure nothing
/// changes.
pub fn claim_reward(
    m: &MatchAccount,
    escrow: &mut Escrow,
    claimant: PlayerId,
    claimant_balance: &mut u64,
    treasury_balance: &mut u64,
) -> (r: Result<RewardClaimed, TransitionError>)
    requires
        live(*m, *old(escrow)),
        claim_check(*m, claimant) is None ==> *old(claimant_balance) + winner_reward(
            m.stake_amount,
        ) <= u64::MAX,
        claim_check(*m, claimant) is None ==> *old(treasury_balance) + platform_fee(
            m.stake_amount,
        ) <= u64::MAX,
    ensures
        match claim_check(*m, claimant) {
            Some(err) => {
                &&& r matches Err(e) && e == TransitionError::Rule(err)
                &&& *final(escrow) == *old(escrow)
                &&& *final(claimant_balance) == *old(claimant_balance)
                &&& *final(treasury_balance) == *old(treasury_balance)
            },
            None => {
                &&& r matches Ok(ev)
                &&& ev.match_id == m.match_id
                &&& ev.winner == claimant
                &&& ev.amount == winner_reward(m.stake_amount)
                &&& ev.platform_fee == platform_fee(m.stake_amount)
                &&& final(escrow)@ == 0
                &&& settled(*m, *final(escrow))
                &&& *final(claimant_balance) == *old(claimant_balance) + winner_reward(
                    m.stake_amount,
                )
                &&& *final(treasury_balance) == *old(treasury_balance) + platform_fee(
                    m.stake_amount,
                )
            },
        },
{
    if m.status != MatchStatus::Completed {
        return Err(TransitionError::Rule(StakingError::MatchNotCompleted));
    }
    let is_winner = match m.winner {
        Some(w) => w == claimant,
        None => false,
    };
    if !is_winner {
        return Err(TransitionError::Rule(StakingError::NotWinner));
    }
    let (pot, fee, reward) = compute_payout(m.stake_amount);
    escrow.debit(reward);
    *claimant_balance = *claimant_balance + reward;
    escrow.debit(fee);
    *treasury_balance = *treasury_balance + fee;
    Ok(RewardClaimed { match_id: m.match_id, winner: claimant, amount: reward, platform_fee: fee })
}

// ------------------------------------------------------------------------
// Cancellation.
// ------------------------------------------------------------------------

/// The preconditions `cancel_match` checks, in order, and the error each
/// violation reports. Cancellation is only permitted while the match waits
/// for a challenger — before anyone else's funds are at risk — and only by
/// the host.
pub open spec fn cancel_check(m: MatchAccount, caller: PlayerId) -> Option<StakingError> {
    if m.status != MatchStatus::WaitingForChallenger {
        Some(StakingError::CannotCancelStartedMatch)
    } else if caller != m.host {
        Some(StakingError::NotHost)
    } else {
        None
    }
}

/// The host cancels a match nobody has joined: their stake returns from
/// escrow in full, the record turns `Cancelled`, and the pair is settled for
/// the ledger to reclaim.
///
/// Fails with `CannotCancelStartedMatch` once the match has left the waiting
/// state, and with `NotHost` when the caller is not the host; on failure
/// nothing changes.
pub fn cancel_match(
    m: &mut MatchAccount,
    escrow: &mut Escrow,
    caller: PlayerId,
    host_balance: &mut u64,
) -> (r: Result<MatchCancelled, TransitionError>)
    requires
        live(*old(m), *old(escrow)),
        cancel_check(*old(m), caller) is None ==> *old(host_balance) + old(m).stake_amount
            <= u64::MAX,
    ensures
        match cancel_check(*old(m), caller) {
            Some(err) => {
                &&& r matches Err(e) && e == TransitionError::Rule(err)
                &&& *final(m) == *old(m)
                &&& *final(escrow) == *old(escrow)
                &&& *final(host_balance) == *old(host_balance)
            },
            None => {
                &&& r matches Ok(ev)
                &&& ev == (MatchCancelled {
                    match_id: old(m).match_id,
                    refunded_to: old(m).host,
                    amount: old(m).stake_amount,
                })
                &&& *final(m) == (MatchAccount {
                    match_id: old(m).match_id,
                    host: old(m).host,
                    challenger: old(m).challenger,
                    stake_amount: old(m).stake_amount,
                    status: MatchStatus::Cancelled,
                    winner: old(m).winner,
                    created_at: old(m).created_at,
                })
                &&& final(escrow)@ == 0
                &&& settled(*final(m), *final(escrow))
                &&& *final(host_balance) == *old(host_balance) + old(m).stake_amount
            },
        },
{
    if m.status != MatchStatus::WaitingForChallenger {
        return Err(TransitionError::Rule(StakingError::CannotCancelStartedMatch));
    }
    if caller != m.host {
        return Err(TransitionError::Rule(StakingError::NotHost));
    }
    let stake_amount = m.stake_amount;
    escrow.debit(stake_amount);
    *host_balance = *host_balance + stake_amount;
    m.status = MatchStatus::Cancelled;
    Ok(MatchCancelled { match_id: m.match_id, refunded_to: m.host, amount: stake_amount })
}

// ------------------------------------------------------------------------
// Draws.
// ------------------------------------------------------------------------

/// The preconditions `declare_draw` checks, in order, and the error each
/// violation reports. Either participant may declare the draw.
pub open spec fn draw_check(m: MatchAccount, caller: PlayerId) -> Option<StakingError> {
    if m.status != MatchStatus::InProgress {
        Some(StakingError::MatchNotInProgress)
    } else if !m.spec_is_participant(caller) {
        Some(StakingError::NotParticipant)
    } else {
        None
    }
}

/// A participant declares a draw: host and challenger each get exactly their
/// own stake back — two independent refunds, with no fee charged — the
/// record turns `Draw`, and the pair is settled for the ledger to reclaim.
///
/// `host_balance` and `challenger_balance` are the balances of the host's
/// and the challenger's own accounts; the host ledger binds each account to
/// its identity before the call. Fails with `MatchNotInProgress` unless the
/// match is running, and with `NotParticipant` for any other caller; on
/// failure nothing changes.
pub fn declare_draw(
    m: &mut MatchAccount,
    escrow: &mut Escrow,
    caller: PlayerId,
    host_balance: &mut u64,
    challenger_balance: &mut u64,
) -> (r: Result<MatchDraw, TransitionError>)
    requires
        live(*old(m), *old(escrow)),
        draw_check(*old(m), caller) is None ==> *old(host_balance) + old(m).stake_amount
            <= u64::MAX,
        draw_check(*old(m), caller) is None ==> *old(challenger_balance) + old(m).stake_amount
            <= u64::MAX,
    ensures
        match draw_check(*old(m), caller) {
            Some(err) => {
                &&& r matches Err(e) && e == TransitionError::Rule(err)
                &&& *final(m) == *old(m)
                &&& *final(escrow) == *old(escrow)
                &&& *final(host_balance) == *old(host_balance)
                &&& *final(challenger_balance) == *old(challenger_balance)
            },
            None => {
                &&& r matches Ok(ev)
                &&& ev == (MatchDraw {
                    match_id: old(m).match_id,
                    refund_amount: old(m).stake_amount,
                })
                &&& *final(m) == (MatchAccount {
                    match_id: old(m).match_id,
                    host: old(m).host,
                    challenger: old(m).challenger,
                    stake_amount: old(m).stake_amount,
                    status: MatchStatus::Draw,
                    winner: old(m).winner,
                    created_at: old(m).created_at,
                })
                &&& final(escrow)@ == 0
                &&& settled(*final(m), *final(escrow))
                &&& *final(host_balance) == *old(host_balance) + old(m).stake_amount
                &&& *final(challenger_balance) == *old(challenger_balance) + old(m).stake_amount
            },
        },
{
    if m.status != MatchStatus::InProgress {
        return Err(TransitionError::Rule(StakingError::MatchNotInProgress));
    }
    if !m.is_participant(caller) {
        return Err(TransitionError::Rule(StakingError::NotParticipant));
    }
    let stake_amount = m.stake_amount;
    m.status = MatchStatus::Draw;
    escrow.debit(stake_amount);
    *host_balance = *host_balance + stake_amount;
    escrow.debit(stake_amount);
    *challenger_balance = *challenger_balance + stake_amount;
    Ok(MatchDraw { match_id: m.match_id, refund_amount: stake_amount })
}

} // verus!
