//! Event records: one immutable, flat record per successful transition,
//! returned to the caller for delivery to off-chain observers.

use vstd::prelude::*;
use crate::state::MatchId;
use crate::state::PlayerId;

verus! {

/// A match was created and the host's stake deposited.
#[derive(Clone, Copy, Debug, PartialEq, Eq)]
pub struct MatchCreated {
    pub match_id: MatchId,
    pub host: PlayerId,
    pub stake_amount: u64,
}

/// A challenger joined and the match started.
#[derive(Clone, Copy, Debug, PartialEq, Eq)]
pub struct MatchStarted {
    pub match_id: MatchId,
    pub host: PlayerId,
    pub challenger: PlayerId,
    pub total_pot: u64,
}

/// A winner was declared without an immediate payout (legacy settlement).
#[derive(Clone, Copy, Debug, PartialEq, Eq)]
pub struct WinnerDeclared {
    pub match_id: MatchId,
    pub winner: PlayerId,
    pub declared_by: PlayerId,
}

/// The pot was paid out: the reward to the winner, the fee to the treasury.
#[derive(Clone, Copy, Debug, PartialEq, Eq)]
pub struct RewardClaimed {
    pub match_id: MatchId,
    pub winner: PlayerId,
    pub amount: u64,
    pub platform_fee: u64,
}

/// The match was cancelled before anyone joined; the host was refunded.
#[derive(Clone, Copy, Debug, PartialEq, Eq)]
pub struct MatchCancelled {
    pub match_id: MatchId,
    pub refunded_to: PlayerId,
    pub amount: u64,
}

/// The match ended in a draw; both players were refunded in full.
#[derive(Clone, Copy, Debug, PartialEq, Eq)]
pub struct MatchDraw {
    pub match_id: MatchId,
    pub refund_amount: u64,
}

} // verus!
