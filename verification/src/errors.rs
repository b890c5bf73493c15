//! Error taxonomy: every failure is a precondition violation, reported
//! synchronously with no partial state change.

use vstd::prelude::*;

verus! {

/// A rule violation: the transition was invoked against a match in the wrong
/// state, by the wrong caller, or with invalid arguments.
#[derive(Clone, Copy, Debug, PartialEq, Eq, Structural)]
pub enum StakingError {
    /// Stake amount is below the protocol minimum.
    StakeTooLow,
    /// Stake amount exceeds the protocol maximum.
    StakeTooHigh,
    /// The match is not waiting for a challenger.
    MatchNotJoinable,
    /// A player cannot challenge their own match.
    CannotPlaySelf,
    /// The match is not in progress.
    MatchNotInProgress,
    /// The declared winner or the payout destination is not acceptable.
    InvalidWinner,
    /// The caller is neither the host nor the challenger.
    NotParticipant,
    /// The match has not been completed.
    MatchNotCompleted,
    /// The caller is not the recorded winner.
    NotWinner,
    /// A match that has started can no longer be cancelled.
    CannotCancelStartedMatch,
    /// The caller is not the match's host.
    NotHost,
}

/// What a transition can fail with: one of the protocol's own rule errors,
/// or a condition the host ledger's value-transfer primitive surfaces,
/// propagated without reinterpretation.
#[derive(Clone, Copy, Debug, PartialEq, Eq, Structural)]
pub enum TransitionError {
    /// A precondition of the transition failed.
    Rule(StakingError),
    /// The paying account cannot cover the transfer.
    InsufficientFunds,
}

} // verus!
