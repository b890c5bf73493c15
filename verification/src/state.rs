//! Data model: identities, match records, protocol constants.

use vstd::prelude::*;

verus! {

/// Platform fee in basis points of the pot (100 = 1%).
pub const PLATFORM_FEE_BPS: u64 = 250;

/// Minimum stake per player, in lamports.
pub const MIN_STAKE_LAMPORTS: u64 = 10_000_000;

/// Maximum stake per player, in lamports.
pub const MAX_STAKE_LAMPORTS: u64 = 10_000_000_000;

/// An authenticated account identity, as the host ledger proves it.
///
/// The ledger's own identity space is opaque; the engine only ever compares
/// identities for equality, so one plain word stands for an identity here.
#[derive(Clone, Copy, Debug, PartialEq, Eq, Hash, Structural)]
pub struct PlayerId {
    pub id: u64,
}

/// The caller-supplied 32-byte match identifier.
///
/// The ledger derives the match record's storage slot and the escrow holding
/// account from it; the engine itself only carries it through into events.
#[derive(Clone, Copy, Debug, PartialEq, Eq)]
pub struct MatchId {
    pub bytes: [u8; 32],
}

/// Where a match stands in its lifecycle.
///
/// The only moves are `WaitingForChallenger -> InProgress` (join),
/// `WaitingForChallenger -> Cancelled` (cancel), `InProgress -> Completed`
/// (resolve with a winner) and `InProgress -> Draw`.
#[derive(Clone, Copy, Debug, PartialEq, Eq, Structural)]
pub enum MatchStatus {
    WaitingForChallenger,
    InProgress,
    Completed,
    Cancelled,
    Draw,
}

impl Default for MatchStatus {
    /// A fresh match waits for a challenger.
    fn default() -> (r: Self)
        ensures
            r == MatchStatus::WaitingForChallenger,
    {
        MatchStatus::WaitingForChallenger
    }
}

/// The durable record of one match: parties, stake, status, outcome.
#[derive(Clone, Copy, Debug)]
pub struct MatchAccount {
    /// Unique match identifier.
    pub match_id: MatchId,
    /// The player who created the match.
    pub host: PlayerId,
    /// The second player; `None` until someone joins.
    pub challenger: Option<PlayerId>,
    /// Stake per player in lamports, fixed at creation.
    pub stake_amount: u64,
    /// Current lifecycle state.
    pub status: MatchStatus,
    /// The declared winner; `None` until resolution.
    pub winner: Option<PlayerId>,
    /// Creation timestamp (informational only).
    pub created_at: i64,
}

impl MatchAccount {
    /// Well-formedness of a match record: the stake is within protocol
    /// bounds, the parties and outcome fields agree with the status, the
    /// challenger is never the host, and a winner is always a participant.
    pub open spec fn wf(self) -> bool {
        &&& MIN_STAKE_LAMPORTS <= self.stake_amount <= MAX_STAKE_LAMPORTS
        &&& (self.challenger matches Some(c) ==> c != self.host)
        &&& (self.winner matches Some(w) ==> w == self.host || self.challenger == Some(w))
        &&& match self.status {
            MatchStatus::WaitingForChallenger => self.challenger is None && self.winner is None,
            MatchStatus::InProgress => self.challenger is Some && self.winner is None,
            MatchStatus::Completed => self.challenger is Some && self.winner is Some,
            MatchStatus::Cancelled => self.challenger is None && self.winner is None,
            MatchStatus::Draw => self.challenger is Some && self.winner is None,
        }
    }

    /// Whether `who` is one of the match's participants.
    pub open spec fn spec_is_participant(self, who: PlayerId) -> bool {
        who == self.host || self.challenger == Some(who)
    }

    /// Whether `who` is one of the match's participants.
    pub fn is_participant(&self, who: PlayerId) -> (r: bool)
        ensures
            r == self.spec_is_participant(who),
    {
        who == self.host || match self.challenger {
            Some(c) => who == c,
            None => false,
        }
    }
}

} // verus!
