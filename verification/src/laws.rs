//! Protocol laws: properties of the engine stated and proved once, for every
//! match and every allowed input.

use vstd::prelude::*;
use crate::engine::cancel_check;
use crate::engine::join_check;
use crate::engine::platform_fee;
use crate::engine::resolve_check;
use crate::engine::total_pot;
use crate::engine::winner_reward;
use crate::errors::StakingError;
use crate::state::MatchAccount;
use crate::state::MatchStatus;
use crate::state::PlayerId;
use crate::state::MAX_STAKE_LAMPORTS;
use crate::state::MIN_STAKE_LAMPORTS;
use crate::state::PLATFORM_FEE_BPS;

verus! {

/// Pot conservation: for every stake the protocol accepts, the winner's
/// reward and the platform fee split the pot exactly — nothing is created
/// and nothing is lost — and the fee is the pot's basis-point cut rounded
/// down, so it never exceeds the pot.
pub proof fn lemma_payout_conservation(stake_amount: u64)
    requires
        MIN_STAKE_LAMPORTS <= stake_amount <= MAX_STAKE_LAMPORTS,
    ensures
        winner_reward(stake_amount) + platform_fee(stake_amount) == total_pot(stake_amount),
        total_pot(stake_amount) == 2 * stake_amount,
        platform_fee(stake_amount) == 2 * stake_amount * PLATFORM_FEE_BPS / 10_000,
        0 <= platform_fee(stake_amount) <= total_pot(stake_amount),
{
    vstd::arithmetic::div_mod::lemma_div_is_ordered(
        total_pot(stake_amount) * PLATFORM_FEE_BPS,
        total_pot(stake_amount) * 10_000,
        10_000,
    );
    vstd::arithmetic::div_mod::lemma_div_by_multiple(total_pot(stake_amount), 10_000);
    vstd::arithmetic::div_mod::lemma_div_pos_is_pos(
        total_pot(stake_amount) * PLATFORM_FEE_BPS,
        10_000,
    );
}

/// Exclusivity of joining: once a match is in progress, any further join —
/// by anyone, including the players themselves — is refused as not joinable,
/// and `join_match`'s contract then leaves every balance unchanged.
pub proof fn lemma_join_is_exclusive(m: MatchAccount, challenger: PlayerId)
    requires
        m.status == MatchStatus::InProgress,
    ensures
        join_check(m, challenger) == Some(StakingError::MatchNotJoinable),
{
}

/// No self-play: a challenger whose identity equals the host's is always
/// refused when joining a waiting match, and `join_match`'s contract then
/// leaves every balance unchanged.
pub proof fn lemma_no_self_play(m: MatchAccount)
    requires
        m.status == MatchStatus::WaitingForChallenger,
    ensures
        join_check(m, m.host) == Some(StakingError::CannotPlaySelf),
{
}

/// Authorization of settlement: on a running match with a validly declared
/// winner, a caller who is neither host nor challenger is always refused as
/// not a participant — whatever payout destination they name — and
/// `claim_winner_reward`'s contract then moves no value.
pub proof fn lemma_resolution_requires_participant(
    m: MatchAccount,
    caller: PlayerId,
    winner: PlayerId,
    winner_account: PlayerId,
)
    requires
        m.status == MatchStatus::InProgress,
        m.spec_is_participant(winner),
        !m.spec_is_participant(caller),
    ensures
        resolve_check(m, caller, winner, winner_account) == Some(StakingError::NotParticipant),
{
}

/// Cancellation boundary: once a match has left the waiting state — in
/// particular, as soon as a challenger has joined — cancellation is always
/// refused, whoever asks, and `cancel_match`'s contract then leaves the
/// escrow pool untouched.
pub proof fn lemma_cancel_only_while_waiting(m: MatchAccount, caller: PlayerId)
    requires
        m.status != MatchStatus::WaitingForChallenger,
    ensures
        cancel_check(m, caller) == Some(StakingError::CannotCancelStartedMatch),
{
}

} // verus!
