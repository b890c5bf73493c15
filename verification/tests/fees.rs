use pokechess_staking::engine::compute_payout;
use pokechess_staking::state::MAX_STAKE_LAMPORTS;
use pokechess_staking::state::MIN_STAKE_LAMPORTS;

#[test]
fn payout_for_the_reference_stake() {
    // stake 50_000_000: pot 100_000_000, fee floor(100_000_000 * 250 / 10_000)
    // = 2_500_000, reward 97_500_000.
    let (pot, fee, reward) = compute_payout(50_000_000);
    assert_eq!(pot, 100_000_000);
    assert_eq!(fee, 2_500_000);
    assert_eq!(reward, 97_500_000);
}

#[test]
fn fee_and_reward_split_the_pot_exactly() {
    for stake in [
        MIN_STAKE_LAMPORTS,
        MIN_STAKE_LAMPORTS + 1,
        12_345_678,
        99_999_999,
        1_000_000_007,
        MAX_STAKE_LAMPORTS - 1,
        MAX_STAKE_LAMPORTS,
    ] {
        let (pot, fee, reward) = compute_payout(stake);
        assert_eq!(pot, 2 * stake);
        assert_eq!(fee, pot / 40); // 250 bps is exactly 1/40
        assert_eq!(fee + reward, pot);
    }
}

#[test]
fn payout_at_the_minimum_stake() {
    let (pot, fee, reward) = compute_payout(MIN_STAKE_LAMPORTS);
    assert_eq!(pot, 20_000_000);
    assert_eq!(fee, 500_000);
    assert_eq!(reward, 19_500_000);
}

#[test]
fn payout_at_the_maximum_stake() {
    let (pot, fee, reward) = compute_payout(MAX_STAKE_LAMPORTS);
    assert_eq!(pot, 20_000_000_000);
    assert_eq!(fee, 500_000_000);
    assert_eq!(reward, 19_500_000_000);
}

#[test]
fn fee_rounds_down_on_an_odd_pot() {
    // stake 10_000_003: pot 20_000_006, pot * 250 / 10_000 = 500_000.15,
    // so the fee is 500_000 and the fractional part stays with the winner.
    let (pot, fee, reward) = compute_payout(10_000_003);
    assert_eq!(pot, 20_000_006);
    assert_eq!(fee, 500_000);
    assert_eq!(reward, 19_500_006);
}
