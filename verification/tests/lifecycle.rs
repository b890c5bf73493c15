use pokechess_staking::engine::cancel_match;
use pokechess_staking::engine::claim_reward;
use pokechess_staking::engine::claim_winner_reward;
use pokechess_staking::engine::create_match;
use pokechess_staking::engine::declare_draw;
use pokechess_staking::engine::declare_winner;
use pokechess_staking::engine::join_match;
use pokechess_staking::state::MatchId;
use pokechess_staking::state::MatchStatus;
use pokechess_staking::state::PlayerId;

fn pid(n: u64) -> PlayerId {
    PlayerId { id: n }
}

fn mid(tag: u8) -> MatchId {
    let mut bytes = [0u8; 32];
    bytes[0] = tag;
    MatchId { bytes }
}

#[test]
fn create_then_join_then_pay_winner() {
    let host = pid(1);
    let challenger = pid(2);
    let mut host_bal: u64 = 100_000_000;
    let mut chall_bal: u64 = 60_000_000;
    let mut treasury_bal: u64 = 0;

    let (mut m, mut escrow, created) =
        create_match(mid(7), 50_000_000, host, 1_700_000_000, &mut host_bal).unwrap();
    assert_eq!(host_bal, 50_000_000);
    assert_eq!(escrow.balance(), 50_000_000);
    assert_eq!(m.status, MatchStatus::WaitingForChallenger);
    assert_eq!(m.challenger, None);
    assert_eq!(m.winner, None);
    assert_eq!(m.created_at, 1_700_000_000);
    assert_eq!(created.match_id.bytes, mid(7).bytes);
    assert_eq!(created.host, host);
    assert_eq!(created.stake_amount, 50_000_000);

    let started = join_match(&mut m, &mut escrow, challenger, &mut chall_bal).unwrap();
    assert_eq!(chall_bal, 10_000_000);
    assert_eq!(escrow.balance(), 100_000_000);
    assert_eq!(m.status, MatchStatus::InProgress);
    assert_eq!(m.challenger, Some(challenger));
    assert_eq!(started.host, host);
    assert_eq!(started.challenger, challenger);
    assert_eq!(started.total_pot, 100_000_000);

    let mut winner_bal = host_bal;
    let paid = claim_winner_reward(
        &mut m,
        &mut escrow,
        challenger,
        host,
        host,
        &mut winner_bal,
        &mut treasury_bal,
    )
    .unwrap();
    assert_eq!(m.status, MatchStatus::Completed);
    assert_eq!(m.winner, Some(host));
    assert_eq!(escrow.balance(), 0);
    assert_eq!(winner_bal, 147_500_000);
    assert_eq!(treasury_bal, 2_500_000);
    assert_eq!(paid.winner, host);
    assert_eq!(paid.amount, 97_500_000);
    assert_eq!(paid.platform_fee, 2_500_000);
}

#[test]
fn legacy_declare_then_claim() {
    let host = pid(10);
    let challenger = pid(20);
    let mut host_bal: u64 = 30_000_000;
    let mut chall_bal: u64 = 30_000_000;
    let mut treasury_bal: u64 = 5;

    let (mut m, mut escrow, _) = create_match(mid(1), 20_000_000, host, 0, &mut host_bal).unwrap();
    join_match(&mut m, &mut escrow, challenger, &mut chall_bal).unwrap();

    let declared = declare_winner(&mut m, host, challenger).unwrap();
    assert_eq!(m.status, MatchStatus::Completed);
    assert_eq!(m.winner, Some(challenger));
    assert_eq!(escrow.balance(), 40_000_000);
    assert_eq!(declared.winner, challenger);
    assert_eq!(declared.declared_by, host);

    let claimed = claim_reward(&m, &mut escrow, challenger, &mut chall_bal, &mut treasury_bal)
        .unwrap();
    assert_eq!(escrow.balance(), 0);
    // fee = floor(40_000_000 * 250 / 10_000) = 1_000_000
    assert_eq!(claimed.platform_fee, 1_000_000);
    assert_eq!(claimed.amount, 39_000_000);
    assert_eq!(claimed.winner, challenger);
    assert_eq!(chall_bal, 10_000_000 + 39_000_000);
    assert_eq!(treasury_bal, 1_000_005);
}

#[test]
fn cancel_refunds_host_in_full() {
    let host = pid(3);
    let mut host_bal: u64 = 12_000_000;

    let (mut m, mut escrow, _) = create_match(mid(2), 11_000_000, host, 0, &mut host_bal).unwrap();
    assert_eq!(host_bal, 1_000_000);

    let cancelled = cancel_match(&mut m, &mut escrow, host, &mut host_bal).unwrap();
    assert_eq!(m.status, MatchStatus::Cancelled);
    assert_eq!(escrow.balance(), 0);
    assert_eq!(host_bal, 12_000_000);
    assert_eq!(cancelled.refunded_to, host);
    assert_eq!(cancelled.amount, 11_000_000);
}

#[test]
fn draw_refunds_both_stakes_with_no_fee() {
    let host = pid(4);
    let challenger = pid(5);
    let mut host_bal: u64 = 80_000_000;
    let mut chall_bal: u64 = 80_000_000;

    let (mut m, mut escrow, _) = create_match(mid(3), 75_000_000, host, 0, &mut host_bal).unwrap();
    join_match(&mut m, &mut escrow, challenger, &mut chall_bal).unwrap();
    assert_eq!(host_bal, 5_000_000);
    assert_eq!(chall_bal, 5_000_000);
    assert_eq!(escrow.balance(), 150_000_000);

    let drawn = declare_draw(&mut m, &mut escrow, challenger, &mut host_bal, &mut chall_bal)
        .unwrap();
    assert_eq!(m.status, MatchStatus::Draw);
    assert_eq!(escrow.balance(), 0);
    assert_eq!(host_bal, 80_000_000);
    assert_eq!(chall_bal, 80_000_000);
    assert_eq!(drawn.refund_amount, 75_000_000);
}

#[test]
fn default_status_is_waiting() {
    assert_eq!(MatchStatus::default(), MatchStatus::WaitingForChallenger);
}
