use hype_presale::errors::PresaleError;
use hype_presale::math::calculate_token_amount;
use hype_presale::math::sol_to_usd;
use hype_presale::state::BuyerState;
use hype_presale::state::RoundConfig;
use hype_presale::vesting::calculate_claimable;
use hype_presale::vesting::calculate_vested;
use hype_presale::vesting::VestingSchedule;

fn buyer_with(schedule: VestingSchedule) -> BuyerState {
    let mut b = BuyerState::new(77);
    b.vesting_schedule = schedule;
    b
}

fn schedule(
    total: u64,
    released: u64,
    start: i64,
    cliff: i64,
    duration: i64,
    immediate: u8,
) -> VestingSchedule {
    VestingSchedule {
        total_amount: total,
        released_amount: released,
        start_time: start,
        cliff,
        duration,
        immediate_release: immediate,
    }
}

#[test]
fn claimable_of_empty_schedule_is_zero() {
    let b = buyer_with(schedule(0, 0, 0, 0, 0, 0));
    assert_eq!(calculate_claimable(&b, 1_000_000), Ok(0));
}

#[test]
fn zero_duration_unlocks_everything() {
    let b = buyer_with(schedule(1_000, 300, 5_000, 0, 0, 100));
    // Even before the nominal start, a zero-duration schedule is fully
    // unlocked.
    assert_eq!(calculate_claimable(&b, 0), Ok(700));
    assert_eq!(calculate_claimable(&b, 10_000), Ok(700));
}

#[test]
fn cliff_pays_only_the_immediate_slice() {
    let s = schedule(1_000, 0, 1_000, 500, 2_000, 25);
    let b = buyer_with(s);
    // During the cliff only the immediate 25% is claimable.
    assert_eq!(calculate_claimable(&b, 1_200), Ok(250));
    let b = buyer_with(schedule(1_000, 100, 1_000, 500, 2_000, 25));
    assert_eq!(calculate_claimable(&b, 1_200), Ok(150));
    let b = buyer_with(schedule(1_000, 250, 1_000, 500, 2_000, 25));
    assert_eq!(calculate_claimable(&b, 1_200), Ok(0));
}

#[test]
fn linear_tail_after_cliff() {
    let s = schedule(1_000, 250, 1_000, 500, 2_000, 25);
    // At start + 1000, half the duration has elapsed: vested =
    // 250 + 750 * 1000 / 2000 = 625.
    assert_eq!(calculate_vested(&s, 2_000), 625);
    let b = buyer_with(s);
    assert_eq!(calculate_claimable(&b, 2_000), Ok(375));
    // The whole duration elapsed: everything is vested.
    assert_eq!(calculate_vested(&s, 3_000), 1_000);
    assert_eq!(calculate_claimable(&b, 3_000), Ok(750));
}

#[test]
fn released_beyond_vested_is_an_overflow_error() {
    // More released than the linear curve allows at this time: only a
    // regressed clock can produce this, and the command refuses it.
    let b = buyer_with(schedule(1_000, 900, 1_000, 0, 2_000, 25));
    assert_eq!(calculate_claimable(&b, 2_000), Err(PresaleError::Overflow));
}

#[test]
fn vested_is_monotone_over_sample_times() {
    let s = schedule(999, 0, 1_000, 300, 7_000, 17);
    let mut prev = 0u64;
    let mut t = 0i64;
    while t < 10_000 {
        let v = calculate_vested(&s, t);
        assert!(v >= prev);
        assert!(v <= s.total_amount);
        prev = v;
        t += 97;
    }
    assert_eq!(calculate_vested(&s, 8_000), 999);
}

#[test]
fn sol_conversion_is_exact() {
    // 10 whole coins at $150 each.
    assert_eq!(sol_to_usd(10_000_000_000, 150_000_000), Ok(1_500_000_000));
    // Floor division: 1 lamport at $150 per coin is worth $0.00000015,
    // which floors to zero USD units.
    assert_eq!(sol_to_usd(1, 150_000_000), Ok(0));
    // An astronomical amount at an astronomical price overflows.
    assert_eq!(sol_to_usd(u64::MAX, u64::MAX), Err(PresaleError::Overflow));
}

#[test]
fn token_amount_includes_bonus() {
    let rc = RoundConfig {
        price: 10_000,
        bonus: 20,
        allocation: u64::MAX,
        sold: 0,
        start_time: 0,
        end_time: 0,
        vesting_cliff: 0,
        vesting_duration: 0,
        immediate_release: 0,
        requires_whitelist: false,
    };
    // $1,500 at $0.01 per token: 150,000 whole tokens plus 20% bonus.
    assert_eq!(calculate_token_amount(1_500_000_000, &rc), Ok(180_000_000_000_000));
    let rc_no_bonus = RoundConfig { bonus: 0, price: 20_000, ..rc };
    assert_eq!(calculate_token_amount(1_500_000_000, &rc_no_bonus), Ok(75_000_000_000_000));
}

#[test]
fn token_amount_overflow_is_an_error() {
    let rc = RoundConfig {
        price: 1,
        bonus: 100,
        allocation: u64::MAX,
        sold: 0,
        start_time: 0,
        end_time: 0,
        vesting_cliff: 0,
        vesting_duration: 0,
        immediate_release: 0,
        requires_whitelist: false,
    };
    // u64::MAX USD at one USD-unit per token and a 10^9 scale cannot fit.
    assert_eq!(calculate_token_amount(u64::MAX, &rc), Err(PresaleError::Overflow));
}
