use anchor_lang::prelude::Pubkey;
use primitive_protocol::admin::create_fund;
use primitive_protocol::error::PrimitiveError;
use primitive_protocol::reward::{accrue, calculate_loyalty_score, calculate_yield, seconds_between};
use primitive_protocol::state::User;

const YEAR: i64 = 31_536_000;

fn position(stake: u64, tier: u8, since: i64) -> User {
    User {
        wallet: Pubkey::new_from_array([7u8; 32]),
        current_stake: stake,
        tier,
        fund_id: 1,
        staked_at: since,
        last_claim: since,
        loyalty_score: 0,
        is_active: true,
    }
}

#[test]
fn ten_percent_for_one_year_is_a_tenth_of_the_stake() {
    let fund = create_fund(1, 10, 10, 20, 30, 0);
    let user = position(1_000_000, 1, 0);
    assert_eq!(calculate_yield(&user, &fund, YEAR), Ok(100_000));
}

#[test]
fn rate_of_one_thousand_for_one_year_is_ten_times_the_stake() {
    let fund = create_fund(1, 10, 1000, 2000, 3000, 0);
    let user = position(1_000_000, 1, 0);
    assert_eq!(calculate_yield(&user, &fund, YEAR), Ok(10_000_000));
}

#[test]
fn each_tier_earns_at_its_own_rate() {
    let fund = create_fund(1, 10, 500, 1000, 1500, 0);
    assert_eq!(calculate_yield(&position(1_000_000, 1, 0), &fund, YEAR), Ok(5_000_000));
    assert_eq!(calculate_yield(&position(1_000_000, 2, 0), &fund, YEAR), Ok(10_000_000));
    assert_eq!(calculate_yield(&position(1_000_000, 3, 0), &fund, YEAR), Ok(15_000_000));
}

#[test]
fn yield_of_an_unknown_tier_is_refused() {
    let fund = create_fund(1, 10, 500, 1000, 1500, 0);
    assert_eq!(calculate_yield(&position(1_000_000, 0, 0), &fund, YEAR), Err(PrimitiveError::InvalidTier));
    assert_eq!(calculate_yield(&position(1_000_000, 4, 0), &fund, YEAR), Err(PrimitiveError::InvalidTier));
    assert_eq!(calculate_yield(&position(1_000_000, 255, 0), &fund, YEAR), Err(PrimitiveError::InvalidTier));
}

#[test]
fn yield_is_rounded_down() {
    // 1_000_000 * 10 * 86_400 / 3_153_600_000 = 273.97...
    assert_eq!(accrue(1_000_000, 10, 86_400), 273);
    // one unit short of a whole token
    assert_eq!(accrue(3_153_599_999, 1, 1), 0);
    assert_eq!(accrue(3_153_600_000, 1, 1), 1);
    assert_eq!(accrue(1, 1, 3_153_599_999), 0);
    assert_eq!(accrue(1, 1, 3_153_600_000), 1);
}

#[test]
fn nothing_accrues_in_no_time_or_on_nothing() {
    assert_eq!(accrue(u64::MAX, u16::MAX, 0), 0);
    assert_eq!(accrue(0, u16::MAX, u64::MAX), 0);
    assert_eq!(accrue(u64::MAX, 0, u64::MAX), 0);
}

#[test]
fn yield_beyond_sixty_four_bits_is_capped() {
    assert_eq!(accrue(u64::MAX, u16::MAX, u64::MAX), u64::MAX);
    // a hundred percent for a year is the stake itself, two hundred is too much
    assert_eq!(accrue(u64::MAX - 1, 100, 31_536_000), u64::MAX - 1);
    assert_eq!(accrue(u64::MAX, 200, 31_536_000), u64::MAX);
    // u64::MAX at one percent for a year: a hundredth of it, rounded down
    assert_eq!(accrue(u64::MAX, 1, 31_536_000), 184_467_440_737_095_516);
}

#[test]
fn large_products_are_exact() {
    // 2^63 * 7 * (2 * 3_153_600_000 + 5) / 3_153_600_000 is far beyond 64 bits
    assert_eq!(accrue(1 << 63, 7, 2 * 3_153_600_000 + 5), u64::MAX);
    // 10^12 * 65_535 * 4_000_000_000 / 3_153_600_000, rounded down
    assert_eq!(accrue(1_000_000_000_000, 65_535, 4_000_000_000), 83_124_048_706_240_487);
}

#[test]
fn a_clock_that_ran_backwards_counts_as_no_time() {
    let fund = create_fund(1, 10, 500, 1000, 1500, 0);
    let user = position(1_000_000, 1, 1_000);
    assert_eq!(calculate_yield(&user, &fund, 999), Ok(0));
    assert_eq!(calculate_yield(&user, &fund, i64::MIN), Ok(0));
    assert_eq!(seconds_between(5, 5), 0);
    assert_eq!(seconds_between(5, 4), 0);
    assert_eq!(seconds_between(4, 5), 1);
}

#[test]
fn elapsed_time_spans_the_whole_clock_range() {
    assert_eq!(seconds_between(i64::MIN, i64::MAX), u64::MAX);
    assert_eq!(seconds_between(-1, i64::MAX), 1u64 << 63);
}

#[test]
fn loyalty_of_a_fresh_stake_counts_millions_only() {
    let user = position(0, 1, 500);
    assert_eq!(calculate_loyalty_score(&user, 5_999_999, 500), 5);
    assert_eq!(calculate_loyalty_score(&user, 999_999, 500), 0);
    assert_eq!(calculate_loyalty_score(&user, 1_000_000, 500), 1);
}

#[test]
fn loyalty_counts_ten_points_a_full_day() {
    let user = position(0, 1, 0);
    assert_eq!(calculate_loyalty_score(&user, 3_000_000, 86_399), 3);
    assert_eq!(calculate_loyalty_score(&user, 3_000_000, 86_400), 13);
    assert_eq!(calculate_loyalty_score(&user, 3_000_000, 3 * 86_400 + 17), 33);
    assert_eq!(calculate_loyalty_score(&user, 0, -86_400), 0);
}

#[test]
fn loyalty_of_the_longest_hold_and_largest_stake_fits() {
    let user = position(0, 1, i64::MIN);
    // (2^64 - 1) / 86_400 = 213_503_982_334_601 days, (2^64 - 1) / 10^6 millions
    assert_eq!(
        calculate_loyalty_score(&user, u64::MAX, i64::MAX),
        2_135_039_823_346_010 + 18_446_744_073_709
    );
}

#[test]
fn a_year_pays_the_rate_in_percent_of_the_stake() {
    for (stake, apy) in [(1u64, 1u16), (99, 1), (100, 1), (12_345, 7), (1_000_000, 1000), (u64::MAX / 70_000, 65_535)] {
        let expected = (stake as u128 * apy as u128 / 100) as u64;
        assert_eq!(accrue(stake, apy, 31_536_000), expected);
    }
    assert_eq!(accrue(99, 1, 31_536_000), 0);
    assert_eq!(accrue(12_345, 7, 31_536_000), 864);
}
