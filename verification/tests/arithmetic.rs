use bitlab_presale::constants::{
    assert_pubkey_set, assert_staleness_bounds, bitlab_from_usd_e6, current_round, pow10,
    usd_e6_from_sol, ROUND_DURATION_SECS, ROUND_PRICES_E9,
};
use bitlab_presale::error::PresaleError;
use bitlab_presale::key::Key;

#[test]
fn rounds_follow_the_weekly_schedule() {
    let start = 1_800_000_000i64;
    for k in 0..10i64 {
        assert_eq!(current_round(start + k * ROUND_DURATION_SECS, start), Ok(k as u8));
        assert_eq!(current_round(start + (k + 1) * ROUND_DURATION_SECS - 1, start), Ok(k as u8));
    }
    assert_eq!(current_round(start - 1, start), Err(PresaleError::NotStarted));
    assert_eq!(current_round(start + 10 * ROUND_DURATION_SECS, start), Err(PresaleError::ScheduleEnded));
}

#[test]
fn round_elapsed_time_overflow_is_reported() {
    assert_eq!(current_round(i64::MAX, -10), Err(PresaleError::MathOverflow));
}

#[test]
fn bitlab_conversion_rounds_down() {
    // $10 at round 3 (1.331e-3 $/BITLAB): 10e6 * 1e9 / 1_331_000 = 7_513_148_009.01...
    assert_eq!(bitlab_from_usd_e6(10_000_000, 1_331_000), Ok(7_513_148_009));
    assert_eq!(bitlab_from_usd_e6(10_000_000, 0), Err(PresaleError::ZeroPrice));
    assert_eq!(bitlab_from_usd_e6(u64::MAX, 1), Err(PresaleError::MathOverflow));
    assert_eq!(bitlab_from_usd_e6(0, 1_000_000), Ok(0));
}

#[test]
fn sol_conversion_edge_cases() {
    // expo -9 divides by 10^12.
    assert_eq!(usd_e6_from_sol(2_000_000_000, 150_000_000_000, -9), Ok(300_000_000));
    // expo -10 divides by 10^13.
    assert_eq!(usd_e6_from_sol(2_000_000_000, 150_000_000_000, -10), Ok(30_000_000));
    assert_eq!(usd_e6_from_sol(1_000_000_000, 15_000_000_000, -10), Ok(1_500_000));
    // expo -12 divides by 10^15.
    assert_eq!(usd_e6_from_sol(1_000_000_000, 15_000_000_000_000, -12), Ok(15_000_000));
    // expo 0 divides by 10^3.
    assert_eq!(usd_e6_from_sol(1_000, 150, 0), Ok(150));
    // A dust payment is worth nothing.
    assert_eq!(usd_e6_from_sol(1, 15_000_000_000, -8), Err(PresaleError::ZeroPayment));
    // A value beyond u64 is refused.
    assert_eq!(usd_e6_from_sol(u64::MAX, i64::MAX, 0), Err(PresaleError::MathOverflow));
}

#[test]
fn powers_of_ten() {
    assert_eq!(pow10(0), Ok(1));
    assert_eq!(pow10(11), Ok(100_000_000_000));
    assert_eq!(pow10(12), Ok(1_000_000_000_000));
    assert_eq!(pow10(13), Err(PresaleError::InvalidOracle));
}

#[test]
fn staleness_window_bounds() {
    assert_eq!(assert_staleness_bounds(15), Ok(15));
    assert_eq!(assert_staleness_bounds(300), Ok(300));
    assert_eq!(assert_staleness_bounds(14), Err(PresaleError::OracleStalenessBounds));
    assert_eq!(assert_staleness_bounds(301), Err(PresaleError::OracleStalenessBounds));
}

#[test]
fn unset_keys_are_refused() {
    assert_eq!(assert_pubkey_set(&Key::default_key()), Err(PresaleError::InvalidAuthority));
    assert_eq!(assert_pubkey_set(&Key { w0: 0, w1: 0, w2: 0, w3: 1 }), Ok(()));
}

#[test]
fn price_schedule_grows_ten_percent_per_round() {
    // |price_i * 10^i - 10^6 * 11^i| <= 10^i / 2
    let mut ten: u128 = 1;
    let mut eleven: u128 = 1;
    for i in 0..10 {
        let scaled = ROUND_PRICES_E9[i] as u128 * ten;
        let exact = 1_000_000u128 * eleven;
        let diff = if scaled > exact { scaled - exact } else { exact - scaled };
        assert!(2 * diff <= ten, "round {}", i);
        ten *= 10;
        eleven *= 11;
    }
}
