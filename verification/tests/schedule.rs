use bitlab_presale::constants::{
    assert_limit_invariant, bitlab_from_usd_e6, current_round, usd_e6_from_sol, PYTH_OFF_AGG_CONF,
    PYTH_OFF_AGG_PRICE, PYTH_OFF_AGG_STATUS, PYTH_OFF_TIMESTAMP, PYTH_OFF_VALID_SLOT,
    ROUND_DURATION_SECS, SALE_DURATION_SECS,
};

#[test]
fn ten_dollars_at_round_one_is_ten_thousand_bitlab() {
    let raw = bitlab_from_usd_e6(10_000_000, 1_000_000).unwrap();
    assert_eq!(raw, 10_000_000_000); // 10,000 * 1e6
}

#[test]
fn one_sol_at_150_usd() {
    // price 150 with expo -8 → 150 * 10^8
    let usd = usd_e6_from_sol(1_000_000_000, 15_000_000_000, -8).unwrap();
    assert_eq!(usd, 150_000_000);
}

#[test]
fn rejects_zero_and_negative_oracle_price() {
    assert!(usd_e6_from_sol(1_000_000_000, 0, -8).is_err());
    assert!(usd_e6_from_sol(1_000_000_000, -1, -8).is_err());
}

#[test]
fn rejects_wild_expo() {
    assert!(usd_e6_from_sol(1_000_000_000, 15_000_000_000, -13).is_err());
    assert!(usd_e6_from_sol(1_000_000_000, 15_000_000_000, 1).is_err());
}

#[test]
fn round_window() {
    let start = 1_800_000_000;
    assert_eq!(current_round(start, start).unwrap(), 0);
    assert_eq!(current_round(start + ROUND_DURATION_SECS - 1, start).unwrap(), 0);
    assert_eq!(current_round(start + ROUND_DURATION_SECS, start).unwrap(), 1);
    assert_eq!(current_round(start + SALE_DURATION_SECS - 1, start).unwrap(), 9);
    assert!(current_round(start + SALE_DURATION_SECS, start).is_err());
    assert!(current_round(start - 1, start).is_err());
}

#[test]
fn limit_invariant() {
    assert!(assert_limit_invariant(1, 1, 1).is_ok());
    assert!(assert_limit_invariant(0, 1, 1).is_err());
    assert!(assert_limit_invariant(2, 1, 2).is_err());
    assert!(assert_limit_invariant(1, 5, 4).is_err());
}

#[test]
fn pyth_offsets_match_pyth_client_js() {
    assert_eq!(PYTH_OFF_AGG_PRICE, 208);
    assert_eq!(PYTH_OFF_AGG_CONF, 216);
    assert_eq!(PYTH_OFF_AGG_STATUS, 224);
    assert_eq!(PYTH_OFF_TIMESTAMP, 96);
    assert_eq!(PYTH_OFF_VALID_SLOT, 40);
}
