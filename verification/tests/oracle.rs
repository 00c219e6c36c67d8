use bitlab_presale::constants::{pyth_program, pyth_sol_usd, usdc_mint};
use bitlab_presale::error::PresaleError;
use bitlab_presale::oracle::{
    read_i32_at, read_i64_at, read_pyth_price, read_u32_at, read_u64_at, OracleAccount,
};

struct Quote {
    expo: i32,
    valid_slot: u64,
    ts: i64,
    price: i64,
    conf: u64,
    status: u32,
}

fn quote() -> Quote {
    Quote { expo: -8, valid_slot: 1_000, ts: 1_800_000_000, price: 15_000_000_000, conf: 10_000_000, status: 1 }
}

fn data(q: &Quote) -> Vec<u8> {
    let mut d = vec![0u8; 240];
    d[0..4].copy_from_slice(&0xa1b2c3d4u32.to_le_bytes());
    d[8..12].copy_from_slice(&3u32.to_le_bytes());
    d[20..24].copy_from_slice(&q.expo.to_le_bytes());
    d[40..48].copy_from_slice(&q.valid_slot.to_le_bytes());
    d[96..104].copy_from_slice(&q.ts.to_le_bytes());
    d[208..216].copy_from_slice(&q.price.to_le_bytes());
    d[216..224].copy_from_slice(&q.conf.to_le_bytes());
    d[224..228].copy_from_slice(&q.status.to_le_bytes());
    d
}

fn account(q: &Quote) -> OracleAccount {
    OracleAccount { key: pyth_sol_usd(), owner: pyth_program(), data: data(q) }
}

#[test]
fn reads_little_endian_fields() {
    let d = vec![0xff, 0xff, 0xff, 0xff, 0x01, 0x02, 0x03, 0x04, 0x05, 0x06, 0x07, 0x88];
    assert_eq!(read_u32_at(&d, 0), Ok(u32::MAX));
    assert_eq!(read_i32_at(&d, 0), Ok(-1));
    assert_eq!(read_u32_at(&d, 4), Ok(0x04030201));
    assert_eq!(read_u64_at(&d, 4), Ok(0x8807060504030201));
    assert_eq!(read_i64_at(&d, 4), Ok(0x8807060504030201u64 as i64));
    assert_eq!(read_i64_at(&d, 5), Err(PresaleError::InvalidOracle));
    assert_eq!(read_u32_at(&d, 9), Err(PresaleError::InvalidOracle));
    assert_eq!(read_i32_at(&d, 8), Ok(i32::from_le_bytes([0x05, 0x06, 0x07, 0x88])));
}

#[test]
fn accepts_a_fresh_trading_quote() {
    let q = quote();
    let r = read_pyth_price(&account(&q), 1_800_000_030, 1_050, 60);
    assert_eq!(r, Ok((15_000_000_000, -8, 1_800_000_000)));
}

#[test]
fn refuses_the_wrong_account() {
    let q = quote();
    let mut a = account(&q);
    a.owner = usdc_mint();
    assert_eq!(read_pyth_price(&a, 1_800_000_030, 1_050, 60), Err(PresaleError::InvalidOracle));
    let mut b = account(&q);
    b.key = usdc_mint();
    assert_eq!(read_pyth_price(&b, 1_800_000_030, 1_050, 60), Err(PresaleError::InvalidOracle));
    let mut c = account(&q);
    c.data.truncate(239);
    assert_eq!(read_pyth_price(&c, 1_800_000_030, 1_050, 60), Err(PresaleError::InvalidOracle));
    let mut d = account(&q);
    d.data[0] = 0;
    assert_eq!(read_pyth_price(&d, 1_800_000_030, 1_050, 60), Err(PresaleError::InvalidOracle));
    let mut e = account(&q);
    e.data[8] = 2;
    assert_eq!(read_pyth_price(&e, 1_800_000_030, 1_050, 60), Err(PresaleError::InvalidOracle));
}

#[test]
fn refuses_a_quote_not_trading() {
    let mut q = quote();
    q.status = 2;
    assert_eq!(read_pyth_price(&account(&q), 1_800_000_030, 1_050, 60), Err(PresaleError::InvalidOracleStatus));
}

#[test]
fn refuses_bad_price_or_exponent() {
    let mut q = quote();
    q.price = 0;
    assert_eq!(read_pyth_price(&account(&q), 1_800_000_030, 1_050, 60), Err(PresaleError::InvalidOracle));
    let mut q = quote();
    q.expo = 1;
    assert_eq!(read_pyth_price(&account(&q), 1_800_000_030, 1_050, 60), Err(PresaleError::InvalidOracle));
    let mut q = quote();
    q.expo = -13;
    assert_eq!(read_pyth_price(&account(&q), 1_800_000_030, 1_050, 60), Err(PresaleError::InvalidOracle));
}

#[test]
fn confidence_is_capped_at_ten_percent() {
    let mut q = quote();
    // 10% exactly: 1000 bps.
    q.conf = 1_500_000_000;
    assert!(read_pyth_price(&account(&q), 1_800_000_030, 1_050, 60).is_ok());
    // 1001 bps.
    q.conf = 1_501_500_000;
    assert_eq!(read_pyth_price(&account(&q), 1_800_000_030, 1_050, 60), Err(PresaleError::OracleConfidence));
}

#[test]
fn stale_quotes_are_refused() {
    let q = quote();
    // 61 seconds old with a 60 second window.
    assert_eq!(read_pyth_price(&account(&q), 1_800_000_061, 1_050, 60), Err(PresaleError::StaleOracle));
    // exactly 60 seconds old is fine.
    assert!(read_pyth_price(&account(&q), 1_800_000_060, 1_050, 60).is_ok());
    // slot before the quote's slot.
    assert_eq!(read_pyth_price(&account(&q), 1_800_000_030, 999, 60), Err(PresaleError::StaleOracle));
    // slot lag 180 allowed (3 * 60), 181 not.
    assert!(read_pyth_price(&account(&q), 1_800_000_030, 1_180, 60).is_ok());
    assert_eq!(read_pyth_price(&account(&q), 1_800_000_030, 1_181, 60), Err(PresaleError::StaleOracle));
    // never fewer than 25 slots of lag.
    assert!(read_pyth_price(&account(&q), 1_800_000_000, 1_025, 5).is_ok());
    assert_eq!(read_pyth_price(&account(&q), 1_800_000_000, 1_026, 5), Err(PresaleError::StaleOracle));
}
