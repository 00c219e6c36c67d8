//! Fixed parameters of the sale, and the arithmetic of its schedule and prices.

use vstd::prelude::*;
use crate::error::PresaleError;
use crate::key::Key;

verus! {

pub const ROUND_COUNT: u8 = 10;
pub const ROUND_DURATION_SECS: i64 = 7 * 24 * 60 * 60;
#[verifier::nonlinear]
pub const SALE_DURATION_SECS: i64 = ROUND_DURATION_SECS * ROUND_COUNT as i64;

/// $0.001 * 1e9, then +10% each round (integer, matching the public schedule).
pub const ROUND_PRICES_E9: [u64; 10] = [
    1_000_000,
    1_100_000,
    1_210_000,
    1_331_000,
    1_464_100,
    1_610_510,
    1_771_561,
    1_948_717,
    2_143_589,
    2_357_948,
];

pub const PRICE_SCALE_E9: u128 = 1_000_000_000;
pub const PRESALE_ALLOCATION: u64 = 7_500_000_000_000_000;
pub const BITLAB_DECIMALS: u8 = 6;
pub const STABLE_DECIMALS: u8 = 6;
pub const SOL_DECIMALS: i32 = 9;

pub const DEFAULT_MIN_PURCHASE_USD_E6: u64 = 10_000_000;
pub const DEFAULT_MAX_PURCHASE_USD_E6: u64 = 100_000_000_000;
pub const DEFAULT_MAX_WALLET_USD_E6: u64 = 500_000_000_000;
pub const DEFAULT_ORACLE_STALENESS_SECS: i64 = 60;
/// Lower bound prevents a 1-second window that DoS-es SOL buys on clock skew.
pub const ORACLE_STALENESS_MIN_SECS: i64 = 15;
/// Upper bound prevents "any stale price is fine" misconfiguration.
pub const ORACLE_STALENESS_MAX_SECS: i64 = 300;

pub const PYTH_MAGIC: u32 = 0xa1b2c3d4;
pub const PYTH_PRICE_ACCOUNT_TYPE: u32 = 3;
pub const PYTH_STATUS_TRADING: u32 = 1;
/// Reject SOL quotes when confidence is worse than 10% of price.
pub const PYTH_MAX_CONF_BPS: u64 = 1_000;

/// Layout matches pyth-client-js `parsePriceData` / C `pc_price_t` on Solana mainnet.
/// Do not use prev_price (offset 184) — that is the previous aggregate, not the live one.
pub const PYTH_OFF_MAGIC: usize = 0;
pub const PYTH_OFF_ATYPE: usize = 8;
pub const PYTH_OFF_EXPO: usize = 20;
pub const PYTH_OFF_VALID_SLOT: usize = 40;
pub const PYTH_OFF_TIMESTAMP: usize = 96;
pub const PYTH_OFF_AGG_PRICE: usize = 208;
pub const PYTH_OFF_AGG_CONF: usize = 216;
pub const PYTH_OFF_AGG_STATUS: usize = 224;
pub const PYTH_MIN_LEN: usize = 240;

/// `10^n`.
pub open spec fn ten_pow(n: nat) -> nat
    decreases n,
{
    if n == 0 {
        1
    } else {
        10 * ten_pow((n - 1) as nat)
    }
}

/// The round (counted from 0) in which `now` falls for a sale started at `start`.
pub open spec fn spec_current_round(now: i64, start: i64) -> Result<u8, PresaleError> {
    if now < start {
        Err(PresaleError::NotStarted)
    } else if now - start > i64::MAX {
        Err(PresaleError::MathOverflow)
    } else if now - start >= SALE_DURATION_SECS {
        Err(PresaleError::ScheduleEnded)
    } else {
        Ok(((now - start) / (ROUND_DURATION_SECS as int)) as u8)
    }
}

/// Which round of the sale `now` falls in: rounds are consecutive windows of
/// `ROUND_DURATION_SECS` starting at `start`, and there are `ROUND_COUNT` of them.
pub fn current_round(now: i64, start: i64) -> (r: Result<u8, PresaleError>)
    ensures
        r == spec_current_round(now, start),
        r matches Ok(k) ==> {
            &&& k < ROUND_COUNT
            &&& start + k * ROUND_DURATION_SECS <= now < start + (k + 1) * ROUND_DURATION_SECS
        },
{
    if !(now >= start) {
        return Err(PresaleError::NotStarted);
    }
    let elapsed = match now.checked_sub(start) {
        Some(e) => e,
        None => return Err(PresaleError::MathOverflow),
    };
    if !(elapsed < SALE_DURATION_SECS) {
        return Err(PresaleError::ScheduleEnded);
    }
    let k: i64 = elapsed / ROUND_DURATION_SECS;
    assert(k < 10) by (nonlinear_arith)
        requires
            0 <= elapsed < 6048000,
            k == elapsed / 604800,
    ;
    assert(k * 604800 <= elapsed < (k + 1) * 604800) by (nonlinear_arith)
        requires
            0 <= elapsed,
            k == elapsed / 604800,
    ;
    Ok(k as u8)
}

/// BITLAB base units bought by `usd_e6` micro-dollars at `price_e9` nano-dollars
/// per BITLAB: `usd_e6 * 10^9 / price_e9`, rounded down.
pub open spec fn spec_bitlab_from_usd_e6(usd_e6: u64, price_e9: u64) -> Result<u64, PresaleError> {
    if price_e9 == 0 {
        Err(PresaleError::ZeroPrice)
    } else if usd_e6 * PRICE_SCALE_E9 / (price_e9 as int) > u64::MAX {
        Err(PresaleError::MathOverflow)
    } else {
        Ok((usd_e6 * PRICE_SCALE_E9 / (price_e9 as int)) as u64)
    }
}

pub fn bitlab_from_usd_e6(usd_e6: u64, price_e9: u64) -> (r: Result<u64, PresaleError>)
    ensures
        r == spec_bitlab_from_usd_e6(usd_e6, price_e9),
        r matches Ok(b) ==> b * price_e9 <= usd_e6 * PRICE_SCALE_E9 < (b + 1) * price_e9,
{
    if !(price_e9 > 0) {
        return Err(PresaleError::ZeroPrice);
    }
    assert((usd_e6 as u128) * 1_000_000_000u128 <= u128::MAX) by (nonlinear_arith)
        requires
            usd_e6 <= u64::MAX,
    ;
    let scaled = match (usd_e6 as u128).checked_mul(PRICE_SCALE_E9) {
        Some(v) => v,
        None => return Err(PresaleError::MathOverflow),
    };
    let raw = match scaled.checked_div(price_e9 as u128) {
        Some(v) => v,
        None => return Err(PresaleError::MathOverflow),
    };
    if raw > u64::MAX as u128 {
        return Err(PresaleError::MathOverflow);
    }
    assert(raw * price_e9 <= scaled < (raw + 1) * price_e9) by (nonlinear_arith)
        requires
            price_e9 > 0,
            raw == scaled / (price_e9 as u128),
    ;
    Ok(raw as u64)
}

/// Micro-dollars worth `lamports` at a Pyth SOL/USD quote `pyth_price * 10^pyth_expo`:
/// `lamports * pyth_price / 10^(SOL_DECIMALS - STABLE_DECIMALS - pyth_expo)`,
/// for a positive price and an exponent in `-12..=0`.
pub open spec fn spec_usd_e6_from_sol(lamports: u64, pyth_price: i64, pyth_expo: i32) -> Result<u64, PresaleError> {
    if pyth_price <= 0 {
        Err(PresaleError::InvalidOracle)
    } else if pyth_expo > 0 || pyth_expo < -12 {
        Err(PresaleError::InvalidOracle)
    } else {
        let usd = lamports * pyth_price / (ten_pow((SOL_DECIMALS - STABLE_DECIMALS - pyth_expo) as nat) as int);
        if usd == 0 {
            Err(PresaleError::ZeroPayment)
        } else if usd > u64::MAX {
            Err(PresaleError::MathOverflow)
        } else {
            Ok(usd as u64)
        }
    }
}


/// A SOL value is `lamports * price / 10^(3 - expo)`, and is never zero.
pub proof fn lemma_usd_e6_from_sol_value(lamports: u64, pyth_price: i64, pyth_expo: i32)
    ensures
        spec_usd_e6_from_sol(lamports, pyth_price, pyth_expo) matches Ok(v) ==> {
            &&& v > 0
            &&& v as int == lamports * pyth_price / (ten_pow((3 - pyth_expo) as nat) as int)
        },
{
    assert(SOL_DECIMALS == 9);
    assert(STABLE_DECIMALS == 6);
    if spec_usd_e6_from_sol(lamports, pyth_price, pyth_expo) is Ok {
        let usd = lamports * pyth_price / (ten_pow((SOL_DECIMALS - STABLE_DECIMALS - pyth_expo) as nat) as int);
        let t = ten_pow((SOL_DECIMALS - STABLE_DECIMALS - pyth_expo) as nat) as int;
        lemma_ten_pow_bounds((SOL_DECIMALS - STABLE_DECIMALS - pyth_expo) as nat);
        assert(lamports * pyth_price / t >= 0) by (nonlinear_arith)
            requires
                lamports >= 0,
                pyth_price > 0,
                t >= 1,
        ;
        assert(usd != 0 && usd <= u64::MAX);
        assert((SOL_DECIMALS - STABLE_DECIMALS - pyth_expo) as nat == (3 - pyth_expo) as nat);
    }
}

pub proof fn lemma_ten_pow_bounds(n: nat)
    requires
        n <= 15,
    ensures
        1 <= ten_pow(n) <= 1_000_000_000_000_000,
{
    reveal_with_fuel(ten_pow, 16);
}

/// `10^exp` for the exponents a SOL conversion needs (up to 15).
fn ten_to(exp: u32) -> (r: u128)
    requires
        exp <= 15,
    ensures
        r == ten_pow(exp as nat),
{
    let mut v: u128 = 1;
    let mut i: u32 = 0;
    while i < exp
        invariant
            i <= exp <= 15,
            v == ten_pow(i as nat),
        decreases exp - i,
    {
        proof {
            lemma_ten_pow_bounds(i as nat);
        }
        v = v * 10;
        i = i + 1;
    }
    v
}

/// usd_e6 = lamports * pyth_price / 10^(sol_decimals - stable_decimals - expo)
/// expo is typically -8 → divide by 10^11.
pub fn usd_e6_from_sol(lamports: u64, pyth_price: i64, pyth_expo: i32) -> (r: Result<u64, PresaleError>)
    ensures
        r == spec_usd_e6_from_sol(lamports, pyth_price, pyth_expo),
{
    if !(pyth_price > 0) {
        return Err(PresaleError::InvalidOracle);
    }
    if !(pyth_expo <= 0 && pyth_expo >= -12) {
        return Err(PresaleError::InvalidOracle);
    }
    // With SOL_DECIMALS = 9 and STABLE_DECIMALS = 6 the exponent of ten lies in
    // -15..=-3, so the quote is always divided down.
    let exp: i32 = pyth_expo + (STABLE_DECIMALS as i32) - SOL_DECIMALS;
    let price: u128 = pyth_price as u128;
    let lamports: u128 = lamports as u128;
    assert(lamports * price <= u128::MAX) by (nonlinear_arith)
        requires
            lamports <= u64::MAX,
            price <= i64::MAX,
    ;
    let base = match lamports.checked_mul(price) {
        Some(v) => v,
        None => return Err(PresaleError::MathOverflow),
    };
    let scale = ten_to((-exp) as u32);
    proof {
        lemma_ten_pow_bounds((-exp) as nat);
    }
    let usd: u128 = match base.checked_div(scale) {
        Some(v) => v,
        None => return Err(PresaleError::MathOverflow),
    };
    if !(usd > 0) {
        return Err(PresaleError::ZeroPayment);
    }
    if usd > u64::MAX as u128 {
        return Err(PresaleError::MathOverflow);
    }
    Ok(usd as u64)
}

/// `10^exp`, for exponents up to 12.
pub fn pow10(exp: u32) -> (r: Result<u128, PresaleError>)
    ensures
        exp > 12 ==> r == Err::<u128, PresaleError>(PresaleError::InvalidOracle),
        exp <= 12 ==> r == Ok::<u128, PresaleError>(ten_pow(exp as nat) as u128),
{
    if !(exp <= 12) {
        return Err(PresaleError::InvalidOracle);
    }
    let mut v: u128 = 1;
    let mut i: u32 = 0;
    while i < exp
        invariant
            i <= exp <= 12,
            v == ten_pow(i as nat),
        decreases exp - i,
    {
        proof {
            lemma_ten_pow_bounds(i as nat);
        }
        v = v * 10;
        i = i + 1;
    }
    Ok(v)
}

/// Refuses the all-zero address.
pub fn assert_pubkey_set(key: &Key) -> (r: Result<(), PresaleError>)
    ensures
        r == (if key.is_default() { Err(PresaleError::InvalidAuthority) } else { Ok::<(), PresaleError>(()) }),
{
    let zero = Key::default_key();
    if !(*key != zero) {
        return Err(PresaleError::InvalidAuthority);
    }
    Ok(())
}

/// Purchase limits must satisfy `1 <= min <= max <= max_wallet`.
pub open spec fn limits_ok(min_usd: u64, max_usd: u64, max_wallet: u64) -> bool {
    1 <= min_usd <= max_usd <= max_wallet
}

pub fn assert_limit_invariant(min_usd: u64, max_usd: u64, max_wallet: u64) -> (r: Result<(), PresaleError>)
    ensures
        r == (if limits_ok(min_usd, max_usd, max_wallet) { Ok::<(), PresaleError>(()) } else { Err(PresaleError::LimitInvariant) }),
{
    if !(min_usd >= 1) {
        return Err(PresaleError::LimitInvariant);
    }
    if !(max_usd >= min_usd) {
        return Err(PresaleError::LimitInvariant);
    }
    if !(max_wallet >= max_usd) {
        return Err(PresaleError::LimitInvariant);
    }
    Ok(())
}

/// An oracle staleness window must lie within the accepted bounds.
pub open spec fn staleness_ok(secs: i64) -> bool {
    ORACLE_STALENESS_MIN_SECS <= secs <= ORACLE_STALENESS_MAX_SECS
}

pub fn assert_staleness_bounds(secs: i64) -> (r: Result<i64, PresaleError>)
    ensures
        r == (if staleness_ok(secs) { Ok::<i64, PresaleError>(secs) } else { Err(PresaleError::OracleStalenessBounds) }),
{
    if !(secs >= ORACLE_STALENESS_MIN_SECS && secs <= ORACLE_STALENESS_MAX_SECS) {
        return Err(PresaleError::OracleStalenessBounds);
    }
    Ok(secs)
}

/// Official mainnet mints / programs. Initialize rejects anything else.
pub open spec fn spec_bitlab_mint() -> Key {
    Key { w0: 0x1da190899a3962a6, w1: 0x23a3bca2c4ef855f, w2: 0xa42efa5af5a82f9b, w3: 0xbdd7c5fb3eae91e0 }
}

/// Mint of the BITLAB token sold by the presale (`CCVYpFakBd4kkwn7G4rvbpaiB5pGJwUpiNwNYrkC5ygQ`).
#[verifier::when_used_as_spec(spec_bitlab_mint)]
pub fn bitlab_mint() -> (k: Key)
    ensures
        k == spec_bitlab_mint(),
{
    Key { w0: 0x1da190899a3962a6, w1: 0x23a3bca2c4ef855f, w2: 0xa42efa5af5a82f9b, w3: 0xbdd7c5fb3eae91e0 }
}

pub open spec fn spec_usdc_mint() -> Key {
    Key { w0: 0x3aaddbbef37afac6, w1: 0x3174c9ab6af3653d, w2: 0xe4e0f6d2c2e4bbb1, w3: 0x615d2f450302a67c }
}

/// Official mainnet USDC mint (`EPjFWdd5AufqSSqeM2qN1xzybapC8G4wEGGkZwyTDt1v`).
#[verifier::when_used_as_spec(spec_usdc_mint)]
pub fn usdc_mint() -> (k: Key)
    ensures
        k == spec_usdc_mint(),
{
    Key { w0: 0x3aaddbbef37afac6, w1: 0x3174c9ab6af3653d, w2: 0xe4e0f6d2c2e4bbb1, w3: 0x615d2f450302a67c }
}

pub open spec fn spec_usdt_mint() -> Key {
    Key { w0: 0x27b2edaf600e01ce, w1: 0x5a14542f1963bd17, w2: 0xc7d282bb335a963f, w3: 0x6482201eceb29e02 }
}

/// Official mainnet USDT mint (`Es9vMFrzaCERmJfrF4H2FYD4KCoNkY11McCe8BenwNYB`).
#[verifier::when_used_as_spec(spec_usdt_mint)]
pub fn usdt_mint() -> (k: Key)
    ensures
        k == spec_usdt_mint(),
{
    Key { w0: 0x27b2edaf600e01ce, w1: 0x5a14542f1963bd17, w2: 0xc7d282bb335a963f, w3: 0x6482201eceb29e02 }
}

pub open spec fn spec_pyth_program() -> Key {
    Key { w0: 0x9f3b9ce4e1ebe5dc, w1: 0x9ea9504c54b54c11, w2: 0x32a56224d392d6c0, w3: 0x27e3fd07113a14bd }
}

/// The Pyth oracle program (`FsJ3A3u2vn5cTVofAjvy6y5kwAB3Aki3PsVaKEP8s4ir`).
#[verifier::when_used_as_spec(spec_pyth_program)]
pub fn pyth_program() -> (k: Key)
    ensures
        k == spec_pyth_program(),
{
    Key { w0: 0x9f3b9ce4e1ebe5dc, w1: 0x9ea9504c54b54c11, w2: 0x32a56224d392d6c0, w3: 0x27e3fd07113a14bd }
}

pub open spec fn spec_pyth_sol_usd() -> Key {
    Key { w0: 0xa4eb2cda6f8b0def, w1: 0x39dad195405da11d, w2: 0xbcc7c6d08e2f0d2a, w3: 0x6db580c2c8fa4c0f }
}

/// The Pyth SOL/USD price account (`H6ARHf6YXhGYeQfUzQNGk6rDNnLBQKrenN712K4AQJEG`).
#[verifier::when_used_as_spec(spec_pyth_sol_usd)]
pub fn pyth_sol_usd() -> (k: Key)
    ensures
        k == spec_pyth_sol_usd(),
{
    Key { w0: 0xa4eb2cda6f8b0def, w1: 0x39dad195405da11d, w2: 0xbcc7c6d08e2f0d2a, w3: 0x6db580c2c8fa4c0f }
}

pub open spec fn spec_spl_token_program() -> Key {
    Key { w0: 0x93a165d7e1f6dd06, w1: 0xac79ebce46e1cbd9, w2: 0x91375b5fed85b41c, w3: 0xa900ff7e85f58c3a }
}

/// The SPL token program (`TokenkegQfeZyiNwAJbNbGKPFXCWuBvf9Ss623VQ5DA`).
#[verifier::when_used_as_spec(spec_spl_token_program)]
pub fn spl_token_program() -> (k: Key)
    ensures
        k == spec_spl_token_program(),
{
    Key { w0: 0x93a165d7e1f6dd06, w1: 0xac79ebce46e1cbd9, w2: 0x91375b5fed85b41c, w3: 0xa900ff7e85f58c3a }
}

pub open spec fn spec_system_program() -> Key {
    Key { w0: 0, w1: 0, w2: 0, w3: 0 }
}

/// The system program (`11111111111111111111111111111111`), the all-zero address.
#[verifier::when_used_as_spec(spec_system_program)]
pub fn system_program() -> (k: Key)
    ensures
        k == spec_system_program(),
{
    Key { w0: 0, w1: 0, w2: 0, w3: 0 }
}

} // verus!
