//! Reading the live SOL/USD quote out of a Pyth price account.

use vstd::prelude::*;
use crate::bytes::{le_at, le_i32_at, le_i64_at, lemma_le_value_bound, lemma_pow256_values, read_le};
use crate::constants::{
    pyth_program, pyth_sol_usd, spec_pyth_program, spec_pyth_sol_usd, PYTH_MAGIC, PYTH_MAX_CONF_BPS,
    PYTH_MIN_LEN, PYTH_OFF_AGG_CONF, PYTH_OFF_AGG_PRICE, PYTH_OFF_AGG_STATUS, PYTH_OFF_ATYPE,
    PYTH_OFF_EXPO, PYTH_OFF_MAGIC, PYTH_OFF_TIMESTAMP, PYTH_OFF_VALID_SLOT,
    PYTH_PRICE_ACCOUNT_TYPE, PYTH_STATUS_TRADING,
};
use crate::error::PresaleError;
use crate::key::Key;

verus! {

/// What the presale reads of an oracle account: its address, the program that
/// owns it, and its data.
pub struct OracleAccount {
    pub key: Key,
    pub owner: Key,
    pub data: Vec<u8>,
}

/// `a - b`, clamped to the range of `i64`.
pub open spec fn sat_sub_i64(a: i64, b: i64) -> int {
    if a - b > i64::MAX {
        i64::MAX as int
    } else if a - b < i64::MIN {
        i64::MIN as int
    } else {
        a - b
    }
}

/// The `u64` with the same 64 bits as `x`.
pub open spec fn bits_as_u64(x: i64) -> nat {
    if x >= 0 {
        x as nat
    } else {
        (x + 0x1_0000_0000_0000_0000) as nat
    }
}

/// The largest slot lag accepted for a staleness window of `max_staleness_secs`:
/// three slots per second (saturating), and never fewer than 25.
pub open spec fn max_slot_lag(max_staleness_secs: i64) -> nat {
    let tripled = if bits_as_u64(max_staleness_secs) * 3 > u64::MAX {
        u64::MAX as nat
    } else {
        bits_as_u64(max_staleness_secs) * 3
    };
    if tripled > 25 {
        tripled
    } else {
        25
    }
}

/// Confidence interval in basis points of the price.
pub open spec fn conf_bps(conf: nat, price: int) -> int {
    (conf as int) * 10_000 / price
}

pub open spec fn spec_read_u32_at(data: Seq<u8>, off: int) -> Result<u32, PresaleError> {
    if off + 4 <= data.len() {
        Ok(le_at(data, off, 4) as u32)
    } else {
        Err(PresaleError::InvalidOracle)
    }
}

pub open spec fn spec_read_i32_at(data: Seq<u8>, off: int) -> Result<i32, PresaleError> {
    if off + 4 <= data.len() {
        Ok(le_i32_at(data, off) as i32)
    } else {
        Err(PresaleError::InvalidOracle)
    }
}

pub open spec fn spec_read_u64_at(data: Seq<u8>, off: int) -> Result<u64, PresaleError> {
    if off + 8 <= data.len() {
        Ok(le_at(data, off, 8) as u64)
    } else {
        Err(PresaleError::InvalidOracle)
    }
}

pub open spec fn spec_read_i64_at(data: Seq<u8>, off: int) -> Result<i64, PresaleError> {
    if off + 8 <= data.len() {
        Ok(le_i64_at(data, off) as i64)
    } else {
        Err(PresaleError::InvalidOracle)
    }
}

/// Reads a little-endian `u32` at `off`.
pub fn read_u32_at(data: &[u8], off: usize) -> (r: Result<u32, PresaleError>)
    requires
        off + 4 <= usize::MAX,
    ensures
        r == spec_read_u32_at(data@, off as int),
{
    if !(off + 4 <= data.len()) {
        return Err(PresaleError::InvalidOracle);
    }
    let v = read_le(data, off, 4);
    proof {
        lemma_le_value_bound(data@.subrange(off as int, off + 4));
        lemma_pow256_values();
    }
    Ok(v as u32)
}

/// Reads a little-endian two's complement `i32` at `off`.
pub fn read_i32_at(data: &[u8], off: usize) -> (r: Result<i32, PresaleError>)
    requires
        off + 4 <= usize::MAX,
    ensures
        r == spec_read_i32_at(data@, off as int),
{
    if !(off + 4 <= data.len()) {
        return Err(PresaleError::InvalidOracle);
    }
    let v = read_le(data, off, 4);
    proof {
        lemma_le_value_bound(data@.subrange(off as int, off + 4));
        lemma_pow256_values();
    }
    if v >= 0x8000_0000 {
        Ok((v as i64 - 0x1_0000_0000i64) as i32)
    } else {
        Ok(v as i32)
    }
}

/// Reads a little-endian `u64` at `off`.
pub fn read_u64_at(data: &[u8], off: usize) -> (r: Result<u64, PresaleError>)
    requires
        off + 8 <= usize::MAX,
    ensures
        r == spec_read_u64_at(data@, off as int),
{
    if !(off + 8 <= data.len()) {
        return Err(PresaleError::InvalidOracle);
    }
    let v = read_le(data, off, 8);
    Ok(v)
}

/// Reads a little-endian two's complement `i64` at `off`.
pub fn read_i64_at(data: &[u8], off: usize) -> (r: Result<i64, PresaleError>)
    requires
        off + 8 <= usize::MAX,
    ensures
        r == spec_read_i64_at(data@, off as int),
{
    if !(off + 8 <= data.len()) {
        return Err(PresaleError::InvalidOracle);
    }
    let v = read_le(data, off, 8);
    if v >= 0x8000_0000_0000_0000 {
        let low: u64 = v - 0x8000_0000_0000_0000;
        Ok((low as i64) + i64::MIN)
    } else {
        Ok(v as i64)
    }
}

/// The outcome of reading the live aggregate quote `(price, expo, publish_time)`
/// from the oracle account `(owner, key, data)` at time `now` and slot `slot`.
pub open spec fn spec_read_pyth_price(
    owner: Key,
    key: Key,
    data: Seq<u8>,
    now: i64,
    slot: u64,
    max_staleness_secs: i64,
) -> Result<(i64, i32, i64), PresaleError> {
    let magic = le_at(data, PYTH_OFF_MAGIC as int, 4);
    let atype = le_at(data, PYTH_OFF_ATYPE as int, 4);
    let expo = le_i32_at(data, PYTH_OFF_EXPO as int);
    let valid_slot = le_at(data, PYTH_OFF_VALID_SLOT as int, 8);
    let ts = le_i64_at(data, PYTH_OFF_TIMESTAMP as int);
    let price = le_i64_at(data, PYTH_OFF_AGG_PRICE as int);
    let conf = le_at(data, PYTH_OFF_AGG_CONF as int, 8);
    let status = le_at(data, PYTH_OFF_AGG_STATUS as int, 4);
    if owner != spec_pyth_program() || key != spec_pyth_sol_usd() {
        Err(PresaleError::InvalidOracle)
    } else if data.len() < PYTH_MIN_LEN {
        Err(PresaleError::InvalidOracle)
    } else if magic != PYTH_MAGIC || atype != PYTH_PRICE_ACCOUNT_TYPE {
        Err(PresaleError::InvalidOracle)
    } else if status != PYTH_STATUS_TRADING {
        Err(PresaleError::InvalidOracleStatus)
    } else if price <= 0 || expo > 0 || expo < -12 {
        Err(PresaleError::InvalidOracle)
    } else if conf_bps(conf, price) > PYTH_MAX_CONF_BPS {
        Err(PresaleError::OracleConfidence)
    } else if sat_sub_i64(now, ts as i64) > max_staleness_secs || slot < valid_slot
        || slot - valid_slot > max_slot_lag(max_staleness_secs) {
        Err(PresaleError::StaleOracle)
    } else {
        Ok((price as i64, expo as i32, ts as i64))
    }
}

fn saturating_sub_i64(a: i64, b: i64) -> (r: i64)
    ensures
        r == sat_sub_i64(a, b),
{
    let d: i128 = a as i128 - b as i128;
    if d > i64::MAX as i128 {
        i64::MAX
    } else if d < i64::MIN as i128 {
        i64::MIN
    } else {
        d as i64
    }
}

fn slot_lag_limit(max_staleness_secs: i64) -> (r: u64)
    ensures
        r == max_slot_lag(max_staleness_secs),
{
    let bits: u64 = if max_staleness_secs >= 0 {
        max_staleness_secs as u64
    } else {
        u64::MAX - ((-(max_staleness_secs + 1)) as u64)
    };
    let tripled: u64 = if bits > u64::MAX / 3 {
        u64::MAX
    } else {
        bits * 3
    };
    if tripled > 25 {
        tripled
    } else {
        25
    }
}

/// Reads the live aggregate SOL/USD quote, refusing an account that is not the
/// pinned Pyth SOL/USD price account, a quote that is not trading, a price that is
/// not positive, an exponent outside `-12..=0`, a confidence interval wider than
/// 10% of the price, or a quote older than the staleness window (in seconds or in
/// slots).
pub fn read_pyth_price(oracle: &OracleAccount, now: i64, slot: u64, max_staleness_secs: i64) -> (r: Result<
    (i64, i32, i64),
    PresaleError,
>)
    ensures
        r == spec_read_pyth_price(oracle.owner, oracle.key, oracle.data@, now, slot, max_staleness_secs),
        r matches Ok((price, expo, ts)) ==> {
            &&& price > 0
            &&& -12 <= expo <= 0
            &&& slot >= le_at(oracle.data@, PYTH_OFF_VALID_SLOT as int, 8)
        },
{
    if !(oracle.owner == pyth_program()) {
        return Err(PresaleError::InvalidOracle);
    }
    if !(oracle.key == pyth_sol_usd()) {
        return Err(PresaleError::InvalidOracle);
    }
    let data = oracle.data.as_slice();
    if !(data.len() >= PYTH_MIN_LEN) {
        return Err(PresaleError::InvalidOracle);
    }
    proof {
        lemma_pow256_values();
        lemma_le_value_bound(data@.subrange(PYTH_OFF_MAGIC as int, PYTH_OFF_MAGIC + 4));
        lemma_le_value_bound(data@.subrange(PYTH_OFF_ATYPE as int, PYTH_OFF_ATYPE + 4));
        lemma_le_value_bound(data@.subrange(PYTH_OFF_EXPO as int, PYTH_OFF_EXPO + 4));
        lemma_le_value_bound(data@.subrange(PYTH_OFF_VALID_SLOT as int, PYTH_OFF_VALID_SLOT + 8));
        lemma_le_value_bound(data@.subrange(PYTH_OFF_TIMESTAMP as int, PYTH_OFF_TIMESTAMP + 8));
        lemma_le_value_bound(data@.subrange(PYTH_OFF_AGG_PRICE as int, PYTH_OFF_AGG_PRICE + 8));
        lemma_le_value_bound(data@.subrange(PYTH_OFF_AGG_CONF as int, PYTH_OFF_AGG_CONF + 8));
        lemma_le_value_bound(data@.subrange(PYTH_OFF_AGG_STATUS as int, PYTH_OFF_AGG_STATUS + 4));
    }
    let magic = match read_u32_at(data, PYTH_OFF_MAGIC) {
        Ok(v) => v,
        Err(e) => return Err(e),
    };
    if !(magic == PYTH_MAGIC) {
        return Err(PresaleError::InvalidOracle);
    }
    let atype = match read_u32_at(data, PYTH_OFF_ATYPE) {
        Ok(v) => v,
        Err(e) => return Err(e),
    };
    if !(atype == PYTH_PRICE_ACCOUNT_TYPE) {
        return Err(PresaleError::InvalidOracle);
    }
    let expo = match read_i32_at(data, PYTH_OFF_EXPO) {
        Ok(v) => v,
        Err(e) => return Err(e),
    };
    let valid_slot = match read_u64_at(data, PYTH_OFF_VALID_SLOT) {
        Ok(v) => v,
        Err(e) => return Err(e),
    };
    let ts = match read_i64_at(data, PYTH_OFF_TIMESTAMP) {
        Ok(v) => v,
        Err(e) => return Err(e),
    };
    let price = match read_i64_at(data, PYTH_OFF_AGG_PRICE) {
        Ok(v) => v,
        Err(e) => return Err(e),
    };
    let conf = match read_u64_at(data, PYTH_OFF_AGG_CONF) {
        Ok(v) => v,
        Err(e) => return Err(e),
    };
    let status = match read_u32_at(data, PYTH_OFF_AGG_STATUS) {
        Ok(v) => v,
        Err(e) => return Err(e),
    };
    if !(status == PYTH_STATUS_TRADING) {
        return Err(PresaleError::InvalidOracleStatus);
    }
    if !(price > 0) {
        return Err(PresaleError::InvalidOracle);
    }
    if !(expo <= 0 && expo >= -12) {
        return Err(PresaleError::InvalidOracle);
    }
    let abs_price: u64 = price as u64;
    let denom: u64 = if abs_price > 1 { abs_price } else { 1 };
    assert((conf as u128) * 10_000u128 <= u128::MAX) by (nonlinear_arith)
        requires
            conf <= u64::MAX,
    ;
    let scaled: u128 = (conf as u128) * 10_000;
    let bps = match scaled.checked_div(denom as u128) {
        Some(v) => v,
        None => return Err(PresaleError::OracleConfidence),
    };
    if !(bps <= PYTH_MAX_CONF_BPS as u128) {
        return Err(PresaleError::OracleConfidence);
    }
    if !(saturating_sub_i64(now, ts) <= max_staleness_secs) {
        return Err(PresaleError::StaleOracle);
    }
    if !(slot >= valid_slot) {
        return Err(PresaleError::StaleOracle);
    }
    let lag_limit = slot_lag_limit(max_staleness_secs);
    if !(slot - valid_slot <= lag_limit) {
        return Err(PresaleError::StaleOracle);
    }
    Ok((price, expo, ts))
}

} // verus!
