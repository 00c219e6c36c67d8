//! The rules that every purchase goes through: keeping the sale's status in step
//! with the clock and the inventory, checking that a purchase may happen, holding
//! it to the purchase limits, and recording it.

use vstd::prelude::*;
use crate::constants::{
    current_round, spec_bitlab_mint, spec_current_round, spec_spl_token_program, bitlab_mint,
    spl_token_program, SALE_DURATION_SECS,
};
use crate::error::PresaleError;
use crate::key::Key;
use crate::presale_state::{BuyerAccount, EndReason, PresaleState, SaleStatus, StatusEvent};

verus! {

/// What the presale reads of an SPL token account.
#[derive(Clone, Copy)]
pub struct TokenAccountInfo {
    pub key: Key,
    pub mint: Key,
    pub owner: Key,
    pub amount: u64,
}

/// `a + b`, clamped to the range of `i64`.
pub open spec fn sat_add_i64(a: i64, b: i64) -> int {
    if a + b > i64::MAX {
        i64::MAX as int
    } else if a + b < i64::MIN {
        i64::MIN as int
    } else {
        a + b
    }
}

pub fn saturating_add_i64(a: i64, b: i64) -> (r: i64)
    ensures
        r == sat_add_i64(a, b),
{
    let s: i128 = a as i128 + b as i128;
    if s > i64::MAX as i128 {
        i64::MAX
    } else if s < i64::MIN as i128 {
        i64::MIN
    } else {
        s as i64
    }
}

/// The status that `s` has at time `now`: an open sale whose inventory is gone is
/// sold out, and an active sale whose scheduled window has passed has ended.
pub open spec fn spec_sync_status(s: PresaleState, now: i64) -> PresaleState {
    if s.is_closed() {
        s
    } else if s.total_sold >= s.allocation {
        PresaleState { status: SaleStatus::SoldOut, end_reason: EndReason::SoldOut, ended_at: now, ..s }
    } else if s.status == SaleStatus::Paused {
        s
    } else if s.status == SaleStatus::Active && now >= sat_add_i64(s.sale_start_ts, SALE_DURATION_SECS) {
        PresaleState { status: SaleStatus::Ended, end_reason: EndReason::Schedule, ended_at: now, ..s }
    } else {
        s
    }
}

pub fn sync_status(state: &mut PresaleState, now: i64) -> (r: Result<(), PresaleError>)
    ensures
        r is Ok,
        *final(state) == spec_sync_status(*old(state), now),
        final(state).evolves_from(*old(state)),
        old(state).inv() ==> final(state).inv(),
{
    if state.status == SaleStatus::Finalized || state.status == SaleStatus::Ended || state.status
        == SaleStatus::SoldOut {
        return Ok(());
    }
    if state.total_sold >= state.allocation {
        state.status = SaleStatus::SoldOut;
        state.end_reason = EndReason::SoldOut;
        state.ended_at = now;
        return Ok(());
    }
    if state.status == SaleStatus::Paused {
        return Ok(());
    }
    if state.status == SaleStatus::Active && now >= saturating_add_i64(
        state.sale_start_ts,
        SALE_DURATION_SECS,
    ) {
        state.status = SaleStatus::Ended;
        state.end_reason = EndReason::Schedule;
        state.ended_at = now;
    }
    Ok(())
}

/// Whether payments in `asset` (0 SOL, 1 USDC, 2 USDT) are accepted.
pub open spec fn asset_enabled(s: PresaleState, asset: u8) -> bool {
    if asset == 0 {
        s.sol_enabled
    } else if asset == 1 {
        s.usdc_enabled
    } else if asset == 2 {
        s.usdt_enabled
    } else {
        false
    }
}

/// The round and its price for a purchase in `asset` at time `now`, or why no
/// purchase may happen.
pub open spec fn spec_assert_can_buy(s: PresaleState, now: i64, asset: u8) -> Result<(u8, u64), PresaleError> {
    if !s.config_finalized {
        Err(PresaleError::ConfigOpen)
    } else if s.emergency_stop {
        Err(PresaleError::Paused)
    } else if s.status != SaleStatus::Active {
        Err(PresaleError::NotActive)
    } else if !asset_enabled(s, asset) {
        Err(PresaleError::AssetDisabled)
    } else {
        match spec_current_round(now, s.sale_start_ts) {
            Err(e) => Err(e),
            Ok(round) => {
                if s.prices_e9@[round as int] == 0 {
                    Err(PresaleError::ZeroPrice)
                } else {
                    Ok((round, s.prices_e9@[round as int]))
                }
            },
        }
    }
}

pub fn assert_can_buy(state: &PresaleState, now: i64, asset: u8) -> (r: Result<(u8, u64), PresaleError>)
    ensures
        r == spec_assert_can_buy(*state, now, asset),
        state.emergency_stop ==> r is Err,
        r matches Ok((round, price)) ==> round < 10 && price > 0,
{
    if !state.config_finalized {
        return Err(PresaleError::ConfigOpen);
    }
    if !(!state.emergency_stop) {
        return Err(PresaleError::Paused);
    }
    if !(state.status == SaleStatus::Active) {
        return Err(PresaleError::NotActive);
    }
    if asset == 0 {
        if !state.sol_enabled {
            return Err(PresaleError::AssetDisabled);
        }
    } else if asset == 1 {
        if !state.usdc_enabled {
            return Err(PresaleError::AssetDisabled);
        }
    } else if asset == 2 {
        if !state.usdt_enabled {
            return Err(PresaleError::AssetDisabled);
        }
    } else {
        return Err(PresaleError::AssetDisabled);
    }
    let round = match current_round(now, state.sale_start_ts) {
        Ok(k) => k,
        Err(e) => return Err(e),
    };
    let price = state.prices_e9[round as usize];
    if !(price > 0) {
        return Err(PresaleError::ZeroPrice);
    }
    Ok((round, price))
}

/// Holds a purchase of `usd_e6` to the per-purchase bounds and the wallet cap.
pub open spec fn spec_enforce_limits(s: PresaleState, b: BuyerAccount, usd_e6: u64) -> Result<(), PresaleError> {
    if usd_e6 < s.min_purchase_usd_e6 {
        Err(PresaleError::BelowMinimum)
    } else if usd_e6 > s.max_purchase_usd_e6 {
        Err(PresaleError::AboveMaximum)
    } else if b.usd_contributed_e6 + usd_e6 > u64::MAX {
        Err(PresaleError::MathOverflow)
    } else if b.usd_contributed_e6 + usd_e6 > s.max_wallet_usd_e6 {
        Err(PresaleError::WalletCap)
    } else {
        Ok(())
    }
}

pub fn enforce_limits(state: &PresaleState, buyer: &BuyerAccount, usd_e6: u64) -> (r: Result<(), PresaleError>)
    ensures
        r == spec_enforce_limits(*state, *buyer, usd_e6),
{
    if !(usd_e6 >= state.min_purchase_usd_e6) {
        return Err(PresaleError::BelowMinimum);
    }
    if !(usd_e6 <= state.max_purchase_usd_e6) {
        return Err(PresaleError::AboveMaximum);
    }
    let next = match buyer.usd_contributed_e6.checked_add(usd_e6) {
        Some(v) => v,
        None => return Err(PresaleError::MathOverflow),
    };
    if !(next <= state.max_wallet_usd_e6) {
        return Err(PresaleError::WalletCap);
    }
    Ok(())
}

/// Binds a fresh buyer record to its wallet, or checks that a used one belongs to it.
pub open spec fn spec_bind_buyer(b: BuyerAccount, bump: u8, buyer_key: Key, presale: Key) -> Result<BuyerAccount, PresaleError> {
    if b.purchase_count == 0 {
        Ok(BuyerAccount { bump: bump, buyer: buyer_key, presale: presale, ..b })
    } else if b.bump != bump || b.buyer != buyer_key || b.presale != presale {
        Err(PresaleError::AccountMismatch)
    } else {
        Ok(b)
    }
}

pub fn bind_buyer(buyer: &mut BuyerAccount, bump: u8, buyer_key: Key, presale: Key) -> (r: Result<(), PresaleError>)
    ensures
        match spec_bind_buyer(*old(buyer), bump, buyer_key, presale) {
            Ok(b) => r is Ok && *final(buyer) == b,
            Err(e) => r == Err::<(), PresaleError>(e) && *final(buyer) == *old(buyer),
        },
{
    if buyer.purchase_count == 0 {
        buyer.bump = bump;
        buyer.buyer = buyer_key;
        buyer.presale = presale;
    } else {
        if !(buyer.bump == bump) {
            return Err(PresaleError::AccountMismatch);
        }
        if !(buyer.buyer == buyer_key) {
            return Err(PresaleError::AccountMismatch);
        }
        if !(buyer.presale == presale) {
            return Err(PresaleError::AccountMismatch);
        }
    }
    Ok(())
}

/// `a - b`, or 0 when `b > a`.
pub open spec fn sat_sub_u64(a: u64, b: u64) -> int {
    if a >= b {
        a - b
    } else {
        0
    }
}

/// Records the delivery of `bitlab` base units bought for `usd_e6` micro-dollars:
/// the sale's inventory, buyer count and purchase count, and the buyer's totals.
/// A delivery that takes the last of the allocation closes the sale as sold out.
pub open spec fn spec_deliver_bitlab(
    s: PresaleState,
    b: BuyerAccount,
    presale: Key,
    buyer_key: Key,
    bitlab: u64,
    usd_e6: u64,
    now: i64,
) -> Result<(PresaleState, BuyerAccount, Option<StatusEvent>), PresaleError> {
    let first = b.purchase_count == 0;
    if bitlab == 0 {
        Err(PresaleError::ZeroPayment)
    } else if bitlab > sat_sub_u64(s.allocation, s.total_sold) {
        Err(PresaleError::ExceedsRemaining)
    } else if s.total_sold + bitlab > u64::MAX {
        Err(PresaleError::MathOverflow)
    } else if first && s.unique_buyers + 1 > u64::MAX {
        Err(PresaleError::MathOverflow)
    } else if !first && (b.buyer != buyer_key || b.presale != presale) {
        Err(PresaleError::AccountMismatch)
    } else if b.bitlab_purchased + bitlab > u64::MAX || b.usd_contributed_e6 + usd_e6 > u64::MAX
        || b.purchase_count + 1 > u32::MAX || s.purchase_count + 1 > u64::MAX {
        Err(PresaleError::MathOverflow)
    } else {
        let sold = (s.total_sold + bitlab) as u64;
        let counted = PresaleState {
            total_sold: sold,
            unique_buyers: if first { (s.unique_buyers + 1) as u64 } else { s.unique_buyers },
            purchase_count: (s.purchase_count + 1) as u64,
            ..s
        };
        let nb = BuyerAccount {
            bitlab_purchased: (b.bitlab_purchased + bitlab) as u64,
            usd_contributed_e6: (b.usd_contributed_e6 + usd_e6) as u64,
            purchase_count: (b.purchase_count + 1) as u32,
            ..b
        };
        if sold >= s.allocation {
            let closed = PresaleState {
                status: SaleStatus::SoldOut,
                end_reason: EndReason::SoldOut,
                ended_at: now,
                ..counted
            };
            Ok(
                (
                    closed,
                    nb,
                    Some(
                        StatusEvent {
                            status: SaleStatus::SoldOut,
                            reason: EndReason::SoldOut,
                            timestamp: now,
                        },
                    ),
                ),
            )
        } else {
            Ok((counted, nb, None))
        }
    }
}

/// Records a delivery; on refusal neither account changes. Returns the status
/// event to report when the delivery sold the sale out.
pub fn deliver_bitlab(
    state: &mut PresaleState,
    buyer: &mut BuyerAccount,
    presale: Key,
    buyer_key: Key,
    bitlab: u64,
    usd_e6: u64,
    now: i64,
) -> (r: Result<Option<StatusEvent>, PresaleError>)
    ensures
        match spec_deliver_bitlab(*old(state), *old(buyer), presale, buyer_key, bitlab, usd_e6, now) {
            Ok((s, b, ev)) => r == Ok::<Option<StatusEvent>, PresaleError>(ev) && *final(state) == s
                && *final(buyer) == b,
            Err(e) => r == Err::<Option<StatusEvent>, PresaleError>(e) && *final(state) == *old(state)
                && *final(buyer) == *old(buyer),
        },
        old(state).status != SaleStatus::Finalized ==> final(state).evolves_from(*old(state)),
        old(state).inv() ==> final(state).inv(),
{
    let remaining = state.allocation.saturating_sub(state.total_sold);
    if !(bitlab > 0) {
        return Err(PresaleError::ZeroPayment);
    }
    if !(bitlab <= remaining) {
        return Err(PresaleError::ExceedsRemaining);
    }
    let total_sold = match state.total_sold.checked_add(bitlab) {
        Some(v) => v,
        None => return Err(PresaleError::MathOverflow),
    };
    let mut unique_buyers = state.unique_buyers;
    if buyer.purchase_count == 0 {
        unique_buyers = match state.unique_buyers.checked_add(1) {
            Some(v) => v,
            None => return Err(PresaleError::MathOverflow),
        };
    } else {
        if !(buyer.buyer == buyer_key) {
            return Err(PresaleError::AccountMismatch);
        }
        if !(buyer.presale == presale) {
            return Err(PresaleError::AccountMismatch);
        }
    }
    let bitlab_purchased = match buyer.bitlab_purchased.checked_add(bitlab) {
        Some(v) => v,
        None => return Err(PresaleError::MathOverflow),
    };
    let usd_contributed = match buyer.usd_contributed_e6.checked_add(usd_e6) {
        Some(v) => v,
        None => return Err(PresaleError::MathOverflow),
    };
    let buyer_count = match buyer.purchase_count.checked_add(1) {
        Some(v) => v,
        None => return Err(PresaleError::MathOverflow),
    };
    let purchase_count = match state.purchase_count.checked_add(1) {
        Some(v) => v,
        None => return Err(PresaleError::MathOverflow),
    };
    state.total_sold = total_sold;
    state.unique_buyers = unique_buyers;
    buyer.bitlab_purchased = bitlab_purchased;
    buyer.usd_contributed_e6 = usd_contributed;
    buyer.purchase_count = buyer_count;
    state.purchase_count = purchase_count;
    if state.total_sold >= state.allocation {
        state.status = SaleStatus::SoldOut;
        state.end_reason = EndReason::SoldOut;
        state.ended_at = now;
        return Ok(Some(StatusEvent { status: state.status, reason: state.end_reason, timestamp: now }));
    }
    Ok(None)
}

/// The checks made before the presale moves BITLAB out of `from` with its own signature.
pub open spec fn spec_transfer_bitlab(
    token_program: Key,
    from: TokenAccountInfo,
    to: TokenAccountInfo,
    state_key: Key,
) -> Result<(), PresaleError> {
    if from.mint != to.mint {
        Err(PresaleError::InvalidTokenAccount)
    } else if from.mint != spec_bitlab_mint() {
        Err(PresaleError::UnapprovedMint)
    } else {
        spec_transfer_signed_tokens(token_program, from, state_key)
    }
}

/// The checks made before the presale signs a token transfer out of `from`.
pub open spec fn spec_transfer_signed_tokens(token_program: Key, from: TokenAccountInfo, state_key: Key) -> Result<
    (),
    PresaleError,
> {
    if token_program != spec_spl_token_program() {
        Err(PresaleError::WrongTokenProgram)
    } else if from.owner != state_key {
        Err(PresaleError::VaultOwner)
    } else {
        Ok(())
    }
}

/// Checks a BITLAB transfer out of a presale-owned vault; the transfer itself is
/// made by the caller once this returns `Ok`.
pub fn transfer_bitlab(
    token_program: Key,
    from: &TokenAccountInfo,
    to: &TokenAccountInfo,
    state_key: Key,
) -> (r: Result<(), PresaleError>)
    ensures
        r == spec_transfer_bitlab(token_program, *from, *to, state_key),
{
    if !(from.mint == to.mint) {
        return Err(PresaleError::InvalidTokenAccount);
    }
    if !(from.mint == bitlab_mint()) {
        return Err(PresaleError::UnapprovedMint);
    }
    transfer_signed_tokens(token_program, from, state_key)
}

/// Checks a token transfer signed by the presale: it must go through the SPL
/// token program and leave a vault that the presale owns.
pub fn transfer_signed_tokens(token_program: Key, from: &TokenAccountInfo, state_key: Key) -> (r: Result<
    (),
    PresaleError,
>)
    ensures
        r == spec_transfer_signed_tokens(token_program, *from, state_key),
{
    if !(token_program == spl_token_program()) {
        return Err(PresaleError::WrongTokenProgram);
    }
    if !(from.owner == state_key) {
        return Err(PresaleError::VaultOwner);
    }
    Ok(())
}

} // verus!
