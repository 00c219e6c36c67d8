//! Purchases paid in SOL (priced through the Pyth SOL/USD quote) or in USDC/USDT
//! (one stable unit is one micro-dollar).

use vstd::prelude::*;
use crate::constants::{
    bitlab_from_usd_e6, bitlab_mint, pyth_sol_usd, spec_bitlab_from_usd_e6, spec_bitlab_mint,
    spec_pyth_sol_usd, spec_spl_token_program, spec_usd_e6_from_sol, spl_token_program,
    usd_e6_from_sol,
};
use crate::error::PresaleError;
use crate::key::Key;
use crate::oracle::{read_pyth_price, spec_read_pyth_price, OracleAccount};
use crate::presale_state::{BuyerAccount, LockPurchaseEvent, PresaleState, StatusEvent};
use crate::sale::{
    assert_can_buy, bind_buyer, deliver_bitlab, enforce_limits, spec_assert_can_buy,
    sat_sub_u64, spec_bind_buyer, spec_deliver_bitlab, spec_enforce_limits, spec_sync_status,
    spec_transfer_bitlab, sync_status, transfer_bitlab,
    TokenAccountInfo,
};

verus! {

/// What a purchase reports: the sold-out status change, when the purchase took the
/// last of the allocation, and the purchase itself.
#[derive(Clone, Copy, Debug, PartialEq, Eq, Structural)]
pub struct PurchaseOutcome {
    pub sold_out: Option<StatusEvent>,
    pub purchase: LockPurchaseEvent,
}

/// The accounts of a purchase paid in SOL, as plain values.
pub struct BuySol {
    pub buyer: Key,
    pub state_key: Key,
    pub state: PresaleState,
    pub treasury: Key,
    pub buyer_state: BuyerAccount,
    pub buyer_state_bump: u8,
    pub bitlab_vault: TokenAccountInfo,
    pub buyer_bitlab: TokenAccountInfo,
    pub oracle: OracleAccount,
    pub token_program: Key,
}

/// The account checks of a SOL purchase: the treasury, the BITLAB vault and the
/// oracle must be the ones the presale was configured with.
pub open spec fn spec_buy_sol_accounts(ctx: BuySol) -> Result<(), PresaleError> {
    if ctx.treasury != ctx.state.treasury {
        Err(PresaleError::InvalidDestination)
    } else if ctx.bitlab_vault.key != ctx.state.bitlab_vault {
        Err(PresaleError::InvalidVault)
    } else if ctx.oracle.key != spec_pyth_sol_usd() || ctx.oracle.key != ctx.state.oracle {
        Err(PresaleError::InvalidOracle)
    } else {
        Ok(())
    }
}

/// The purchase event of a purchase in round `round` (counted from 0).
pub open spec fn purchase_event(
    buyer: Key,
    asset: u8,
    amount: u64,
    usd_e6: u64,
    round: u8,
    price_e9: u64,
    bitlab: u64,
    now: i64,
) -> LockPurchaseEvent {
    LockPurchaseEvent {
        buyer: buyer,
        payment_asset: asset,
        payment_amount: amount,
        usd_value_e6: usd_e6,
        round: (round + 1) as u8,
        bitlab_price_e9: price_e9,
        bitlab_amount: bitlab,
        timestamp: now,
    }
}

/// The outcome of buying with `lamports` at time `now` and slot `slot`, accepting no
/// fewer than `min_bitlab` BITLAB base units: the new sale state, the new buyer
/// record and what the purchase reports, or the reason for refusing it.
pub open spec fn spec_buy_with_sol(ctx: BuySol, lamports: u64, min_bitlab: u64, now: i64, slot: u64) -> Result<
    (PresaleState, BuyerAccount, PurchaseOutcome),
    PresaleError,
> {
    let s1 = spec_sync_status(ctx.state, now);
    match spec_buy_sol_accounts(ctx) {
        Err(e) => Err(e),
        Ok(_) => if lamports == 0 {
            Err(PresaleError::ZeroPayment)
        } else {
            match spec_assert_can_buy(s1, now, 0) {
                Err(e) => Err(e),
                Ok((round, price_e9)) => match spec_read_pyth_price(
                    ctx.oracle.owner,
                    ctx.oracle.key,
                    ctx.oracle.data@,
                    now,
                    slot,
                    s1.oracle_max_staleness_secs,
                ) {
                    Err(e) => Err(e),
                    Ok((pyth_price, pyth_expo, _)) => match spec_usd_e6_from_sol(lamports, pyth_price, pyth_expo) {
                        Err(e) => Err(e),
                        Ok(usd_e6) => match spec_enforce_limits(s1, ctx.buyer_state, usd_e6) {
                            Err(e) => Err(e),
                            Ok(_) => match spec_bitlab_from_usd_e6(usd_e6, price_e9) {
                                Err(e) => Err(e),
                                Ok(bitlab) => if bitlab < min_bitlab {
                                    Err(PresaleError::SlippageExceeded)
                                } else if ctx.bitlab_vault.amount < bitlab {
                                    Err(PresaleError::InsufficientVault)
                                } else {
                                    match spec_bind_buyer(ctx.buyer_state, ctx.buyer_state_bump, ctx.buyer, ctx.state_key) {
                                        Err(e) => Err(e),
                                        Ok(b1) => match spec_deliver_bitlab(s1, b1, ctx.state_key, ctx.buyer, bitlab, usd_e6, now) {
                                            Err(e) => Err(e),
                                            Ok((s2, b2, sold_out)) => if s2.sol_received + lamports > u64::MAX {
                                                Err(PresaleError::MathOverflow)
                                            } else if spec_transfer_bitlab(ctx.token_program, ctx.bitlab_vault, ctx.buyer_bitlab, ctx.state_key) is Err {
                                                Err(spec_transfer_bitlab(ctx.token_program, ctx.bitlab_vault, ctx.buyer_bitlab, ctx.state_key)->Err_0)
                                            } else {
                                                Ok(
                                                    (
                                                        PresaleState { sol_received: (s2.sol_received + lamports) as u64, ..s2 },
                                                        b2,
                                                        PurchaseOutcome {
                                                            sold_out: sold_out,
                                                            purchase: purchase_event(ctx.buyer, 0, lamports, usd_e6, round, price_e9, bitlab, now),
                                                        },
                                                    ),
                                                )
                                            },
                                        },
                                    }
                                },
                            },
                        },
                    },
                },
            }
        },
    }
}

/// Buys BITLAB with `lamports` of SOL. On success the sale state and the buyer
/// record take their new values, and the BITLAB transfer out of the presale's vault
/// to the buyer's account has passed its checks; the SOL and BITLAB transfers are
/// then made by the caller. On refusal nothing changes.
pub fn buy_with_sol(ctx: &mut BuySol, lamports: u64, min_bitlab: u64, now: i64, slot: u64) -> (r: Result<
    PurchaseOutcome,
    PresaleError,
>)
    ensures
        match spec_buy_with_sol(*old(ctx), lamports, min_bitlab, now, slot) {
            Ok((s, b, out)) => r == Ok::<PurchaseOutcome, PresaleError>(out) && *final(ctx) == (BuySol {
                state: s,
                buyer_state: b,
                ..*old(ctx)
            }),
            Err(e) => r == Err::<PurchaseOutcome, PresaleError>(e) && *final(ctx) == *old(ctx),
        },
        final(ctx).state.evolves_from(old(ctx).state),
        old(ctx).state.inv() ==> final(ctx).state.inv(),
        r matches Ok(out) ==> {
            &&& out.purchase.bitlab_amount >= min_bitlab
            &&& old(ctx).state.min_purchase_usd_e6 <= out.purchase.usd_value_e6 <= old(ctx).state.max_purchase_usd_e6
            &&& final(ctx).buyer_state.usd_contributed_e6 <= final(ctx).state.max_wallet_usd_e6
            &&& final(ctx).state.total_sold == old(ctx).state.total_sold + out.purchase.bitlab_amount
            &&& final(ctx).buyer_state.bitlab_purchased == old(ctx).buyer_state.bitlab_purchased + out.purchase.bitlab_amount
            &&& final(ctx).state.sol_received == old(ctx).state.sol_received + lamports
            &&& 1 <= out.purchase.round <= 10
        },
{
    if !(ctx.treasury == ctx.state.treasury) {
        return Err(PresaleError::InvalidDestination);
    }
    if !(ctx.bitlab_vault.key == ctx.state.bitlab_vault) {
        return Err(PresaleError::InvalidVault);
    }
    if !(ctx.oracle.key == pyth_sol_usd()) {
        return Err(PresaleError::InvalidOracle);
    }
    if !(ctx.oracle.key == ctx.state.oracle) {
        return Err(PresaleError::InvalidOracle);
    }
    if !(lamports > 0) {
        return Err(PresaleError::ZeroPayment);
    }
    let presale = ctx.state_key;
    let buyer_key = ctx.buyer;
    let buyer_bump = ctx.buyer_state_bump;
    let mut state = ctx.state;
    let mut buyer_state = ctx.buyer_state;
    let _ = sync_status(&mut state, now);
    let (round, price_e9) = match assert_can_buy(&state, now, 0) {
        Ok(v) => v,
        Err(e) => return Err(e),
    };
    let (pyth_price, pyth_expo, _pyth_ts) = match read_pyth_price(
        &ctx.oracle,
        now,
        slot,
        state.oracle_max_staleness_secs,
    ) {
        Ok(v) => v,
        Err(e) => return Err(e),
    };
    let usd_e6 = match usd_e6_from_sol(lamports, pyth_price, pyth_expo) {
        Ok(v) => v,
        Err(e) => return Err(e),
    };
    match enforce_limits(&state, &buyer_state, usd_e6) {
        Ok(_) => {},
        Err(e) => return Err(e),
    }
    let bitlab = match bitlab_from_usd_e6(usd_e6, price_e9) {
        Ok(v) => v,
        Err(e) => return Err(e),
    };
    if !(bitlab >= min_bitlab) {
        return Err(PresaleError::SlippageExceeded);
    }
    if !(ctx.bitlab_vault.amount >= bitlab) {
        return Err(PresaleError::InsufficientVault);
    }
    match bind_buyer(&mut buyer_state, buyer_bump, buyer_key, presale) {
        Ok(_) => {},
        Err(e) => return Err(e),
    }
    let sold_out = match deliver_bitlab(&mut state, &mut buyer_state, presale, buyer_key, bitlab, usd_e6, now) {
        Ok(v) => v,
        Err(e) => return Err(e),
    };
    state.sol_received = match state.sol_received.checked_add(lamports) {
        Some(v) => v,
        None => return Err(PresaleError::MathOverflow),
    };
    match transfer_bitlab(ctx.token_program, &ctx.bitlab_vault, &ctx.buyer_bitlab, presale) {
        Ok(_) => {},
        Err(e) => return Err(e),
    }
    ctx.state = state;
    ctx.buyer_state = buyer_state;
    Ok(
        PurchaseOutcome {
            sold_out: sold_out,
            purchase: LockPurchaseEvent {
                buyer: buyer_key,
                payment_asset: 0,
                payment_amount: lamports,
                usd_value_e6: usd_e6,
                round: round + 1,
                bitlab_price_e9: price_e9,
                bitlab_amount: bitlab,
                timestamp: now,
            },
        },
    )
}


/// The token accounts of a purchase paid in a stable coin, as plain values.
#[derive(Clone, Copy)]
pub struct StableAccounts {
    pub bitlab_vault: TokenAccountInfo,
    pub buyer_bitlab: TokenAccountInfo,
    pub buyer_stable: TokenAccountInfo,
    pub treasury_ata: TokenAccountInfo,
    pub payment_mint: Key,
    pub token_program: Key,
}

/// The account checks of a stable-coin purchase by `buyer` in `asset` (1 USDC,
/// 2 USDT): the buyer pays from and is paid into its own accounts, the payment goes
/// to the treasury in the configured mint, BITLAB leaves the presale's own vault,
/// and tokens move through the SPL token program.
pub open spec fn spec_stable_accounts(s: PresaleState, buyer: Key, presale: Key, a: StableAccounts, asset: u8) -> Result<
    (),
    PresaleError,
> {
    let expected_mint = if asset == 1 { s.usdc_mint } else { s.usdt_mint };
    if a.buyer_stable.owner != buyer || a.buyer_stable.mint != a.payment_mint || a.treasury_ata.mint
        != a.payment_mint {
        Err(PresaleError::InvalidTokenAccount)
    } else if a.treasury_ata.owner != s.treasury {
        Err(PresaleError::InvalidDestination)
    } else if a.payment_mint != expected_mint {
        Err(PresaleError::UnapprovedMint)
    } else if a.buyer_bitlab.mint != s.bitlab_mint || a.buyer_bitlab.owner != buyer {
        Err(PresaleError::InvalidTokenAccount)
    } else if a.bitlab_vault.owner != presale {
        Err(PresaleError::VaultOwner)
    } else if a.bitlab_vault.mint != spec_bitlab_mint() {
        Err(PresaleError::UnapprovedMint)
    } else if a.token_program != spec_spl_token_program() {
        Err(PresaleError::WrongTokenProgram)
    } else {
        Ok(())
    }
}

/// `s` with `amount` more received in `asset` (1 USDC, otherwise USDT), or `None`
/// when the total would not fit.
pub open spec fn add_stable_received(s: PresaleState, asset: u8, amount: u64) -> Option<PresaleState> {
    if asset == 1 {
        if s.usdc_received + amount > u64::MAX {
            None
        } else {
            Some(PresaleState { usdc_received: (s.usdc_received + amount) as u64, ..s })
        }
    } else {
        if s.usdt_received + amount > u64::MAX {
            None
        } else {
            Some(PresaleState { usdt_received: (s.usdt_received + amount) as u64, ..s })
        }
    }
}

/// The outcome of buying with `amount` micro-dollars of a stable coin.
pub open spec fn spec_buy_stable(
    s: PresaleState,
    b: BuyerAccount,
    buyer: Key,
    presale: Key,
    a: StableAccounts,
    buyer_bump: u8,
    amount: u64,
    min_bitlab: u64,
    asset: u8,
    now: i64,
) -> Result<(PresaleState, BuyerAccount, PurchaseOutcome), PresaleError> {
    let s1 = spec_sync_status(s, now);
    if amount == 0 {
        Err(PresaleError::ZeroPayment)
    } else {
        match spec_assert_can_buy(s1, now, asset) {
            Err(e) => Err(e),
            Ok((round, price_e9)) => match spec_stable_accounts(s1, buyer, presale, a, asset) {
                Err(e) => Err(e),
                Ok(_) => match spec_enforce_limits(s1, b, amount) {
                    Err(e) => Err(e),
                    Ok(_) => match spec_bitlab_from_usd_e6(amount, price_e9) {
                        Err(e) => Err(e),
                        Ok(bitlab) => if bitlab < min_bitlab {
                            Err(PresaleError::SlippageExceeded)
                        } else if a.bitlab_vault.amount < bitlab {
                            Err(PresaleError::InsufficientVault)
                        } else {
                            match spec_bind_buyer(b, buyer_bump, buyer, presale) {
                                Err(e) => Err(e),
                                Ok(b1) => match spec_deliver_bitlab(s1, b1, presale, buyer, bitlab, amount, now) {
                                    Err(e) => Err(e),
                                    Ok((s2, b2, sold_out)) => match add_stable_received(s2, asset, amount) {
                                        None => Err(PresaleError::MathOverflow),
                                        Some(s3) => Ok(
                                            (
                                                s3,
                                                b2,
                                                PurchaseOutcome {
                                                    sold_out: sold_out,
                                                    purchase: purchase_event(buyer, asset, amount, amount, round, price_e9, bitlab, now),
                                                },
                                            ),
                                        ),
                                    },
                                },
                            }
                        },
                    },
                },
            },
        }
    }
}

/// Buys BITLAB with `amount` micro-dollars of USDC (`asset` 1) or USDT (`asset` 2).
/// On success the sale state and buyer record take their new values; the caller
/// then moves the payment to the treasury, checks it with
/// `assert_treasury_credited`, and moves the BITLAB once `transfer_bitlab` accepts
/// it. On refusal nothing changes.
pub fn buy_stable(
    state: &mut PresaleState,
    buyer_state: &mut BuyerAccount,
    buyer: Key,
    presale: Key,
    accounts: &StableAccounts,
    buyer_bump: u8,
    amount: u64,
    min_bitlab: u64,
    asset: u8,
    now: i64,
) -> (r: Result<PurchaseOutcome, PresaleError>)
    ensures
        match spec_buy_stable(*old(state), *old(buyer_state), buyer, presale, *accounts, buyer_bump, amount, min_bitlab, asset, now) {
            Ok((s, b, out)) => r == Ok::<PurchaseOutcome, PresaleError>(out) && *final(state) == s && *final(buyer_state) == b,
            Err(e) => r == Err::<PurchaseOutcome, PresaleError>(e) && *final(state) == *old(state)
                && *final(buyer_state) == *old(buyer_state),
        },
        final(state).evolves_from(*old(state)),
        old(state).inv() ==> final(state).inv(),
        r matches Ok(out) ==> {
            &&& out.purchase.bitlab_amount >= min_bitlab
            &&& old(state).min_purchase_usd_e6 <= amount <= old(state).max_purchase_usd_e6
            &&& final(buyer_state).usd_contributed_e6 <= final(state).max_wallet_usd_e6
            &&& final(state).total_sold == old(state).total_sold + out.purchase.bitlab_amount
            &&& final(buyer_state).bitlab_purchased == old(buyer_state).bitlab_purchased + out.purchase.bitlab_amount
        },
{
    if !(amount > 0) {
        return Err(PresaleError::ZeroPayment);
    }
    let mut s = *state;
    let mut b = *buyer_state;
    let _ = sync_status(&mut s, now);
    let (round, price_e9) = match assert_can_buy(&s, now, asset) {
        Ok(v) => v,
        Err(e) => return Err(e),
    };
    if !(accounts.buyer_stable.owner == buyer) {
        return Err(PresaleError::InvalidTokenAccount);
    }
    if !(accounts.buyer_stable.mint == accounts.payment_mint) {
        return Err(PresaleError::InvalidTokenAccount);
    }
    if !(accounts.treasury_ata.mint == accounts.payment_mint) {
        return Err(PresaleError::InvalidTokenAccount);
    }
    if !(accounts.treasury_ata.owner == s.treasury) {
        return Err(PresaleError::InvalidDestination);
    }
    let expected_mint = if asset == 1 { s.usdc_mint } else { s.usdt_mint };
    if !(accounts.payment_mint == expected_mint) {
        return Err(PresaleError::UnapprovedMint);
    }
    if !(accounts.buyer_bitlab.mint == s.bitlab_mint) {
        return Err(PresaleError::InvalidTokenAccount);
    }
    if !(accounts.buyer_bitlab.owner == buyer) {
        return Err(PresaleError::InvalidTokenAccount);
    }
    if !(accounts.bitlab_vault.owner == presale) {
        return Err(PresaleError::VaultOwner);
    }
    if !(accounts.bitlab_vault.mint == bitlab_mint()) {
        return Err(PresaleError::UnapprovedMint);
    }
    if !(accounts.token_program == spl_token_program()) {
        return Err(PresaleError::WrongTokenProgram);
    }
    let usd_e6 = amount;
    match enforce_limits(&s, &b, usd_e6) {
        Ok(_) => {},
        Err(e) => return Err(e),
    }
    let bitlab = match bitlab_from_usd_e6(usd_e6, price_e9) {
        Ok(v) => v,
        Err(e) => return Err(e),
    };
    if !(bitlab >= min_bitlab) {
        return Err(PresaleError::SlippageExceeded);
    }
    if !(accounts.bitlab_vault.amount >= bitlab) {
        return Err(PresaleError::InsufficientVault);
    }
    match bind_buyer(&mut b, buyer_bump, buyer, presale) {
        Ok(_) => {},
        Err(e) => return Err(e),
    }
    let sold_out = match deliver_bitlab(&mut s, &mut b, presale, buyer, bitlab, usd_e6, now) {
        Ok(v) => v,
        Err(e) => return Err(e),
    };
    if asset == 1 {
        s.usdc_received = match s.usdc_received.checked_add(amount) {
            Some(v) => v,
            None => return Err(PresaleError::MathOverflow),
        };
    } else {
        s.usdt_received = match s.usdt_received.checked_add(amount) {
            Some(v) => v,
            None => return Err(PresaleError::MathOverflow),
        };
    }
    *state = s;
    *buyer_state = b;
    Ok(
        PurchaseOutcome {
            sold_out: sold_out,
            purchase: LockPurchaseEvent {
                buyer: buyer,
                payment_asset: asset,
                payment_amount: amount,
                usd_value_e6: usd_e6,
                round: round + 1,
                bitlab_price_e9: price_e9,
                bitlab_amount: bitlab,
                timestamp: now,
            },
        },
    )
}

/// Checks, once the payment has moved, that the treasury account grew by exactly
/// `amount` (no fee-on-transfer or other unexpected token behaviour).
pub fn assert_treasury_credited(before: u64, after: u64, amount: u64) -> (r: Result<(), PresaleError>)
    ensures
        r == (if sat_sub_u64(after, before) == amount {
            Ok::<(), PresaleError>(())
        } else {
            Err(PresaleError::FeeOnTransfer)
        }),
{
    if !(after.saturating_sub(before) == amount) {
        return Err(PresaleError::FeeOnTransfer);
    }
    Ok(())
}


/// The accounts of a purchase paid in USDC, as plain values.
pub struct BuyUsdc {
    pub buyer: Key,
    pub state_key: Key,
    pub state: PresaleState,
    pub buyer_state: BuyerAccount,
    pub buyer_state_bump: u8,
    pub bitlab_vault: TokenAccountInfo,
    pub buyer_bitlab: TokenAccountInfo,
    pub buyer_usdc: TokenAccountInfo,
    pub treasury_usdc: TokenAccountInfo,
    pub usdc_mint: Key,
    pub token_program: Key,
}

pub open spec fn usdc_accounts(ctx: BuyUsdc) -> StableAccounts {
    StableAccounts {
        bitlab_vault: ctx.bitlab_vault,
        buyer_bitlab: ctx.buyer_bitlab,
        buyer_stable: ctx.buyer_usdc,
        treasury_ata: ctx.treasury_usdc,
        payment_mint: ctx.usdc_mint,
        token_program: ctx.token_program,
    }
}

/// The outcome of buying with `amount` micro-dollars of USDC: the BITLAB vault and
/// the USDC mint must be the configured ones, then the stable-coin purchase rules apply.
pub open spec fn spec_buy_with_usdc(ctx: BuyUsdc, amount: u64, min_bitlab: u64, now: i64) -> Result<
    (PresaleState, BuyerAccount, PurchaseOutcome),
    PresaleError,
> {
    if ctx.bitlab_vault.key != ctx.state.bitlab_vault {
        Err(PresaleError::InvalidVault)
    } else if ctx.usdc_mint != ctx.state.usdc_mint {
        Err(PresaleError::UnapprovedMint)
    } else {
        spec_buy_stable(ctx.state, ctx.buyer_state, ctx.buyer, ctx.state_key, usdc_accounts(ctx), ctx.buyer_state_bump, amount, min_bitlab, 1, now)
    }
}

/// Buys BITLAB with `amount` micro-dollars of USDC; see `buy_stable`.
pub fn buy_with_usdc(ctx: &mut BuyUsdc, amount: u64, min_bitlab: u64, now: i64) -> (r: Result<PurchaseOutcome, PresaleError>)
    ensures
        match spec_buy_with_usdc(*old(ctx), amount, min_bitlab, now) {
            Ok((s, b, out)) => r == Ok::<PurchaseOutcome, PresaleError>(out) && *final(ctx) == (BuyUsdc {
                state: s,
                buyer_state: b,
                ..*old(ctx)
            }),
            Err(e) => r == Err::<PurchaseOutcome, PresaleError>(e) && *final(ctx) == *old(ctx),
        },
        final(ctx).state.evolves_from(old(ctx).state),
        old(ctx).state.inv() ==> final(ctx).state.inv(),
        r matches Ok(out) ==> {
            &&& out.purchase.bitlab_amount >= min_bitlab
            &&& final(ctx).buyer_state.usd_contributed_e6 <= final(ctx).state.max_wallet_usd_e6
            &&& final(ctx).state.usdc_received == old(ctx).state.usdc_received + amount
        },
{
    if !(ctx.bitlab_vault.key == ctx.state.bitlab_vault) {
        return Err(PresaleError::InvalidVault);
    }
    if !(ctx.usdc_mint == ctx.state.usdc_mint) {
        return Err(PresaleError::UnapprovedMint);
    }
    let accounts = StableAccounts {
        bitlab_vault: ctx.bitlab_vault,
        buyer_bitlab: ctx.buyer_bitlab,
        buyer_stable: ctx.buyer_usdc,
        treasury_ata: ctx.treasury_usdc,
        payment_mint: ctx.usdc_mint,
        token_program: ctx.token_program,
    };
    let mut state = ctx.state;
    let mut buyer_state = ctx.buyer_state;
    let r = buy_stable(
        &mut state,
        &mut buyer_state,
        ctx.buyer,
        ctx.state_key,
        &accounts,
        ctx.buyer_state_bump,
        amount,
        min_bitlab,
        1,
        now,
    );
    ctx.state = state;
    ctx.buyer_state = buyer_state;
    r
}

/// The accounts of a purchase paid in USDT, as plain values.
pub struct BuyUsdt {
    pub buyer: Key,
    pub state_key: Key,
    pub state: PresaleState,
    pub buyer_state: BuyerAccount,
    pub buyer_state_bump: u8,
    pub bitlab_vault: TokenAccountInfo,
    pub buyer_bitlab: TokenAccountInfo,
    pub buyer_usdt: TokenAccountInfo,
    pub treasury_usdt: TokenAccountInfo,
    pub usdt_mint: Key,
    pub token_program: Key,
}

pub open spec fn usdt_accounts(ctx: BuyUsdt) -> StableAccounts {
    StableAccounts {
        bitlab_vault: ctx.bitlab_vault,
        buyer_bitlab: ctx.buyer_bitlab,
        buyer_stable: ctx.buyer_usdt,
        treasury_ata: ctx.treasury_usdt,
        payment_mint: ctx.usdt_mint,
        token_program: ctx.token_program,
    }
}

/// The outcome of buying with `amount` micro-dollars of USDT: the BITLAB vault and
/// the USDT mint must be the configured ones, then the stable-coin purchase rules apply.
pub open spec fn spec_buy_with_usdt(ctx: BuyUsdt, amount: u64, min_bitlab: u64, now: i64) -> Result<
    (PresaleState, BuyerAccount, PurchaseOutcome),
    PresaleError,
> {
    if ctx.bitlab_vault.key != ctx.state.bitlab_vault {
        Err(PresaleError::InvalidVault)
    } else if ctx.usdt_mint != ctx.state.usdt_mint {
        Err(PresaleError::UnapprovedMint)
    } else {
        spec_buy_stable(ctx.state, ctx.buyer_state, ctx.buyer, ctx.state_key, usdt_accounts(ctx), ctx.buyer_state_bump, amount, min_bitlab, 2, now)
    }
}

/// Buys BITLAB with `amount` micro-dollars of USDT; see `buy_stable`.
pub fn buy_with_usdt(ctx: &mut BuyUsdt, amount: u64, min_bitlab: u64, now: i64) -> (r: Result<PurchaseOutcome, PresaleError>)
    ensures
        match spec_buy_with_usdt(*old(ctx), amount, min_bitlab, now) {
            Ok((s, b, out)) => r == Ok::<PurchaseOutcome, PresaleError>(out) && *final(ctx) == (BuyUsdt {
                state: s,
                buyer_state: b,
                ..*old(ctx)
            }),
            Err(e) => r == Err::<PurchaseOutcome, PresaleError>(e) && *final(ctx) == *old(ctx),
        },
        final(ctx).state.evolves_from(old(ctx).state),
        old(ctx).state.inv() ==> final(ctx).state.inv(),
        r matches Ok(out) ==> {
            &&& out.purchase.bitlab_amount >= min_bitlab
            &&& final(ctx).buyer_state.usd_contributed_e6 <= final(ctx).state.max_wallet_usd_e6
            &&& final(ctx).state.usdt_received == old(ctx).state.usdt_received + amount
        },
{
    if !(ctx.bitlab_vault.key == ctx.state.bitlab_vault) {
        return Err(PresaleError::InvalidVault);
    }
    if !(ctx.usdt_mint == ctx.state.usdt_mint) {
        return Err(PresaleError::UnapprovedMint);
    }
    let accounts = StableAccounts {
        bitlab_vault: ctx.bitlab_vault,
        buyer_bitlab: ctx.buyer_bitlab,
        buyer_stable: ctx.buyer_usdt,
        treasury_ata: ctx.treasury_usdt,
        payment_mint: ctx.usdt_mint,
        token_program: ctx.token_program,
    };
    let mut state = ctx.state;
    let mut buyer_state = ctx.buyer_state;
    let r = buy_stable(
        &mut state,
        &mut buyer_state,
        ctx.buyer,
        ctx.state_key,
        &accounts,
        ctx.buyer_state_bump,
        amount,
        min_bitlab,
        2,
        now,
    );
    ctx.state = state;
    ctx.buyer_state = buyer_state;
    r
}

} // verus!
