//! What each instruction does, stated over its inputs and results: who ends up
//! recorded where, which switches a purchase needs, what it is priced at, and
//! which closed sales can be finalized.

use vstd::prelude::*;
use crate::buy::{spec_buy_stable, spec_buy_with_sol, spec_buy_with_usdc, spec_buy_with_usdt, BuySol, BuyUsdc, BuyUsdt, StableAccounts};
use crate::bytes::{le_i32_at, le_i64_at, lemma_le_value_bound, lemma_pow256_values};
use crate::constants::{spec_bitlab_mint, spec_current_round, spec_spl_token_program, ten_pow, ROUND_DURATION_SECS, SALE_DURATION_SECS};
use crate::error::PresaleError;
use crate::oracle::spec_read_pyth_price;
use crate::constants::{lemma_usd_e6_from_sol_value, spec_usd_e6_from_sol};
use crate::initialize::{spec_initialize, Initialize, InitializeArgs};
use crate::instructions::{
    spec_accept_ops_authority, spec_clear_emergency, spec_emergency_stop, spec_end_presale,
    spec_finalize_config, spec_finalize_sale, spec_pause, spec_propose_ops_authority, spec_resume,
    spec_set_asset_enabled, spec_set_oracle, spec_set_purchase_limits, spec_set_treasury,
    spec_start_sale, FinalizeSale,
};
use crate::withdraw::{
    spec_emergency_recover_sol, spec_withdraw_sol, spec_withdraw_stable, EmergencyWithdrawSol,
    SolVaultInfo, WithdrawSol,
};
use crate::sale::TokenAccountInfo;
use crate::constants::{spec_pyth_program, spec_pyth_sol_usd, spec_system_program};
use crate::bytes::le_at;
use crate::oracle::OracleAccount;
use crate::key::Key;
use crate::presale_state::{BuyerAccount, EndReason, PresaleState, SaleStatus};
use crate::sale::{sat_add_i64, spec_assert_can_buy, spec_sync_status};

verus! {

/// A purchase priced in round `k` of the schedule started at `start`, for
/// `usd_e6` micro-dollars, delivering `bitlab` base units at `price_e9`.
pub open spec fn priced_in_round(s: PresaleState, now: i64, usd_e6: u64, round: u8, price_e9: u64, bitlab: u64) -> bool {
    let k = (now - s.sale_start_ts) / (ROUND_DURATION_SECS as int);
    &&& s.sale_start_ts <= now
    &&& 0 <= k < 10
    &&& round == k + 1
    &&& price_e9 == s.prices_e9@[k]
    &&& price_e9 > 0
    &&& bitlab == usd_e6 * 1_000_000_000 / (price_e9 as int)
}

/// After a purchase the buyer record `b` belongs to `buyer` and `presale`, and
/// carries one more purchase, `usd_e6` more contributed and `bitlab` more bought
/// than `prev`.
pub open spec fn record_after_purchase(
    prev: BuyerAccount,
    b: BuyerAccount,
    buyer: Key,
    presale: Key,
    bump: u8,
    usd_e6: u64,
    bitlab: u64,
) -> bool {
    &&& b.buyer == buyer
    &&& b.presale == presale
    &&& b.bump == bump
    &&& b.purchase_count == prev.purchase_count + 1
    &&& b.usd_contributed_e6 == prev.usd_contributed_e6 + usd_e6
    &&& b.bitlab_purchased == prev.bitlab_purchased + bitlab
}

/// The sale after a purchase of `bitlab` units: the inventory sold, the purchase
/// count, and the buyer count (new only for a fresh record) move by exactly that
/// purchase, and the purchase was allowed: configuration frozen, no emergency
/// stop, an active sale.
pub open spec fn sale_after_purchase(prev: PresaleState, s: PresaleState, first: bool, bitlab: u64) -> bool {
    &&& prev.config_finalized
    &&& !prev.emergency_stop
    &&& prev.status == SaleStatus::Active || prev.status == SaleStatus::Paused
    &&& s.total_sold == prev.total_sold + bitlab
    &&& s.purchase_count == prev.purchase_count + 1
    &&& s.unique_buyers == prev.unique_buyers + (if first { 1int } else { 0int })
    &&& s.total_sold <= s.allocation
    &&& (s.status == SaleStatus::SoldOut <==> s.total_sold >= s.allocation)
}

/// A purchase goes through only for an asset whose switch is on
/// (0 SOL, 1 USDC, 2 USDT).
pub open spec fn asset_switch_on(s: PresaleState, asset: u8) -> bool {
    ||| asset == 0 && s.sol_enabled
    ||| asset == 1 && s.usdc_enabled
    ||| asset == 2 && s.usdt_enabled
}


/// The round reported for `now` is the number of whole round lengths elapsed
/// since `start`, and there are ten of them.
pub proof fn lemma_round_is_elapsed_rounds(now: i64, start: i64)
    ensures
        spec_current_round(now, start) matches Ok(k) ==> {
            &&& start <= now
            &&& k as int == (now - start) / (ROUND_DURATION_SECS as int)
            &&& k < 10
        },
{
    assert(SALE_DURATION_SECS == 6_048_000);
    if spec_current_round(now, start) is Ok {
        let e = now - start;
        assert(0 <= e / 604800 < 10) by (nonlinear_arith)
            requires
                0 <= e < 6_048_000,
        ;
    }
}

/// A purchase allowed by `assert_can_buy` is for an enabled asset of an active,
/// configured sale without emergency stop, in the round that `now` falls in.
pub proof fn law_can_buy_needs_enabled_asset(s: PresaleState, now: i64, asset: u8)
    ensures
        spec_assert_can_buy(s, now, asset) matches Ok((round, price)) ==> {
            &&& asset_switch_on(s, asset)
            &&& s.config_finalized
            &&& !s.emergency_stop
            &&& s.status == SaleStatus::Active
            &&& s.sale_start_ts <= now
            &&& round as int == (now - s.sale_start_ts) / (ROUND_DURATION_SECS as int)
            &&& round < 10
            &&& price == s.prices_e9@[round as int]
            &&& price > 0
        },
        !asset_switch_on(s, asset) ==> spec_assert_can_buy(s, now, asset) is Err,
{
    lemma_round_is_elapsed_rounds(now, s.sale_start_ts);
}

/// A SOL purchase: it needs SOL payments switched on, is valued through the
/// oracle's aggregate price and exponent, is priced at the round `now` falls in,
/// binds the buyer record to the buying wallet and presale, and moves the sale's
/// counters by exactly that purchase.
#[verifier::rlimit(50)]
pub proof fn law_sol_purchase(ctx: BuySol, lamports: u64, min_bitlab: u64, now: i64, slot: u64)
    ensures
        spec_buy_with_sol(ctx, lamports, min_bitlab, now, slot) matches Ok((s, b, out)) ==> {
            let p = out.purchase;
            let quote = le_i64_at(ctx.oracle.data@, 208);
            let expo = le_i32_at(ctx.oracle.data@, 20);
            &&& ctx.state.sol_enabled
            &&& p.payment_asset == 0
            &&& p.payment_amount == lamports
            &&& p.buyer == ctx.buyer
            &&& p.timestamp == now
            &&& p.usd_value_e6 == lamports * quote / (ten_pow((3 - expo) as nat) as int)
            &&& p.usd_value_e6 > 0
            &&& p.bitlab_amount >= min_bitlab
            &&& priced_in_round(ctx.state, now, p.usd_value_e6, p.round, p.bitlab_price_e9, p.bitlab_amount)
            &&& record_after_purchase(ctx.buyer_state, b, ctx.buyer, ctx.state_key, ctx.buyer_state_bump, p.usd_value_e6, p.bitlab_amount)
            &&& sale_after_purchase(ctx.state, s, ctx.buyer_state.purchase_count == 0, p.bitlab_amount)
            &&& s.sol_received == ctx.state.sol_received + lamports
            &&& s.usdc_received == ctx.state.usdc_received
            &&& s.usdt_received == ctx.state.usdt_received
            &&& ctx.state.min_purchase_usd_e6 <= p.usd_value_e6 <= ctx.state.max_purchase_usd_e6
            &&& b.usd_contributed_e6 <= ctx.state.max_wallet_usd_e6
        },
{
    let s1 = spec_sync_status(ctx.state, now);
    law_can_buy_needs_enabled_asset(s1, now, 0);
    let d = ctx.oracle.data@;
    if spec_buy_with_sol(ctx, lamports, min_bitlab, now, slot) is Ok {
        let q = spec_read_pyth_price(ctx.oracle.owner, ctx.oracle.key, d, now, slot, s1.oracle_max_staleness_secs);
        assert(q is Ok);
        assert(d.len() >= 240);
        lemma_pow256_values();
        lemma_le_value_bound(d.subrange(208, 216));
        lemma_le_value_bound(d.subrange(20, 24));
        assert(q->Ok_0.0 as int == le_i64_at(d, 208));
        assert(q->Ok_0.1 as int == le_i32_at(d, 20));
        let u = spec_usd_e6_from_sol(lamports, q->Ok_0.0, q->Ok_0.1);
        assert(u is Ok);
        lemma_usd_e6_from_sol_value(lamports, q->Ok_0.0, q->Ok_0.1);
    }
}

/// A stable-coin purchase in `asset` (1 USDC, 2 USDT): it needs that asset's
/// switch on, is worth one micro-dollar per unit, is priced at the round `now`
/// falls in, binds the buyer record to the buying wallet and presale, and moves
/// the sale's counters and that asset's received total by exactly that purchase.
#[verifier::rlimit(50)]
pub proof fn law_stable_purchase(
    st: PresaleState,
    b0: BuyerAccount,
    buyer: Key,
    presale: Key,
    a: StableAccounts,
    bump: u8,
    amount: u64,
    min_bitlab: u64,
    asset: u8,
    now: i64,
)
    ensures
        spec_buy_stable(st, b0, buyer, presale, a, bump, amount, min_bitlab, asset, now) matches Ok((s, b, out)) ==> {
            let p = out.purchase;
            &&& asset_switch_on(st, asset)
            &&& p.payment_asset == asset
            &&& p.payment_amount == amount
            &&& p.usd_value_e6 == amount
            &&& p.buyer == buyer
            &&& p.timestamp == now
            &&& p.bitlab_amount >= min_bitlab
            &&& priced_in_round(st, now, amount, p.round, p.bitlab_price_e9, p.bitlab_amount)
            &&& record_after_purchase(b0, b, buyer, presale, bump, amount, p.bitlab_amount)
            &&& sale_after_purchase(st, s, b0.purchase_count == 0, p.bitlab_amount)
            &&& s.sol_received == st.sol_received
            &&& asset == 1 ==> s.usdc_received == st.usdc_received + amount && s.usdt_received == st.usdt_received
            &&& asset == 2 ==> s.usdt_received == st.usdt_received + amount && s.usdc_received == st.usdc_received
            &&& st.min_purchase_usd_e6 <= amount <= st.max_purchase_usd_e6
            &&& b.usd_contributed_e6 <= st.max_wallet_usd_e6
            &&& a.treasury_ata.owner == st.treasury
            &&& a.buyer_stable.owner == buyer
            &&& a.bitlab_vault.owner == presale
            &&& a.bitlab_vault.mint == spec_bitlab_mint()
            &&& a.token_program == spec_spl_token_program()
        },
{
    let s1 = spec_sync_status(st, now);
    law_can_buy_needs_enabled_asset(s1, now, asset);
}

/// A USDC purchase needs USDC switched on and pays in USDC; a USDT purchase needs
/// USDT switched on and pays in USDT.
pub proof fn law_stable_purchase_needs_its_switch(usdc: BuyUsdc, usdt: BuyUsdt, amount: u64, min_bitlab: u64, now: i64)
    ensures
        spec_buy_with_usdc(usdc, amount, min_bitlab, now) matches Ok((s, b, out)) ==> {
            &&& usdc.state.usdc_enabled
            &&& out.purchase.payment_asset == 1
            &&& s.usdc_received == usdc.state.usdc_received + amount
            &&& b.buyer == usdc.buyer && b.presale == usdc.state_key
        },
        spec_buy_with_usdt(usdt, amount, min_bitlab, now) matches Ok((s, b, out)) ==> {
            &&& usdt.state.usdt_enabled
            &&& out.purchase.payment_asset == 2
            &&& s.usdt_received == usdt.state.usdt_received + amount
            &&& b.buyer == usdt.buyer && b.presale == usdt.state_key
        },
{
    law_stable_purchase(usdc.state, usdc.buyer_state, usdc.buyer, usdc.state_key, crate::buy::usdc_accounts(usdc), usdc.buyer_state_bump, amount, min_bitlab, 1, now);
    law_stable_purchase(usdt.state, usdt.buyer_state, usdt.buyer, usdt.state_key, crate::buy::usdt_accounts(usdt), usdt.buyer_state_bump, amount, min_bitlab, 2, now);
}

/// Finalizing, by the ops authority with the configured vault and an unsold
/// destination owned by the configured one, succeeds on every sale that has
/// sold out or ended: it becomes finalized at `now` and everything left in the
/// vault is to be swept, provided a non-empty vault holds BITLAB for the same
/// mint as the destination, is owned by the presale, and the SPL token program is
/// used.
pub proof fn law_closed_sale_finalizes(ctx: FinalizeSale, now: i64)
    requires
        ctx.ops_authority == ctx.state.ops_authority,
        ctx.bitlab_vault.key == ctx.state.bitlab_vault,
        ctx.unsold_destination.owner == ctx.state.unsold_destination,
        ctx.state.status == SaleStatus::SoldOut || ctx.state.status == SaleStatus::Ended,
        ctx.bitlab_vault.amount > 0 ==> {
            &&& ctx.bitlab_vault.mint == ctx.unsold_destination.mint
            &&& ctx.bitlab_vault.mint == spec_bitlab_mint()
            &&& ctx.token_program == spec_spl_token_program()
            &&& ctx.bitlab_vault.owner == ctx.state_key
        },
    ensures
        spec_finalize_sale(ctx, now) is Ok,
        spec_finalize_sale(ctx, now) matches Ok((s, out)) ==> {
            &&& s.status == SaleStatus::Finalized
            &&& s.finalized_at == now
            &&& s.end_reason == ctx.state.end_reason
            &&& s.total_sold == ctx.state.total_sold
            &&& out.unsold == ctx.bitlab_vault.amount
            &&& out.event.status == SaleStatus::Finalized
            &&& out.event.timestamp == now
        },
{
}

/// Finalizing succeeds only on a sale that has closed (possibly just now, by
/// selling out or reaching the end of its schedule), and leaves it finalized.
pub proof fn law_finalize_needs_closed_sale(ctx: FinalizeSale, now: i64)
    ensures
        spec_finalize_sale(ctx, now) matches Ok((s, out)) ==> {
            &&& ctx.ops_authority == ctx.state.ops_authority
            &&& ctx.unsold_destination.owner == ctx.state.unsold_destination
            &&& ctx.state.status != SaleStatus::Finalized
            &&& ctx.state.status == SaleStatus::SoldOut || ctx.state.status == SaleStatus::Ended
                || ctx.state.total_sold >= ctx.state.allocation
                || (ctx.state.status == SaleStatus::Active && now >= sat_add_i64(ctx.state.sale_start_ts, SALE_DURATION_SECS))
            &&& s.status == SaleStatus::Finalized
            &&& s.finalized_at == now
        },
{
}

/// A created presale records every account and parameter passed in its own
/// field, with no pending authorities, nothing sold and the sale not started.
pub proof fn law_initialize_records_inputs(ctx: Initialize, args: InitializeArgs, rent: u64, now: i64)
    ensures
        spec_initialize(ctx, args, rent, now) matches Ok(out) ==> {
            let s = out.state;
            &&& s.bump == ctx.state_bump
            &&& s.sol_vault_bump == ctx.sol_vault_bump
            &&& s.bitlab_vault == ctx.bitlab_vault
            &&& s.usdc_vault == ctx.usdc_vault
            &&& s.usdt_vault == ctx.usdt_vault
            &&& s.sol_vault == ctx.sol_vault.key
            &&& s.ops_authority == args.ops_authority
            &&& s.treasury_authority == args.treasury_authority
            &&& s.emergency_authority == args.emergency_authority
            &&& s.treasury == args.treasury
            &&& s.unsold_destination == args.unsold_destination
            &&& s.oracle == args.oracle
            &&& s.bitlab_mint == args.bitlab_mint
            &&& s.bitlab_mint == ctx.bitlab_mint.key
            &&& s.usdc_mint == ctx.usdc_mint.key
            &&& s.usdt_mint == ctx.usdt_mint.key
            &&& s.sale_start_ts == args.sale_start_ts
            &&& s.min_purchase_usd_e6 == args.min_purchase_usd_e6
            &&& s.max_purchase_usd_e6 == args.max_purchase_usd_e6
            &&& s.max_wallet_usd_e6 == args.max_wallet_usd_e6
            &&& s.oracle_max_staleness_secs == args.oracle_max_staleness_secs
            &&& s.pending_ops_authority.is_default()
            &&& s.pending_treasury_authority.is_default()
            &&& s.pending_emergency_authority.is_default()
            &&& s.status == SaleStatus::NotStarted
            &&& s.end_reason == EndReason::NotEnded
            &&& !s.config_finalized
            &&& !s.emergency_stop
            &&& s.sol_enabled && s.usdc_enabled && s.usdt_enabled
            &&& s.total_sold == 0 && s.unique_buyers == 0 && s.purchase_count == 0
            &&& s.sol_received == 0 && s.usdc_received == 0 && s.usdt_received == 0
            &&& ctx.payer == args.ops_authority
            &&& out.rent_top_up + ctx.sol_vault.lamports >= rent
            &&& (ctx.sol_vault.lamports >= rent ==> out.rent_top_up == 0)
            &&& out.event.sale_start_ts == args.sale_start_ts
            &&& out.event.timestamp == now
        },
{
}

/// Setting the purchase limits stores exactly the three values given, and is
/// accepted exactly when the ops authority asks while the configuration is open
/// and `1 <= min <= max <= max_wallet`.
pub proof fn law_set_purchase_limits_stores_them(signer: Key, s: PresaleState, min_usd: u64, max_usd: u64, max_wallet: u64)
    ensures
        spec_set_purchase_limits(signer, s, min_usd, max_usd, max_wallet) is Ok <==> (signer == s.ops_authority
            && !s.config_finalized && 1 <= min_usd && min_usd <= max_usd && max_usd <= max_wallet),
        spec_set_purchase_limits(signer, s, min_usd, max_usd, max_wallet) matches Ok((t, _)) ==> {
            &&& t.min_purchase_usd_e6 == min_usd
            &&& t.max_purchase_usd_e6 == max_usd
            &&& t.max_wallet_usd_e6 == max_wallet
            &&& t == (PresaleState {
                min_purchase_usd_e6: t.min_purchase_usd_e6,
                max_purchase_usd_e6: t.max_purchase_usd_e6,
                max_wallet_usd_e6: t.max_wallet_usd_e6,
                ..s
            })
        },
{
}

/// Switching an asset sets exactly that asset's switch to the value given.
pub proof fn law_set_asset_enabled_sets_its_switch(signer: Key, s: PresaleState, asset: u8, enabled: bool)
    ensures
        spec_set_asset_enabled(signer, s, asset, enabled) is Ok <==> (signer == s.ops_authority
            && s.status != SaleStatus::Finalized && asset <= 2),
        spec_set_asset_enabled(signer, s, asset, enabled) matches Ok((t, _)) ==> {
            &&& t.sol_enabled == (if asset == 0 { enabled } else { s.sol_enabled })
            &&& t.usdc_enabled == (if asset == 1 { enabled } else { s.usdc_enabled })
            &&& t.usdt_enabled == (if asset == 2 { enabled } else { s.usdt_enabled })
            &&& t == (PresaleState {
                sol_enabled: t.sol_enabled,
                usdc_enabled: t.usdc_enabled,
                usdt_enabled: t.usdt_enabled,
                ..s
            })
        },
{
}

/// Setting the oracle stores exactly the account and window given.
pub proof fn law_set_oracle_stores_them(signer: Key, s: PresaleState, oracle: Key, secs: i64)
    ensures
        spec_set_oracle(signer, s, oracle, secs) matches Ok((t, _)) ==> {
            &&& t.oracle == oracle
            &&& t.oracle_max_staleness_secs == secs
            &&& 15 <= secs <= 300
            &&& t == (PresaleState { oracle: t.oracle, oracle_max_staleness_secs: t.oracle_max_staleness_secs, ..s })
        },
{
}


/// An accepted quote comes from the pinned Pyth SOL/USD account, is a trading
/// price account of the expected layout, and is returned as read from the
/// aggregate fields: a positive price, an exponent in `-12..=0`, a confidence of
/// at most 10% of the price, a publish time within the staleness window and a
/// publish slot no later than `slot` and within three slots per second of it
/// (at least 25).
pub proof fn law_accepted_quote(o: OracleAccount, now: i64, slot: u64, max_staleness_secs: i64)
    requires
        0 <= max_staleness_secs <= 300,
    ensures
        spec_read_pyth_price(o.owner, o.key, o.data@, now, slot, max_staleness_secs) matches Ok((price, expo, ts)) ==> {
            let d = o.data@;
            &&& o.owner == spec_pyth_program()
            &&& o.key == spec_pyth_sol_usd()
            &&& d.len() >= 240
            &&& le_at(d, 0, 4) == 0xa1b2c3d4
            &&& le_at(d, 8, 4) == 3
            &&& le_at(d, 224, 4) == 1
            &&& price as int == le_i64_at(d, 208)
            &&& expo as int == le_i32_at(d, 20)
            &&& ts as int == le_i64_at(d, 96)
            &&& price > 0
            &&& -12 <= expo <= 0
            &&& le_at(d, 216, 8) * 10_000 < 1_001 * (price as int)
            &&& now - ts <= max_staleness_secs
            &&& le_at(d, 40, 8) <= slot
            &&& slot - le_at(d, 40, 8) <= (if 3 * max_staleness_secs > 25 { 3 * max_staleness_secs } else { 25 })
        },
{
    let d = o.data@;
    if spec_read_pyth_price(o.owner, o.key, d, now, slot, max_staleness_secs) is Ok {
        lemma_pow256_values();
        lemma_le_value_bound(d.subrange(208, 216));
        lemma_le_value_bound(d.subrange(20, 24));
        lemma_le_value_bound(d.subrange(96, 104));
        let price = le_i64_at(d, 208);
        let conf = le_at(d, 216, 8);
        assert(conf * 10_000 < 1_001 * price) by (nonlinear_arith)
            requires
                price > 0,
                (conf as int) * 10_000 / price <= 1000,
        ;
    }
}

/// Pausing: only the ops authority, only an active sale; the sale becomes paused
/// at `now` and nothing else changes.
pub proof fn law_pause_effect(signer: Key, s: PresaleState, now: i64)
    ensures
        spec_pause(signer, s, now) is Ok <==> signer == s.ops_authority && s.status == SaleStatus::Active,
        spec_pause(signer, s, now) matches Ok((t, ev)) ==> {
            &&& t == (PresaleState { status: SaleStatus::Paused, paused_at: now, ..s })
            &&& ev.status == SaleStatus::Paused && ev.reason == s.end_reason && ev.timestamp == now
        },
{
}

/// Resuming: only the ops authority, only a paused sale that was not terminated
/// and is not under emergency stop; the sale becomes active and nothing else changes.
pub proof fn law_resume_effect(signer: Key, s: PresaleState, now: i64)
    ensures
        spec_resume(signer, s, now) is Ok <==> signer == s.ops_authority && s.status == SaleStatus::Paused
            && s.end_reason == EndReason::NotEnded && !s.emergency_stop,
        spec_resume(signer, s, now) matches Ok((t, ev)) ==> {
            &&& t == (PresaleState { status: SaleStatus::Active, ..s })
            &&& ev.status == SaleStatus::Active && ev.timestamp == now
        },
{
}

/// Ending: only the ops authority, only a sale not already closed; it ends at
/// `now` as terminated by the administrator.
pub proof fn law_end_presale_effect(signer: Key, s: PresaleState, now: i64)
    ensures
        spec_end_presale(signer, s, now) is Ok <==> signer == s.ops_authority && s.status != SaleStatus::Ended
            && s.status != SaleStatus::SoldOut && s.status != SaleStatus::Finalized,
        spec_end_presale(signer, s, now) matches Ok((t, ev)) ==> {
            &&& t == (PresaleState { status: SaleStatus::Ended, end_reason: EndReason::AdminTerminated, ended_at: now, ..s })
            &&& ev.status == SaleStatus::Ended && ev.reason == EndReason::AdminTerminated && ev.timestamp == now
        },
{
}

/// Engaging and releasing the emergency stop: only the emergency authority; the
/// stop pauses any sale not finalized, and releasing it only clears the flag.
pub proof fn law_emergency_effect(signer: Key, s: PresaleState, now: i64)
    ensures
        spec_emergency_stop(signer, s, now) is Ok <==> signer == s.emergency_authority && s.status != SaleStatus::Finalized,
        spec_emergency_stop(signer, s, now) matches Ok((t, _)) ==>
            t == (PresaleState { emergency_stop: true, status: SaleStatus::Paused, paused_at: now, ..s }),
        spec_clear_emergency(signer, s, now) is Ok <==> signer == s.emergency_authority && s.emergency_stop,
        spec_clear_emergency(signer, s, now) matches Ok((t, _)) ==> t == (PresaleState { emergency_stop: false, ..s }),
{
}

/// Freezing the configuration and starting the sale.
pub proof fn law_configuration_and_start_effect(signer: Key, s: PresaleState, ts: i64, now: i64)
    ensures
        spec_finalize_config(signer, s, now) is Ok <==> signer == s.ops_authority && !s.config_finalized,
        spec_finalize_config(signer, s, now) matches Ok((t, ev)) ==> {
            &&& t == (PresaleState { config_finalized: true, ..s })
            &&& ev.sale_start_ts == s.sale_start_ts && ev.timestamp == now
        },
        spec_start_sale(signer, s, ts, now) is Ok <==> signer == s.ops_authority && ts > 0 && s.config_finalized
            && s.purchase_count == 0 && s.status == SaleStatus::NotStarted && !s.emergency_stop,
        spec_start_sale(signer, s, ts, now) matches Ok((t, ev)) ==> {
            &&& t == (PresaleState { sale_start_ts: ts, status: SaleStatus::Active, ..s })
            &&& ev.status == SaleStatus::Active && ev.timestamp == now
        },
{
}

/// Proposing and accepting the ops authority, and moving the treasury.
pub proof fn law_authority_effect(signer: Key, s: PresaleState, next: Key, now: i64)
    ensures
        spec_propose_ops_authority(signer, s, next, now) is Ok <==> signer == s.ops_authority && !next.is_default()
            && next != s.ops_authority,
        spec_propose_ops_authority(signer, s, next, now) matches Ok((t, ev)) ==> {
            &&& t == (PresaleState { pending_ops_authority: next, ..s })
            &&& ev.role == 0 && ev.proposed && ev.authority == next && ev.timestamp == now
        },
        spec_accept_ops_authority(signer, s, now) is Ok <==> signer == s.pending_ops_authority && !signer.is_default(),
        spec_accept_ops_authority(signer, s, now) matches Ok((t, ev)) ==> {
            &&& t == (PresaleState { ops_authority: signer, pending_ops_authority: Key::spec_default(), ..s })
            &&& ev.role == 0 && !ev.proposed && ev.authority == signer
        },
        spec_set_treasury(signer, s, next, now) is Ok <==> signer == s.treasury_authority && !next.is_default()
            && next != s.treasury,
        spec_set_treasury(signer, s, next, now) matches Ok((t, ev)) ==> {
            &&& t == (PresaleState { treasury: next, ..s })
            &&& ev.treasury == next && ev.timestamp == now
        },
{
}

/// A SOL withdrawal by the treasury authority moves exactly `amount` to the
/// treasury out of the configured system-owned vault, never below `rent`; it
/// succeeds whenever those hold.
pub proof fn law_withdraw_sol_effect(ctx: WithdrawSol, rent: u64, amount: u64, now: i64)
    ensures
        spec_withdraw_sol(ctx, rent, amount, now) is Ok <==> {
            &&& ctx.treasury_authority == ctx.state.treasury_authority
            &&& ctx.sol_vault.key == ctx.state.sol_vault
            &&& ctx.destination == ctx.state.treasury
            &&& amount > 0
            &&& ctx.sol_vault.owner == spec_system_program()
            &&& (if ctx.sol_vault.lamports >= amount { ctx.sol_vault.lamports - amount } else { 0 }) >= rent
        },
        spec_withdraw_sol(ctx, rent, amount, now) matches Ok(ev) ==> {
            &&& ev.asset == 0 && ev.amount == amount && ev.destination == ctx.state.treasury
            &&& !ev.emergency && ev.timestamp == now
        },
{
}

/// An emergency SOL recovery needs the emergency stop engaged and otherwise acts
/// like a withdrawal.
pub proof fn law_emergency_recover_sol_effect(ctx: EmergencyWithdrawSol, rent: u64, amount: u64, now: i64)
    ensures
        spec_emergency_recover_sol(ctx, rent, amount, now) is Ok ==> ctx.state.emergency_stop
            && ctx.emergency_authority == ctx.state.emergency_authority,
        spec_emergency_recover_sol(ctx, rent, amount, now) matches Ok(ev) ==> {
            &&& ev.asset == 0 && ev.amount == amount && ev.destination == ctx.state.treasury && ev.emergency
        },
{
}

/// A stable-coin withdrawal moves exactly `amount` of a presale-owned vault that
/// holds at least that much, never BITLAB, to a treasury account of the same mint.
pub proof fn law_withdraw_stable_effect(
    s: PresaleState,
    state_key: Key,
    vault: TokenAccountInfo,
    destination: TokenAccountInfo,
    token_program: Key,
    amount: u64,
    emergency: bool,
    asset: u8,
    now: i64,
)
    ensures
        spec_withdraw_stable(s, state_key, vault, destination, token_program, amount, emergency, asset, now) is Ok <==> {
            &&& amount > 0
            &&& destination.owner == s.treasury
            &&& vault.mint == destination.mint
            &&& vault.owner == state_key
            &&& vault.amount >= amount
            &&& vault.mint != s.bitlab_mint
            &&& token_program == spec_spl_token_program()
        },
        spec_withdraw_stable(s, state_key, vault, destination, token_program, amount, emergency, asset, now) matches Ok(ev) ==> {
            &&& ev.asset == asset && ev.amount == amount && ev.destination == s.treasury
            &&& ev.emergency == emergency && ev.timestamp == now
        },
{
}

} // verus!
