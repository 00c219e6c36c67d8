//! Creation of the presale.

use vstd::prelude::*;
use crate::constants::{
    assert_limit_invariant, assert_pubkey_set, assert_staleness_bounds, bitlab_mint, limits_ok,
    pyth_sol_usd, spec_bitlab_mint, spec_pyth_sol_usd, spec_usdc_mint, spec_usdt_mint, staleness_ok,
    usdc_mint, usdt_mint, BITLAB_DECIMALS, PRESALE_ALLOCATION, ROUND_COUNT, ROUND_DURATION_SECS,
    ROUND_PRICES_E9, STABLE_DECIMALS,
};
use crate::error::PresaleError;
use crate::key::Key;
use crate::presale_state::{ConfigEvent, EndReason, PresaleState, SaleStatus};
use crate::withdraw::SolVaultInfo;

verus! {

/// What the presale reads of a token mint.
#[derive(Clone, Copy)]
pub struct MintInfo {
    pub key: Key,
    pub decimals: u8,
    pub mint_authority: Option<Key>,
    pub freeze_authority: Option<Key>,
}

/// The parameters the deployer chooses.
#[derive(Clone, Copy)]
pub struct InitializeArgs {
    pub ops_authority: Key,
    pub treasury_authority: Key,
    pub emergency_authority: Key,
    pub treasury: Key,
    pub unsold_destination: Key,
    pub oracle: Key,
    pub bitlab_mint: Key,
    pub sale_start_ts: i64,
    pub min_purchase_usd_e6: u64,
    pub max_purchase_usd_e6: u64,
    pub max_wallet_usd_e6: u64,
    pub oracle_max_staleness_secs: i64,
}

/// The accounts of the creation of the presale, as plain values.
pub struct Initialize {
    pub payer: Key,
    pub state_bump: u8,
    pub sol_vault: SolVaultInfo,
    pub sol_vault_bump: u8,
    pub bitlab_mint: MintInfo,
    pub usdc_mint: MintInfo,
    pub usdt_mint: MintInfo,
    pub bitlab_vault: Key,
    pub usdc_vault: Key,
    pub usdt_vault: Key,
}

/// What creating the presale yields: its state, the lamports the payer must add to
/// make the SOL vault rent-exempt, and the configuration event.
#[derive(Clone, Copy)]
pub struct InitOutcome {
    pub state: PresaleState,
    pub rent_top_up: u64,
    pub event: ConfigEvent,
}

/// The state of a freshly created presale.
pub open spec fn initial_state(ctx: Initialize, args: InitializeArgs) -> PresaleState {
    PresaleState {
        bump: ctx.state_bump,
        sol_vault_bump: ctx.sol_vault_bump,
        config_finalized: false,
        status: SaleStatus::NotStarted,
        end_reason: EndReason::NotEnded,
        emergency_stop: false,
        ops_authority: args.ops_authority,
        pending_ops_authority: Key::spec_default(),
        treasury_authority: args.treasury_authority,
        pending_treasury_authority: Key::spec_default(),
        emergency_authority: args.emergency_authority,
        pending_emergency_authority: Key::spec_default(),
        treasury: args.treasury,
        unsold_destination: args.unsold_destination,
        bitlab_mint: spec_bitlab_mint(),
        usdc_mint: spec_usdc_mint(),
        usdt_mint: spec_usdt_mint(),
        bitlab_vault: ctx.bitlab_vault,
        usdc_vault: ctx.usdc_vault,
        usdt_vault: ctx.usdt_vault,
        sol_vault: ctx.sol_vault.key,
        oracle: spec_pyth_sol_usd(),
        allocation: PRESALE_ALLOCATION,
        total_sold: 0,
        unique_buyers: 0,
        purchase_count: 0,
        sale_start_ts: args.sale_start_ts,
        round_duration_secs: ROUND_DURATION_SECS,
        round_count: ROUND_COUNT,
        prices_e9: ROUND_PRICES_E9,
        sol_enabled: true,
        usdc_enabled: true,
        usdt_enabled: true,
        min_purchase_usd_e6: args.min_purchase_usd_e6,
        max_purchase_usd_e6: args.max_purchase_usd_e6,
        max_wallet_usd_e6: args.max_wallet_usd_e6,
        oracle_max_staleness_secs: args.oracle_max_staleness_secs,
        paused_at: 0,
        ended_at: 0,
        finalized_at: 0,
        sol_received: 0,
        usdc_received: 0,
        usdt_received: 0,
    }
}

/// The outcome of creating the presale, `rent` being the rent-exempt minimum of
/// the SOL vault.
pub open spec fn spec_initialize(ctx: Initialize, args: InitializeArgs, rent: u64, now: i64) -> Result<
    InitOutcome,
    PresaleError,
> {
    if ctx.bitlab_mint.key != spec_bitlab_mint() || ctx.usdc_mint.key != spec_usdc_mint()
        || ctx.usdt_mint.key != spec_usdt_mint() {
        Err(PresaleError::UnapprovedMint)
    } else if args.ops_authority.is_default() || args.treasury_authority.is_default()
        || args.emergency_authority.is_default() || args.treasury.is_default()
        || args.unsold_destination.is_default() {
        Err(PresaleError::InvalidAuthority)
    } else if ctx.payer != args.ops_authority {
        Err(PresaleError::Unauthorized)
    } else if args.bitlab_mint != spec_bitlab_mint() {
        Err(PresaleError::UnapprovedMint)
    } else if args.oracle != spec_pyth_sol_usd() {
        Err(PresaleError::InvalidOracle)
    } else if args.sale_start_ts <= 0 {
        Err(PresaleError::InvalidStartTs)
    } else if ctx.bitlab_mint.decimals != BITLAB_DECIMALS || ctx.usdc_mint.decimals != STABLE_DECIMALS
        || ctx.usdt_mint.decimals != STABLE_DECIMALS {
        Err(PresaleError::AccountMismatch)
    } else if ctx.bitlab_mint.mint_authority is Some || ctx.bitlab_mint.freeze_authority is Some {
        Err(PresaleError::MintAuthorityActive)
    } else if !limits_ok(args.min_purchase_usd_e6, args.max_purchase_usd_e6, args.max_wallet_usd_e6) {
        Err(PresaleError::LimitInvariant)
    } else if !staleness_ok(args.oracle_max_staleness_secs) {
        Err(PresaleError::OracleStalenessBounds)
    } else if !ctx.sol_vault.data_is_empty {
        Err(PresaleError::InvalidSolVault)
    } else {
        Ok(InitOutcome {
            state: initial_state(ctx, args),
            rent_top_up: if ctx.sol_vault.lamports < rent { (rent - ctx.sol_vault.lamports) as u64 } else { 0 },
            event: ConfigEvent { sale_start_ts: args.sale_start_ts, timestamp: now },
        })
    }
}

/// Creates the presale with the official mints and oracle, refusing unset
/// authorities, a payer other than the ops authority, mints other than the
/// official ones or with other decimals, a BITLAB mint that can still be minted or
/// frozen, bad purchase limits, a bad staleness window, or a used SOL vault.
pub fn initialize(ctx: &Initialize, args: &InitializeArgs, rent: u64, now: i64) -> (r: Result<InitOutcome, PresaleError>)
    ensures
        r == spec_initialize(*ctx, *args, rent, now),
        r matches Ok(out) ==> out.state.inv() && out.state.status == SaleStatus::NotStarted && !out.state.config_finalized,
{
    if !(ctx.bitlab_mint.key == bitlab_mint()) {
        return Err(PresaleError::UnapprovedMint);
    }
    if !(ctx.usdc_mint.key == usdc_mint()) {
        return Err(PresaleError::UnapprovedMint);
    }
    if !(ctx.usdt_mint.key == usdt_mint()) {
        return Err(PresaleError::UnapprovedMint);
    }
    match assert_pubkey_set(&args.ops_authority) {
        Ok(_) => {},
        Err(e) => return Err(e),
    }
    match assert_pubkey_set(&args.treasury_authority) {
        Ok(_) => {},
        Err(e) => return Err(e),
    }
    match assert_pubkey_set(&args.emergency_authority) {
        Ok(_) => {},
        Err(e) => return Err(e),
    }
    match assert_pubkey_set(&args.treasury) {
        Ok(_) => {},
        Err(e) => return Err(e),
    }
    match assert_pubkey_set(&args.unsold_destination) {
        Ok(_) => {},
        Err(e) => return Err(e),
    }
    if !(ctx.payer == args.ops_authority) {
        return Err(PresaleError::Unauthorized);
    }
    if !(args.bitlab_mint == bitlab_mint()) {
        return Err(PresaleError::UnapprovedMint);
    }
    if !(args.oracle == pyth_sol_usd()) {
        return Err(PresaleError::InvalidOracle);
    }
    if !(args.sale_start_ts > 0) {
        return Err(PresaleError::InvalidStartTs);
    }
    if !(ctx.bitlab_mint.decimals == BITLAB_DECIMALS) {
        return Err(PresaleError::AccountMismatch);
    }
    if !(ctx.usdc_mint.decimals == STABLE_DECIMALS) {
        return Err(PresaleError::AccountMismatch);
    }
    if !(ctx.usdt_mint.decimals == STABLE_DECIMALS) {
        return Err(PresaleError::AccountMismatch);
    }
    if !(ctx.bitlab_mint.mint_authority.is_none()) {
        return Err(PresaleError::MintAuthorityActive);
    }
    if !(ctx.bitlab_mint.freeze_authority.is_none()) {
        return Err(PresaleError::MintAuthorityActive);
    }
    match assert_limit_invariant(args.min_purchase_usd_e6, args.max_purchase_usd_e6, args.max_wallet_usd_e6) {
        Ok(_) => {},
        Err(e) => return Err(e),
    }
    let staleness = match assert_staleness_bounds(args.oracle_max_staleness_secs) {
        Ok(v) => v,
        Err(e) => return Err(e),
    };
    if !ctx.sol_vault.data_is_empty {
        return Err(PresaleError::InvalidSolVault);
    }
    let rent_top_up: u64 = if ctx.sol_vault.lamports < rent {
        rent.saturating_sub(ctx.sol_vault.lamports)
    } else {
        0
    };
    let state = PresaleState {
        bump: ctx.state_bump,
        sol_vault_bump: ctx.sol_vault_bump,
        config_finalized: false,
        status: SaleStatus::NotStarted,
        end_reason: EndReason::NotEnded,
        emergency_stop: false,
        ops_authority: args.ops_authority,
        pending_ops_authority: Key::default_key(),
        treasury_authority: args.treasury_authority,
        pending_treasury_authority: Key::default_key(),
        emergency_authority: args.emergency_authority,
        pending_emergency_authority: Key::default_key(),
        treasury: args.treasury,
        unsold_destination: args.unsold_destination,
        bitlab_mint: bitlab_mint(),
        usdc_mint: usdc_mint(),
        usdt_mint: usdt_mint(),
        bitlab_vault: ctx.bitlab_vault,
        usdc_vault: ctx.usdc_vault,
        usdt_vault: ctx.usdt_vault,
        sol_vault: ctx.sol_vault.key,
        oracle: pyth_sol_usd(),
        allocation: PRESALE_ALLOCATION,
        total_sold: 0,
        unique_buyers: 0,
        purchase_count: 0,
        sale_start_ts: args.sale_start_ts,
        round_duration_secs: ROUND_DURATION_SECS,
        round_count: ROUND_COUNT,
        prices_e9: ROUND_PRICES_E9,
        sol_enabled: true,
        usdc_enabled: true,
        usdt_enabled: true,
        min_purchase_usd_e6: args.min_purchase_usd_e6,
        max_purchase_usd_e6: args.max_purchase_usd_e6,
        max_wallet_usd_e6: args.max_wallet_usd_e6,
        oracle_max_staleness_secs: staleness,
        paused_at: 0,
        ended_at: 0,
        finalized_at: 0,
        sol_received: 0,
        usdc_received: 0,
        usdt_received: 0,
    };
    Ok(InitOutcome { state: state, rent_top_up: rent_top_up, event: ConfigEvent { sale_start_ts: args.sale_start_ts, timestamp: now } })
}

} // verus!
