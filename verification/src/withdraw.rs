//! Withdrawals of the payments held by the presale's vaults, in the normal course
//! (treasury authority) and under emergency stop (emergency authority).

use vstd::prelude::*;
use crate::constants::{spec_system_program, system_program};
use crate::error::PresaleError;
use crate::key::Key;
use crate::presale_state::{PresaleState, WithdrawEvent};
use crate::sale::{sat_sub_u64, spec_transfer_signed_tokens, transfer_signed_tokens, TokenAccountInfo};

verus! {

/// What the presale reads of its SOL vault.
#[derive(Clone, Copy)]
pub struct SolVaultInfo {
    pub key: Key,
    pub owner: Key,
    pub lamports: u64,
    pub data_is_empty: bool,
}

pub struct WithdrawSol {
    pub treasury_authority: Key,
    pub state: PresaleState,
    pub sol_vault: SolVaultInfo,
    pub destination: Key,
}

pub struct EmergencyWithdrawSol {
    pub emergency_authority: Key,
    pub state: PresaleState,
    pub sol_vault: SolVaultInfo,
    pub destination: Key,
}

pub struct WithdrawUsdc {
    pub treasury_authority: Key,
    pub state_key: Key,
    pub state: PresaleState,
    pub usdc_vault: TokenAccountInfo,
    pub destination: TokenAccountInfo,
    pub token_program: Key,
}

pub struct WithdrawUsdt {
    pub treasury_authority: Key,
    pub state_key: Key,
    pub state: PresaleState,
    pub usdt_vault: TokenAccountInfo,
    pub destination: TokenAccountInfo,
    pub token_program: Key,
}

pub struct EmergencyWithdrawUsdc {
    pub emergency_authority: Key,
    pub state_key: Key,
    pub state: PresaleState,
    pub usdc_vault: TokenAccountInfo,
    pub destination: TokenAccountInfo,
    pub token_program: Key,
}

pub struct EmergencyWithdrawUsdt {
    pub emergency_authority: Key,
    pub state_key: Key,
    pub state: PresaleState,
    pub usdt_vault: TokenAccountInfo,
    pub destination: TokenAccountInfo,
    pub token_program: Key,
}

/// A SOL withdrawal of `amount` lamports to `destination`, which must be the
/// treasury, out of the presale's system-owned SOL vault, leaving it at least
/// `rent` lamports.
pub open spec fn spec_withdraw_sol_inner(
    s: PresaleState,
    vault: SolVaultInfo,
    destination: Key,
    rent: u64,
    amount: u64,
    emergency: bool,
    now: i64,
) -> Result<WithdrawEvent, PresaleError> {
    if amount == 0 {
        Err(PresaleError::ZeroPayment)
    } else if destination != s.treasury {
        Err(PresaleError::InvalidDestination)
    } else if vault.key != s.sol_vault {
        Err(PresaleError::InvalidVault)
    } else if vault.owner != spec_system_program() {
        Err(PresaleError::InvalidSolVault)
    } else if sat_sub_u64(vault.lamports, amount) < rent {
        Err(PresaleError::RentExempt)
    } else {
        Ok(WithdrawEvent { asset: 0, amount: amount, destination: destination, emergency: emergency, timestamp: now })
    }
}

/// Checks a SOL withdrawal; the caller moves the lamports once this returns `Ok`.
pub fn withdraw_sol_inner(
    state: &PresaleState,
    sol_vault: &SolVaultInfo,
    destination: Key,
    rent: u64,
    amount: u64,
    emergency: bool,
    now: i64,
) -> (r: Result<WithdrawEvent, PresaleError>)
    ensures
        r == spec_withdraw_sol_inner(*state, *sol_vault, destination, rent, amount, emergency, now),
        r is Ok ==> destination == state.treasury && sat_sub_u64(sol_vault.lamports, amount) >= rent,
{
    if !(amount > 0) {
        return Err(PresaleError::ZeroPayment);
    }
    if !(destination == state.treasury) {
        return Err(PresaleError::InvalidDestination);
    }
    if !(sol_vault.key == state.sol_vault) {
        return Err(PresaleError::InvalidVault);
    }
    if !(sol_vault.owner == system_program()) {
        return Err(PresaleError::InvalidSolVault);
    }
    if !(sol_vault.lamports.saturating_sub(amount) >= rent) {
        return Err(PresaleError::RentExempt);
    }
    Ok(WithdrawEvent { asset: 0, amount: amount, destination: destination, emergency: emergency, timestamp: now })
}

/// A withdrawal of `amount` from a presale-owned stable-coin vault to a treasury
/// account of the same mint; BITLAB can never leave this way.
pub open spec fn spec_withdraw_stable(
    s: PresaleState,
    state_key: Key,
    vault: TokenAccountInfo,
    destination: TokenAccountInfo,
    token_program: Key,
    amount: u64,
    emergency: bool,
    asset: u8,
    now: i64,
) -> Result<WithdrawEvent, PresaleError> {
    if amount == 0 {
        Err(PresaleError::ZeroPayment)
    } else if destination.owner != s.treasury {
        Err(PresaleError::InvalidDestination)
    } else if vault.mint != destination.mint {
        Err(PresaleError::InvalidVault)
    } else if vault.owner != state_key {
        Err(PresaleError::VaultOwner)
    } else if vault.amount < amount {
        Err(PresaleError::InsufficientVault)
    } else if vault.mint == s.bitlab_mint {
        Err(PresaleError::BitlabProtected)
    } else {
        match spec_transfer_signed_tokens(token_program, vault, state_key) {
            Err(e) => Err(e),
            Ok(_) => Ok(WithdrawEvent {
                asset: asset,
                amount: amount,
                destination: destination.owner,
                emergency: emergency,
                timestamp: now,
            }),
        }
    }
}

/// Checks a stable-coin withdrawal; the caller moves the tokens once this returns `Ok`.
pub fn withdraw_stable(
    state: &PresaleState,
    state_key: Key,
    vault: &TokenAccountInfo,
    destination: &TokenAccountInfo,
    token_program: Key,
    amount: u64,
    emergency: bool,
    asset: u8,
    now: i64,
) -> (r: Result<WithdrawEvent, PresaleError>)
    ensures
        r == spec_withdraw_stable(*state, state_key, *vault, *destination, token_program, amount, emergency, asset, now),
        r is Ok ==> {
            &&& destination.owner == state.treasury
            &&& vault.mint != state.bitlab_mint
            &&& amount <= vault.amount
        },
{
    if !(amount > 0) {
        return Err(PresaleError::ZeroPayment);
    }
    if !(destination.owner == state.treasury) {
        return Err(PresaleError::InvalidDestination);
    }
    if !(vault.mint == destination.mint) {
        return Err(PresaleError::InvalidVault);
    }
    if !(vault.owner == state_key) {
        return Err(PresaleError::VaultOwner);
    }
    if !(vault.amount >= amount) {
        return Err(PresaleError::InsufficientVault);
    }
    if !(vault.mint != state.bitlab_mint) {
        return Err(PresaleError::BitlabProtected);
    }
    match transfer_signed_tokens(token_program, vault, state_key) {
        Ok(_) => {},
        Err(e) => return Err(e),
    }
    Ok(
        WithdrawEvent {
            asset: asset,
            amount: amount,
            destination: destination.owner,
            emergency: emergency,
            timestamp: now,
        },
    )
}

pub open spec fn spec_withdraw_sol(ctx: WithdrawSol, rent: u64, amount: u64, now: i64) -> Result<WithdrawEvent, PresaleError> {
    if ctx.treasury_authority != ctx.state.treasury_authority {
        Err(PresaleError::Unauthorized)
    } else if ctx.sol_vault.key != ctx.state.sol_vault {
        Err(PresaleError::InvalidVault)
    } else if ctx.destination != ctx.state.treasury {
        Err(PresaleError::InvalidDestination)
    } else {
        spec_withdraw_sol_inner(ctx.state, ctx.sol_vault, ctx.destination, rent, amount, false, now)
    }
}

/// The treasury authority withdraws `amount` lamports of SOL to the treasury,
/// keeping the vault rent-exempt (`rent` is the rent-exempt minimum).
pub fn withdraw_sol(ctx: &WithdrawSol, rent: u64, amount: u64, now: i64) -> (r: Result<WithdrawEvent, PresaleError>)
    ensures
        r == spec_withdraw_sol(*ctx, rent, amount, now),
        r is Ok ==> ctx.destination == ctx.state.treasury && ctx.treasury_authority == ctx.state.treasury_authority,
{
    if !(ctx.treasury_authority == ctx.state.treasury_authority) {
        return Err(PresaleError::Unauthorized);
    }
    if !(ctx.sol_vault.key == ctx.state.sol_vault) {
        return Err(PresaleError::InvalidVault);
    }
    if !(ctx.destination == ctx.state.treasury) {
        return Err(PresaleError::InvalidDestination);
    }
    withdraw_sol_inner(&ctx.state, &ctx.sol_vault, ctx.destination, rent, amount, false, now)
}

pub open spec fn spec_emergency_recover_sol(ctx: EmergencyWithdrawSol, rent: u64, amount: u64, now: i64) -> Result<WithdrawEvent, PresaleError> {
    if ctx.emergency_authority != ctx.state.emergency_authority {
        Err(PresaleError::Unauthorized)
    } else if ctx.sol_vault.key != ctx.state.sol_vault {
        Err(PresaleError::InvalidVault)
    } else if ctx.destination != ctx.state.treasury {
        Err(PresaleError::InvalidDestination)
    } else if !ctx.state.emergency_stop {
        Err(PresaleError::EmergencyNotEngaged)
    } else {
        spec_withdraw_sol_inner(ctx.state, ctx.sol_vault, ctx.destination, rent, amount, true, now)
    }
}

/// Under emergency stop, the emergency authority withdraws SOL to the treasury.
pub fn emergency_recover_sol(ctx: &EmergencyWithdrawSol, rent: u64, amount: u64, now: i64) -> (r: Result<WithdrawEvent, PresaleError>)
    ensures
        r == spec_emergency_recover_sol(*ctx, rent, amount, now),
        r is Ok ==> ctx.state.emergency_stop && ctx.destination == ctx.state.treasury,
{
    if !(ctx.emergency_authority == ctx.state.emergency_authority) {
        return Err(PresaleError::Unauthorized);
    }
    if !(ctx.sol_vault.key == ctx.state.sol_vault) {
        return Err(PresaleError::InvalidVault);
    }
    if !(ctx.destination == ctx.state.treasury) {
        return Err(PresaleError::InvalidDestination);
    }
    if !ctx.state.emergency_stop {
        return Err(PresaleError::EmergencyNotEngaged);
    }
    withdraw_sol_inner(&ctx.state, &ctx.sol_vault, ctx.destination, rent, amount, true, now)
}


pub open spec fn spec_withdraw_usdc(ctx: WithdrawUsdc, amount: u64, now: i64) -> Result<WithdrawEvent, PresaleError> {
    if ctx.treasury_authority != ctx.state.treasury_authority {
        Err(PresaleError::Unauthorized)
    } else if ctx.usdc_vault.key != ctx.state.usdc_vault {
        Err(PresaleError::InvalidVault)
    } else {
        spec_withdraw_stable(ctx.state, ctx.state_key, ctx.usdc_vault, ctx.destination, ctx.token_program, amount, false, 1, now)
    }
}

/// The treasury authority withdraws `amount` of USDC to a treasury account.
pub fn withdraw_usdc(ctx: &WithdrawUsdc, amount: u64, now: i64) -> (r: Result<WithdrawEvent, PresaleError>)
    ensures
        r == spec_withdraw_usdc(*ctx, amount, now),
        r is Ok ==> ctx.destination.owner == ctx.state.treasury,
{
    if !(ctx.treasury_authority == ctx.state.treasury_authority) {
        return Err(PresaleError::Unauthorized);
    }
    if !(ctx.usdc_vault.key == ctx.state.usdc_vault) {
        return Err(PresaleError::InvalidVault);
    }
    withdraw_stable(&ctx.state, ctx.state_key, &ctx.usdc_vault, &ctx.destination, ctx.token_program, amount, false, 1, now)
}

pub open spec fn spec_emergency_recover_usdc(ctx: EmergencyWithdrawUsdc, amount: u64, now: i64) -> Result<WithdrawEvent, PresaleError> {
    if ctx.emergency_authority != ctx.state.emergency_authority {
        Err(PresaleError::Unauthorized)
    } else if ctx.usdc_vault.key != ctx.state.usdc_vault {
        Err(PresaleError::InvalidVault)
    } else if !ctx.state.emergency_stop {
        Err(PresaleError::EmergencyNotEngaged)
    } else {
        spec_withdraw_stable(ctx.state, ctx.state_key, ctx.usdc_vault, ctx.destination, ctx.token_program, amount, true, 1, now)
    }
}

/// Under emergency stop, the emergency authority withdraws USDC to a treasury account.
pub fn emergency_recover_usdc(ctx: &EmergencyWithdrawUsdc, amount: u64, now: i64) -> (r: Result<WithdrawEvent, PresaleError>)
    ensures
        r == spec_emergency_recover_usdc(*ctx, amount, now),
        r is Ok ==> ctx.state.emergency_stop && ctx.destination.owner == ctx.state.treasury,
{
    if !(ctx.emergency_authority == ctx.state.emergency_authority) {
        return Err(PresaleError::Unauthorized);
    }
    if !(ctx.usdc_vault.key == ctx.state.usdc_vault) {
        return Err(PresaleError::InvalidVault);
    }
    if !ctx.state.emergency_stop {
        return Err(PresaleError::EmergencyNotEngaged);
    }
    withdraw_stable(&ctx.state, ctx.state_key, &ctx.usdc_vault, &ctx.destination, ctx.token_program, amount, true, 1, now)
}

pub open spec fn spec_withdraw_usdt(ctx: WithdrawUsdt, amount: u64, now: i64) -> Result<WithdrawEvent, PresaleError> {
    if ctx.treasury_authority != ctx.state.treasury_authority {
        Err(PresaleError::Unauthorized)
    } else if ctx.usdt_vault.key != ctx.state.usdt_vault {
        Err(PresaleError::InvalidVault)
    } else {
        spec_withdraw_stable(ctx.state, ctx.state_key, ctx.usdt_vault, ctx.destination, ctx.token_program, amount, false, 2, now)
    }
}

/// The treasury authority withdraws `amount` of USDT to a treasury account.
pub fn withdraw_usdt(ctx: &WithdrawUsdt, amount: u64, now: i64) -> (r: Result<WithdrawEvent, PresaleError>)
    ensures
        r == spec_withdraw_usdt(*ctx, amount, now),
        r is Ok ==> ctx.destination.owner == ctx.state.treasury,
{
    if !(ctx.treasury_authority == ctx.state.treasury_authority) {
        return Err(PresaleError::Unauthorized);
    }
    if !(ctx.usdt_vault.key == ctx.state.usdt_vault) {
        return Err(PresaleError::InvalidVault);
    }
    withdraw_stable(&ctx.state, ctx.state_key, &ctx.usdt_vault, &ctx.destination, ctx.token_program, amount, false, 2, now)
}

pub open spec fn spec_emergency_recover_usdt(ctx: EmergencyWithdrawUsdt, amount: u64, now: i64) -> Result<WithdrawEvent, PresaleError> {
    if ctx.emergency_authority != ctx.state.emergency_authority {
        Err(PresaleError::Unauthorized)
    } else if ctx.usdt_vault.key != ctx.state.usdt_vault {
        Err(PresaleError::InvalidVault)
    } else if !ctx.state.emergency_stop {
        Err(PresaleError::EmergencyNotEngaged)
    } else {
        spec_withdraw_stable(ctx.state, ctx.state_key, ctx.usdt_vault, ctx.destination, ctx.token_program, amount, true, 2, now)
    }
}

/// Under emergency stop, the emergency authority withdraws USDT to a treasury account.
pub fn emergency_recover_usdt(ctx: &EmergencyWithdrawUsdt, amount: u64, now: i64) -> (r: Result<WithdrawEvent, PresaleError>)
    ensures
        r == spec_emergency_recover_usdt(*ctx, amount, now),
        r is Ok ==> ctx.state.emergency_stop && ctx.destination.owner == ctx.state.treasury,
{
    if !(ctx.emergency_authority == ctx.state.emergency_authority) {
        return Err(PresaleError::Unauthorized);
    }
    if !(ctx.usdt_vault.key == ctx.state.usdt_vault) {
        return Err(PresaleError::InvalidVault);
    }
    if !ctx.state.emergency_stop {
        return Err(PresaleError::EmergencyNotEngaged);
    }
    withdraw_stable(&ctx.state, ctx.state_key, &ctx.usdt_vault, &ctx.destination, ctx.token_program, amount, true, 2, now)
}

} // verus!
