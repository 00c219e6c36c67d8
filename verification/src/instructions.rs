//! The administrative instructions: configuration, the sale's lifecycle, the
//! two-step hand-over of each authority, and the emergency stop.

use vstd::prelude::*;
use crate::constants::{
    assert_limit_invariant, assert_pubkey_set, assert_staleness_bounds, limits_ok, pyth_sol_usd,
    spec_pyth_sol_usd, staleness_ok,
};
use crate::error::PresaleError;
use crate::key::Key;
use crate::presale_state::{
    AuthorityEvent, ConfigEvent, EndReason, PresaleState, SaleStatus, StatusEvent, TreasuryEvent,
};
use crate::sale::{spec_sync_status, spec_transfer_bitlab, sync_status, transfer_bitlab, TokenAccountInfo};

verus! {

/// An instruction signed by the ops authority.
pub struct OpsOnly {
    pub ops_authority: Key,
    pub state: PresaleState,
}

/// An instruction signed by the treasury authority.
pub struct TreasuryOnly {
    pub treasury_authority: Key,
    pub state: PresaleState,
}

/// An instruction signed by the emergency authority.
pub struct EmergencyOnly {
    pub emergency_authority: Key,
    pub state: PresaleState,
}

/// Acceptance of the ops authority by the proposed key.
pub struct AcceptOps {
    pub new_authority: Key,
    pub state: PresaleState,
}

/// Acceptance of the treasury authority by the proposed key.
pub struct AcceptTreasury {
    pub new_authority: Key,
    pub state: PresaleState,
}

/// Acceptance of the emergency authority by the proposed key.
pub struct AcceptEmergency {
    pub new_authority: Key,
    pub state: PresaleState,
}

/// `r`, `before` and `after` are what an instruction whose rule gives `expected`
/// returns and does: on success the new state and the event, on refusal the error
/// and no change.
pub open spec fn applied<E>(
    expected: Result<(PresaleState, E), PresaleError>,
    r: Result<E, PresaleError>,
    before: PresaleState,
    after: PresaleState,
) -> bool {
    match expected {
        Ok((t, ev)) => r == Ok::<E, PresaleError>(ev) && after == t,
        Err(e) => r == Err::<E, PresaleError>(e) && after == before,
    }
}

/// The status event reporting the state `t` at `now`.
pub open spec fn status_event(t: PresaleState, now: i64) -> StatusEvent {
    StatusEvent { status: t.status, reason: t.end_reason, timestamp: now }
}

// ---------------------------------------------------------------- configuration

pub open spec fn spec_finalize_config(signer: Key, s: PresaleState, now: i64) -> Result<(PresaleState, ConfigEvent), PresaleError> {
    if signer != s.ops_authority {
        Err(PresaleError::Unauthorized)
    } else if s.config_finalized {
        Err(PresaleError::ConfigFrozen)
    } else {
        Ok((PresaleState { config_finalized: true, ..s }, ConfigEvent { sale_start_ts: s.sale_start_ts, timestamp: now }))
    }
}

/// Freezes the configuration (purchase limits and oracle); purchases need it frozen.
pub fn finalize_config(ctx: &mut OpsOnly, now: i64) -> (r: Result<ConfigEvent, PresaleError>)
    ensures
        applied(spec_finalize_config(old(ctx).ops_authority, old(ctx).state, now), r, old(ctx).state, final(ctx).state),
        final(ctx).ops_authority == old(ctx).ops_authority,
        final(ctx).state.evolves_from(old(ctx).state),
        old(ctx).state.inv() ==> final(ctx).state.inv(),
{
    if !(ctx.ops_authority == ctx.state.ops_authority) {
        return Err(PresaleError::Unauthorized);
    }
    if !(!ctx.state.config_finalized) {
        return Err(PresaleError::ConfigFrozen);
    }
    ctx.state.config_finalized = true;
    Ok(ConfigEvent { sale_start_ts: ctx.state.sale_start_ts, timestamp: now })
}

pub open spec fn spec_set_asset_enabled(signer: Key, s: PresaleState, asset: u8, enabled: bool) -> Result<(PresaleState, ()), PresaleError> {
    if signer != s.ops_authority {
        Err(PresaleError::Unauthorized)
    } else if s.status == SaleStatus::Finalized {
        Err(PresaleError::AlreadyFinalized)
    } else if asset == 0 {
        Ok((PresaleState { sol_enabled: enabled, ..s }, ()))
    } else if asset == 1 {
        Ok((PresaleState { usdc_enabled: enabled, ..s }, ()))
    } else if asset == 2 {
        Ok((PresaleState { usdt_enabled: enabled, ..s }, ()))
    } else {
        Err(PresaleError::AssetDisabled)
    }
}

/// Turns payments in `asset` (0 SOL, 1 USDC, 2 USDT) on or off.
pub fn set_asset_enabled(ctx: &mut OpsOnly, asset: u8, enabled: bool) -> (r: Result<(), PresaleError>)
    ensures
        applied(spec_set_asset_enabled(old(ctx).ops_authority, old(ctx).state, asset, enabled), r, old(ctx).state, final(ctx).state),
        final(ctx).ops_authority == old(ctx).ops_authority,
        final(ctx).state.evolves_from(old(ctx).state),
        old(ctx).state.inv() ==> final(ctx).state.inv(),
{
    if !(ctx.ops_authority == ctx.state.ops_authority) {
        return Err(PresaleError::Unauthorized);
    }
    if !(ctx.state.status != SaleStatus::Finalized) {
        return Err(PresaleError::AlreadyFinalized);
    }
    if asset == 0 {
        ctx.state.sol_enabled = enabled;
    } else if asset == 1 {
        ctx.state.usdc_enabled = enabled;
    } else if asset == 2 {
        ctx.state.usdt_enabled = enabled;
    } else {
        return Err(PresaleError::AssetDisabled);
    }
    Ok(())
}

pub open spec fn spec_set_purchase_limits(signer: Key, s: PresaleState, min_usd_e6: u64, max_usd_e6: u64, max_wallet_usd_e6: u64) -> Result<(PresaleState, ()), PresaleError> {
    if signer != s.ops_authority {
        Err(PresaleError::Unauthorized)
    } else if s.config_finalized {
        Err(PresaleError::ConfigFrozen)
    } else if !limits_ok(min_usd_e6, max_usd_e6, max_wallet_usd_e6) {
        Err(PresaleError::LimitInvariant)
    } else {
        Ok((PresaleState {
            min_purchase_usd_e6: min_usd_e6,
            max_purchase_usd_e6: max_usd_e6,
            max_wallet_usd_e6: max_wallet_usd_e6,
            ..s
        }, ()))
    }
}

/// Sets the per-purchase bounds and the per-wallet cap while the configuration is open.
pub fn set_purchase_limits(ctx: &mut OpsOnly, min_usd_e6: u64, max_usd_e6: u64, max_wallet_usd_e6: u64) -> (r: Result<(), PresaleError>)
    ensures
        applied(spec_set_purchase_limits(old(ctx).ops_authority, old(ctx).state, min_usd_e6, max_usd_e6, max_wallet_usd_e6), r, old(ctx).state, final(ctx).state),
        final(ctx).ops_authority == old(ctx).ops_authority,
        final(ctx).state.evolves_from(old(ctx).state),
        old(ctx).state.inv() ==> final(ctx).state.inv(),
{
    if !(ctx.ops_authority == ctx.state.ops_authority) {
        return Err(PresaleError::Unauthorized);
    }
    if !(!ctx.state.config_finalized) {
        return Err(PresaleError::ConfigFrozen);
    }
    match assert_limit_invariant(min_usd_e6, max_usd_e6, max_wallet_usd_e6) {
        Ok(_) => {},
        Err(e) => return Err(e),
    }
    ctx.state.min_purchase_usd_e6 = min_usd_e6;
    ctx.state.max_purchase_usd_e6 = max_usd_e6;
    ctx.state.max_wallet_usd_e6 = max_wallet_usd_e6;
    Ok(())
}

pub open spec fn spec_set_oracle(signer: Key, s: PresaleState, oracle: Key, max_staleness_secs: i64) -> Result<(PresaleState, ()), PresaleError> {
    if signer != s.ops_authority {
        Err(PresaleError::Unauthorized)
    } else if s.config_finalized {
        Err(PresaleError::ConfigFrozen)
    } else if oracle != spec_pyth_sol_usd() {
        Err(PresaleError::InvalidOracle)
    } else if !staleness_ok(max_staleness_secs) {
        Err(PresaleError::OracleStalenessBounds)
    } else {
        Ok((PresaleState { oracle: oracle, oracle_max_staleness_secs: max_staleness_secs, ..s }, ()))
    }
}

/// Sets the oracle (which must be the Pyth SOL/USD account) and its staleness window
/// while the configuration is open.
pub fn set_oracle(ctx: &mut OpsOnly, oracle: Key, max_staleness_secs: i64) -> (r: Result<(), PresaleError>)
    ensures
        applied(spec_set_oracle(old(ctx).ops_authority, old(ctx).state, oracle, max_staleness_secs), r, old(ctx).state, final(ctx).state),
        final(ctx).ops_authority == old(ctx).ops_authority,
        final(ctx).state.evolves_from(old(ctx).state),
        old(ctx).state.inv() ==> final(ctx).state.inv(),
{
    if !(ctx.ops_authority == ctx.state.ops_authority) {
        return Err(PresaleError::Unauthorized);
    }
    if !(!ctx.state.config_finalized) {
        return Err(PresaleError::ConfigFrozen);
    }
    if !(oracle == pyth_sol_usd()) {
        return Err(PresaleError::InvalidOracle);
    }
    let secs = match assert_staleness_bounds(max_staleness_secs) {
        Ok(v) => v,
        Err(e) => return Err(e),
    };
    ctx.state.oracle = oracle;
    ctx.state.oracle_max_staleness_secs = secs;
    Ok(())
}

// ---------------------------------------------------------------- lifecycle

pub open spec fn spec_start_sale(signer: Key, s: PresaleState, sale_start_ts: i64, now: i64) -> Result<(PresaleState, StatusEvent), PresaleError> {
    if signer != s.ops_authority {
        Err(PresaleError::Unauthorized)
    } else if sale_start_ts <= 0 {
        Err(PresaleError::InvalidStartTs)
    } else if !s.config_finalized {
        Err(PresaleError::ConfigOpen)
    } else if s.purchase_count != 0 || s.status != SaleStatus::NotStarted {
        Err(PresaleError::ConfigFrozen)
    } else if s.emergency_stop {
        Err(PresaleError::EmergencyEngaged)
    } else {
        let t = PresaleState { sale_start_ts: sale_start_ts, status: SaleStatus::Active, ..s };
        Ok((t, status_event(t, now)))
    }
}

/// Opens a sale that has not started, with its schedule starting at `sale_start_ts`.
pub fn start_sale(ctx: &mut OpsOnly, sale_start_ts: i64, now: i64) -> (r: Result<StatusEvent, PresaleError>)
    ensures
        applied(spec_start_sale(old(ctx).ops_authority, old(ctx).state, sale_start_ts, now), r, old(ctx).state, final(ctx).state),
        final(ctx).ops_authority == old(ctx).ops_authority,
        final(ctx).state.evolves_from(old(ctx).state),
        old(ctx).state.inv() ==> final(ctx).state.inv(),
{
    if !(ctx.ops_authority == ctx.state.ops_authority) {
        return Err(PresaleError::Unauthorized);
    }
    if !(sale_start_ts > 0) {
        return Err(PresaleError::InvalidStartTs);
    }
    if !ctx.state.config_finalized {
        return Err(PresaleError::ConfigOpen);
    }
    if !(ctx.state.purchase_count == 0) {
        return Err(PresaleError::ConfigFrozen);
    }
    if !(ctx.state.status == SaleStatus::NotStarted) {
        return Err(PresaleError::ConfigFrozen);
    }
    if !(!ctx.state.emergency_stop) {
        return Err(PresaleError::EmergencyEngaged);
    }
    ctx.state.sale_start_ts = sale_start_ts;
    ctx.state.status = SaleStatus::Active;
    Ok(StatusEvent { status: ctx.state.status, reason: ctx.state.end_reason, timestamp: now })
}

pub open spec fn spec_pause(signer: Key, s: PresaleState, now: i64) -> Result<(PresaleState, StatusEvent), PresaleError> {
    if signer != s.ops_authority {
        Err(PresaleError::Unauthorized)
    } else if s.status != SaleStatus::Active {
        Err(PresaleError::NotActive)
    } else {
        let t = PresaleState { status: SaleStatus::Paused, paused_at: now, ..s };
        Ok((t, status_event(t, now)))
    }
}

/// Pauses an active sale.
pub fn pause(ctx: &mut OpsOnly, now: i64) -> (r: Result<StatusEvent, PresaleError>)
    ensures
        applied(spec_pause(old(ctx).ops_authority, old(ctx).state, now), r, old(ctx).state, final(ctx).state),
        final(ctx).ops_authority == old(ctx).ops_authority,
        final(ctx).state.evolves_from(old(ctx).state),
        old(ctx).state.inv() ==> final(ctx).state.inv(),
{
    if !(ctx.ops_authority == ctx.state.ops_authority) {
        return Err(PresaleError::Unauthorized);
    }
    if !(ctx.state.status == SaleStatus::Active) {
        return Err(PresaleError::NotActive);
    }
    ctx.state.status = SaleStatus::Paused;
    ctx.state.paused_at = now;
    Ok(StatusEvent { status: ctx.state.status, reason: ctx.state.end_reason, timestamp: ctx.state.paused_at })
}

pub open spec fn spec_resume(signer: Key, s: PresaleState, now: i64) -> Result<(PresaleState, StatusEvent), PresaleError> {
    if signer != s.ops_authority {
        Err(PresaleError::Unauthorized)
    } else if s.status != SaleStatus::Paused {
        Err(PresaleError::Paused)
    } else if s.end_reason != EndReason::NotEnded {
        Err(PresaleError::Terminal)
    } else if s.emergency_stop {
        Err(PresaleError::EmergencyEngaged)
    } else {
        let t = PresaleState { status: SaleStatus::Active, ..s };
        Ok((t, status_event(t, now)))
    }
}

/// Resumes a paused sale that was not terminated and is not under emergency stop.
pub fn resume(ctx: &mut OpsOnly, now: i64) -> (r: Result<StatusEvent, PresaleError>)
    ensures
        applied(spec_resume(old(ctx).ops_authority, old(ctx).state, now), r, old(ctx).state, final(ctx).state),
        final(ctx).ops_authority == old(ctx).ops_authority,
        final(ctx).state.evolves_from(old(ctx).state),
        old(ctx).state.inv() ==> final(ctx).state.inv(),
{
    if !(ctx.ops_authority == ctx.state.ops_authority) {
        return Err(PresaleError::Unauthorized);
    }
    if !(ctx.state.status == SaleStatus::Paused) {
        return Err(PresaleError::Paused);
    }
    if !(ctx.state.end_reason == EndReason::NotEnded) {
        return Err(PresaleError::Terminal);
    }
    if !(!ctx.state.emergency_stop) {
        return Err(PresaleError::EmergencyEngaged);
    }
    ctx.state.status = SaleStatus::Active;
    Ok(StatusEvent { status: ctx.state.status, reason: ctx.state.end_reason, timestamp: now })
}

pub open spec fn spec_clear_emergency(signer: Key, s: PresaleState, now: i64) -> Result<(PresaleState, StatusEvent), PresaleError> {
    if signer != s.emergency_authority {
        Err(PresaleError::Unauthorized)
    } else if !s.emergency_stop {
        Err(PresaleError::EmergencyNotEngaged)
    } else {
        let t = PresaleState { emergency_stop: false, ..s };
        Ok((t, status_event(t, now)))
    }
}

/// Releases the emergency stop; the sale stays paused until the ops authority resumes it.
pub fn clear_emergency(ctx: &mut EmergencyOnly, now: i64) -> (r: Result<StatusEvent, PresaleError>)
    ensures
        applied(spec_clear_emergency(old(ctx).emergency_authority, old(ctx).state, now), r, old(ctx).state, final(ctx).state),
        final(ctx).emergency_authority == old(ctx).emergency_authority,
        final(ctx).state.evolves_from(old(ctx).state),
        old(ctx).state.inv() ==> final(ctx).state.inv(),
{
    if !(ctx.emergency_authority == ctx.state.emergency_authority) {
        return Err(PresaleError::Unauthorized);
    }
    if !ctx.state.emergency_stop {
        return Err(PresaleError::EmergencyNotEngaged);
    }
    ctx.state.emergency_stop = false;
    Ok(StatusEvent { status: ctx.state.status, reason: ctx.state.end_reason, timestamp: now })
}

pub open spec fn spec_end_presale(signer: Key, s: PresaleState, now: i64) -> Result<(PresaleState, StatusEvent), PresaleError> {
    if signer != s.ops_authority {
        Err(PresaleError::Unauthorized)
    } else if s.is_closed() {
        Err(PresaleError::Ended)
    } else {
        let t = PresaleState {
            status: SaleStatus::Ended,
            end_reason: EndReason::AdminTerminated,
            ended_at: now,
            ..s
        };
        Ok((t, status_event(t, now)))
    }
}

/// Terminates a sale that has not already closed.
pub fn end_presale(ctx: &mut OpsOnly, now: i64) -> (r: Result<StatusEvent, PresaleError>)
    ensures
        applied(spec_end_presale(old(ctx).ops_authority, old(ctx).state, now), r, old(ctx).state, final(ctx).state),
        final(ctx).ops_authority == old(ctx).ops_authority,
        final(ctx).state.evolves_from(old(ctx).state),
        old(ctx).state.inv() ==> final(ctx).state.inv(),
{
    if !(ctx.ops_authority == ctx.state.ops_authority) {
        return Err(PresaleError::Unauthorized);
    }
    if !(ctx.state.status != SaleStatus::Ended && ctx.state.status != SaleStatus::Finalized
        && ctx.state.status != SaleStatus::SoldOut) {
        return Err(PresaleError::Ended);
    }
    ctx.state.status = SaleStatus::Ended;
    ctx.state.end_reason = EndReason::AdminTerminated;
    ctx.state.ended_at = now;
    Ok(StatusEvent { status: ctx.state.status, reason: ctx.state.end_reason, timestamp: ctx.state.ended_at })
}

pub open spec fn spec_emergency_stop(signer: Key, s: PresaleState, now: i64) -> Result<(PresaleState, StatusEvent), PresaleError> {
    if signer != s.emergency_authority {
        Err(PresaleError::Unauthorized)
    } else if s.status == SaleStatus::Finalized {
        Err(PresaleError::AlreadyFinalized)
    } else {
        let t = PresaleState { emergency_stop: true, status: SaleStatus::Paused, paused_at: now, ..s };
        Ok((t, status_event(t, now)))
    }
}

/// Engages the emergency stop: the sale is paused and no purchase goes through
/// until the stop is released.
pub fn emergency_stop(ctx: &mut EmergencyOnly, now: i64) -> (r: Result<StatusEvent, PresaleError>)
    ensures
        applied(spec_emergency_stop(old(ctx).emergency_authority, old(ctx).state, now), r, old(ctx).state, final(ctx).state),
        final(ctx).emergency_authority == old(ctx).emergency_authority,
        final(ctx).state.evolves_from(old(ctx).state),
        old(ctx).state.inv() ==> final(ctx).state.inv(),
{
    if !(ctx.emergency_authority == ctx.state.emergency_authority) {
        return Err(PresaleError::Unauthorized);
    }
    if !(ctx.state.status != SaleStatus::Finalized) {
        return Err(PresaleError::AlreadyFinalized);
    }
    ctx.state.emergency_stop = true;
    ctx.state.status = SaleStatus::Paused;
    ctx.state.paused_at = now;
    Ok(StatusEvent { status: ctx.state.status, reason: ctx.state.end_reason, timestamp: ctx.state.paused_at })
}

// ---------------------------------------------------------------- authorities

/// A proposed successor must be set and differ from the current holder.
pub open spec fn proposal_ok(current: Key, next: Key) -> Result<(), PresaleError> {
    if next.is_default() || next == current {
        Err(PresaleError::InvalidAuthority)
    } else {
        Ok(())
    }
}

pub open spec fn spec_propose_ops_authority(signer: Key, s: PresaleState, next: Key, now: i64) -> Result<(PresaleState, AuthorityEvent), PresaleError> {
    if signer != s.ops_authority {
        Err(PresaleError::Unauthorized)
    } else if proposal_ok(s.ops_authority, next) is Err {
        Err(PresaleError::InvalidAuthority)
    } else {
        Ok((PresaleState { pending_ops_authority: next, ..s }, AuthorityEvent { role: 0, proposed: true, authority: next, timestamp: now }))
    }
}

pub open spec fn spec_accept_ops_authority(new_authority: Key, s: PresaleState, now: i64) -> Result<(PresaleState, AuthorityEvent), PresaleError> {
    if s.pending_ops_authority != new_authority {
        Err(PresaleError::PendingAuthority)
    } else if s.pending_ops_authority.is_default() {
        Err(PresaleError::InvalidAuthority)
    } else {
        Ok((PresaleState {
            ops_authority: s.pending_ops_authority,
            pending_ops_authority: Key::spec_default(),
            ..s
        }, AuthorityEvent { role: 0, proposed: false, authority: s.pending_ops_authority, timestamp: now }))
    }
}

pub open spec fn spec_propose_treasury_authority(signer: Key, s: PresaleState, next: Key, now: i64) -> Result<(PresaleState, AuthorityEvent), PresaleError> {
    if signer != s.treasury_authority {
        Err(PresaleError::Unauthorized)
    } else if proposal_ok(s.treasury_authority, next) is Err {
        Err(PresaleError::InvalidAuthority)
    } else {
        Ok((PresaleState { pending_treasury_authority: next, ..s }, AuthorityEvent { role: 1, proposed: true, authority: next, timestamp: now }))
    }
}

pub open spec fn spec_accept_treasury_authority(new_authority: Key, s: PresaleState, now: i64) -> Result<(PresaleState, AuthorityEvent), PresaleError> {
    if s.pending_treasury_authority != new_authority {
        Err(PresaleError::PendingAuthority)
    } else if s.pending_treasury_authority.is_default() {
        Err(PresaleError::InvalidAuthority)
    } else {
        Ok((PresaleState {
            treasury_authority: s.pending_treasury_authority,
            pending_treasury_authority: Key::spec_default(),
            ..s
        }, AuthorityEvent { role: 1, proposed: false, authority: s.pending_treasury_authority, timestamp: now }))
    }
}

pub open spec fn spec_propose_emergency_authority(signer: Key, s: PresaleState, next: Key, now: i64) -> Result<(PresaleState, AuthorityEvent), PresaleError> {
    if signer != s.emergency_authority {
        Err(PresaleError::Unauthorized)
    } else if proposal_ok(s.emergency_authority, next) is Err {
        Err(PresaleError::InvalidAuthority)
    } else {
        Ok((PresaleState { pending_emergency_authority: next, ..s }, AuthorityEvent { role: 2, proposed: true, authority: next, timestamp: now }))
    }
}

pub open spec fn spec_accept_emergency_authority(new_authority: Key, s: PresaleState, now: i64) -> Result<(PresaleState, AuthorityEvent), PresaleError> {
    if s.pending_emergency_authority != new_authority {
        Err(PresaleError::PendingAuthority)
    } else if s.pending_emergency_authority.is_default() {
        Err(PresaleError::InvalidAuthority)
    } else {
        Ok((PresaleState {
            emergency_authority: s.pending_emergency_authority,
            pending_emergency_authority: Key::spec_default(),
            ..s
        }, AuthorityEvent { role: 2, proposed: false, authority: s.pending_emergency_authority, timestamp: now }))
    }
}

/// Proposes `next` as the ops authority; it takes over once it accepts.
pub fn propose_ops_authority(ctx: &mut OpsOnly, next: Key, now: i64) -> (r: Result<AuthorityEvent, PresaleError>)
    ensures
        applied(spec_propose_ops_authority(old(ctx).ops_authority, old(ctx).state, next, now), r, old(ctx).state, final(ctx).state),
        final(ctx).ops_authority == old(ctx).ops_authority,
        final(ctx).state.evolves_from(old(ctx).state),
        old(ctx).state.inv() ==> final(ctx).state.inv(),
{
    if !(ctx.ops_authority == ctx.state.ops_authority) {
        return Err(PresaleError::Unauthorized);
    }
    match assert_pubkey_set(&next) {
        Ok(_) => {},
        Err(e) => return Err(e),
    }
    if !(next != ctx.state.ops_authority) {
        return Err(PresaleError::InvalidAuthority);
    }
    ctx.state.pending_ops_authority = next;
    Ok(AuthorityEvent { role: 0, proposed: true, authority: next, timestamp: now })
}

/// The proposed ops authority takes over.
pub fn accept_ops_authority(ctx: &mut AcceptOps, now: i64) -> (r: Result<AuthorityEvent, PresaleError>)
    ensures
        applied(spec_accept_ops_authority(old(ctx).new_authority, old(ctx).state, now), r, old(ctx).state, final(ctx).state),
        final(ctx).new_authority == old(ctx).new_authority,
        final(ctx).state.evolves_from(old(ctx).state),
        old(ctx).state.inv() ==> final(ctx).state.inv(),
{
    if !(ctx.state.pending_ops_authority == ctx.new_authority) {
        return Err(PresaleError::PendingAuthority);
    }
    match assert_pubkey_set(&ctx.state.pending_ops_authority) {
        Ok(_) => {},
        Err(e) => return Err(e),
    }
    if !(ctx.state.pending_ops_authority == ctx.new_authority) {
        return Err(PresaleError::PendingAuthority);
    }
    ctx.state.ops_authority = ctx.state.pending_ops_authority;
    ctx.state.pending_ops_authority = Key::default_key();
    Ok(AuthorityEvent { role: 0, proposed: false, authority: ctx.state.ops_authority, timestamp: now })
}

/// Proposes `next` as the treasury authority; it takes over once it accepts.
pub fn propose_treasury_authority(ctx: &mut TreasuryOnly, next: Key, now: i64) -> (r: Result<AuthorityEvent, PresaleError>)
    ensures
        applied(spec_propose_treasury_authority(old(ctx).treasury_authority, old(ctx).state, next, now), r, old(ctx).state, final(ctx).state),
        final(ctx).treasury_authority == old(ctx).treasury_authority,
        final(ctx).state.evolves_from(old(ctx).state),
        old(ctx).state.inv() ==> final(ctx).state.inv(),
{
    if !(ctx.treasury_authority == ctx.state.treasury_authority) {
        return Err(PresaleError::Unauthorized);
    }
    match assert_pubkey_set(&next) {
        Ok(_) => {},
        Err(e) => return Err(e),
    }
    if !(next != ctx.state.treasury_authority) {
        return Err(PresaleError::InvalidAuthority);
    }
    ctx.state.pending_treasury_authority = next;
    Ok(AuthorityEvent { role: 1, proposed: true, authority: next, timestamp: now })
}

/// The proposed treasury authority takes over.
pub fn accept_treasury_authority(ctx: &mut AcceptTreasury, now: i64) -> (r: Result<AuthorityEvent, PresaleError>)
    ensures
        applied(spec_accept_treasury_authority(old(ctx).new_authority, old(ctx).state, now), r, old(ctx).state, final(ctx).state),
        final(ctx).new_authority == old(ctx).new_authority,
        final(ctx).state.evolves_from(old(ctx).state),
        old(ctx).state.inv() ==> final(ctx).state.inv(),
{
    if !(ctx.state.pending_treasury_authority == ctx.new_authority) {
        return Err(PresaleError::PendingAuthority);
    }
    match assert_pubkey_set(&ctx.state.pending_treasury_authority) {
        Ok(_) => {},
        Err(e) => return Err(e),
    }
    if !(ctx.state.pending_treasury_authority == ctx.new_authority) {
        return Err(PresaleError::PendingAuthority);
    }
    ctx.state.treasury_authority = ctx.state.pending_treasury_authority;
    ctx.state.pending_treasury_authority = Key::default_key();
    Ok(AuthorityEvent { role: 1, proposed: false, authority: ctx.state.treasury_authority, timestamp: now })
}

/// Proposes `next` as the emergency authority; it takes over once it accepts.
pub fn propose_emergency_authority(ctx: &mut EmergencyOnly, next: Key, now: i64) -> (r: Result<AuthorityEvent, PresaleError>)
    ensures
        applied(spec_propose_emergency_authority(old(ctx).emergency_authority, old(ctx).state, next, now), r, old(ctx).state, final(ctx).state),
        final(ctx).emergency_authority == old(ctx).emergency_authority,
        final(ctx).state.evolves_from(old(ctx).state),
        old(ctx).state.inv() ==> final(ctx).state.inv(),
{
    if !(ctx.emergency_authority == ctx.state.emergency_authority) {
        return Err(PresaleError::Unauthorized);
    }
    match assert_pubkey_set(&next) {
        Ok(_) => {},
        Err(e) => return Err(e),
    }
    if !(next != ctx.state.emergency_authority) {
        return Err(PresaleError::InvalidAuthority);
    }
    ctx.state.pending_emergency_authority = next;
    Ok(AuthorityEvent { role: 2, proposed: true, authority: next, timestamp: now })
}

/// The proposed emergency authority takes over.
pub fn accept_emergency_authority(ctx: &mut AcceptEmergency, now: i64) -> (r: Result<AuthorityEvent, PresaleError>)
    ensures
        applied(spec_accept_emergency_authority(old(ctx).new_authority, old(ctx).state, now), r, old(ctx).state, final(ctx).state),
        final(ctx).new_authority == old(ctx).new_authority,
        final(ctx).state.evolves_from(old(ctx).state),
        old(ctx).state.inv() ==> final(ctx).state.inv(),
{
    if !(ctx.state.pending_emergency_authority == ctx.new_authority) {
        return Err(PresaleError::PendingAuthority);
    }
    match assert_pubkey_set(&ctx.state.pending_emergency_authority) {
        Ok(_) => {},
        Err(e) => return Err(e),
    }
    if !(ctx.state.pending_emergency_authority == ctx.new_authority) {
        return Err(PresaleError::PendingAuthority);
    }
    ctx.state.emergency_authority = ctx.state.pending_emergency_authority;
    ctx.state.pending_emergency_authority = Key::default_key();
    Ok(AuthorityEvent { role: 2, proposed: false, authority: ctx.state.emergency_authority, timestamp: now })
}

pub open spec fn spec_set_treasury(signer: Key, s: PresaleState, treasury: Key, now: i64) -> Result<(PresaleState, TreasuryEvent), PresaleError> {
    if signer != s.treasury_authority {
        Err(PresaleError::Unauthorized)
    } else if proposal_ok(s.treasury, treasury) is Err {
        Err(PresaleError::InvalidAuthority)
    } else {
        Ok((PresaleState { treasury: treasury, ..s }, TreasuryEvent { treasury: treasury, timestamp: now }))
    }
}

/// Moves the treasury, where payments and withdrawals go, to `treasury`.
pub fn set_treasury(ctx: &mut TreasuryOnly, treasury: Key, now: i64) -> (r: Result<TreasuryEvent, PresaleError>)
    ensures
        applied(spec_set_treasury(old(ctx).treasury_authority, old(ctx).state, treasury, now), r, old(ctx).state, final(ctx).state),
        final(ctx).treasury_authority == old(ctx).treasury_authority,
        final(ctx).state.evolves_from(old(ctx).state),
        old(ctx).state.inv() ==> final(ctx).state.inv(),
{
    if !(ctx.treasury_authority == ctx.state.treasury_authority) {
        return Err(PresaleError::Unauthorized);
    }
    match assert_pubkey_set(&treasury) {
        Ok(_) => {},
        Err(e) => return Err(e),
    }
    if !(treasury != ctx.state.treasury) {
        return Err(PresaleError::InvalidAuthority);
    }
    ctx.state.treasury = treasury;
    Ok(TreasuryEvent { treasury: treasury, timestamp: now })
}


// ---------------------------------------------------------------- closing

/// The accounts of the instruction that finalizes a closed sale.
pub struct FinalizeSale {
    pub ops_authority: Key,
    pub state_key: Key,
    pub state: PresaleState,
    pub bitlab_vault: TokenAccountInfo,
    pub unsold_destination: TokenAccountInfo,
    pub token_program: Key,
}

/// What finalizing reports: how much unsold BITLAB the caller moves from the vault
/// to the unsold destination (all of it), and the status event.
#[derive(Clone, Copy, Debug, PartialEq, Eq, Structural)]
pub struct FinalizeOutcome {
    pub unsold: u64,
    pub event: StatusEvent,
}

pub open spec fn spec_finalize_sale(ctx: FinalizeSale, now: i64) -> Result<(PresaleState, FinalizeOutcome), PresaleError> {
    let s1 = spec_sync_status(ctx.state, now);
    let t = PresaleState { status: SaleStatus::Finalized, finalized_at: now, ..s1 };
    if ctx.ops_authority != ctx.state.ops_authority {
        Err(PresaleError::Unauthorized)
    } else if ctx.bitlab_vault.key != ctx.state.bitlab_vault {
        Err(PresaleError::InvalidVault)
    } else if ctx.unsold_destination.owner != ctx.state.unsold_destination {
        Err(PresaleError::InvalidDestination)
    } else if s1.status == SaleStatus::Finalized {
        Err(PresaleError::AlreadyFinalized)
    } else if s1.status != SaleStatus::Ended && s1.status != SaleStatus::SoldOut {
        Err(PresaleError::NotClosed)
    } else if ctx.bitlab_vault.amount > 0 && spec_transfer_bitlab(
        ctx.token_program,
        ctx.bitlab_vault,
        ctx.unsold_destination,
        ctx.state_key,
    ) is Err {
        Err(spec_transfer_bitlab(ctx.token_program, ctx.bitlab_vault, ctx.unsold_destination, ctx.state_key)->Err_0)
    } else {
        Ok((t, FinalizeOutcome { unsold: ctx.bitlab_vault.amount, event: status_event(t, now) }))
    }
}

/// Finalizes a sale that has ended or sold out (as of `now`): it is marked
/// finalized for good and all BITLAB left in the vault goes to a token account
/// owned by the configured unsold destination (moved by the caller).
pub fn finalize_sale(ctx: &mut FinalizeSale, now: i64) -> (r: Result<FinalizeOutcome, PresaleError>)
    ensures
        applied(spec_finalize_sale(*old(ctx), now), r, old(ctx).state, final(ctx).state),
        final(ctx).ops_authority == old(ctx).ops_authority,
        final(ctx).state_key == old(ctx).state_key,
        final(ctx).bitlab_vault == old(ctx).bitlab_vault,
        final(ctx).unsold_destination == old(ctx).unsold_destination,
        final(ctx).token_program == old(ctx).token_program,
        final(ctx).state.evolves_from(old(ctx).state),
        old(ctx).state.inv() ==> final(ctx).state.inv(),
        r is Ok ==> final(ctx).state.status == SaleStatus::Finalized
            && old(ctx).unsold_destination.owner == old(ctx).state.unsold_destination,
{
    if !(ctx.ops_authority == ctx.state.ops_authority) {
        return Err(PresaleError::Unauthorized);
    }
    if !(ctx.bitlab_vault.key == ctx.state.bitlab_vault) {
        return Err(PresaleError::InvalidVault);
    }
    if !(ctx.unsold_destination.owner == ctx.state.unsold_destination) {
        return Err(PresaleError::InvalidDestination);
    }
    let mut s = ctx.state;
    let _ = sync_status(&mut s, now);
    if !(s.status != SaleStatus::Finalized) {
        return Err(PresaleError::AlreadyFinalized);
    }
    if !(s.status == SaleStatus::Ended || s.status == SaleStatus::SoldOut) {
        return Err(PresaleError::NotClosed);
    }
    s.status = SaleStatus::Finalized;
    s.finalized_at = now;
    let remaining = ctx.bitlab_vault.amount;
    if remaining > 0 {
        match transfer_bitlab(ctx.token_program, &ctx.bitlab_vault, &ctx.unsold_destination, ctx.state_key) {
            Ok(_) => {},
            Err(e) => return Err(e),
        }
    }
    ctx.state = s;
    Ok(FinalizeOutcome { unsold: remaining, event: StatusEvent { status: SaleStatus::Finalized, reason: s.end_reason, timestamp: now } })
}

} // verus!
