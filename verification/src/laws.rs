//! Properties of the presale that span several instructions or all inputs.

use vstd::prelude::*;
use crate::buy::{spec_buy_stable, spec_buy_with_sol, BuySol, StableAccounts};
use crate::constants::{ten_pow, ROUND_PRICES_E9, SALE_DURATION_SECS};
use crate::error::PresaleError;
use crate::instructions::{
    spec_accept_emergency_authority, spec_accept_ops_authority, spec_accept_treasury_authority,
    spec_clear_emergency, spec_emergency_stop, spec_end_presale, spec_finalize_config, spec_pause,
    spec_propose_emergency_authority, spec_propose_ops_authority, spec_propose_treasury_authority,
    spec_resume, spec_set_asset_enabled, spec_set_oracle, spec_set_purchase_limits, spec_set_treasury,
    spec_start_sale,
};
use crate::key::Key;
use crate::presale_state::{BuyerAccount, EndReason, PresaleState, SaleStatus};
use crate::sale::{spec_assert_can_buy, spec_sync_status};

verus! {

/// `11^n`.
pub open spec fn eleven_pow(n: nat) -> nat
    decreases n,
{
    if n == 0 {
        1
    } else {
        11 * eleven_pow((n - 1) as nat)
    }
}

/// The price of round `i` (counted from 0) is $0.001 raised by 10% per round,
/// rounded to the nearest nano-dollar: `|price_i - 10^6 * 1.1^i| <= 1/2`.
pub proof fn law_price_schedule(i: int)
    requires
        0 <= i < 10,
    ensures
        ({
            let scaled = ROUND_PRICES_E9@[i] * ten_pow(i as nat);
            let exact = 1_000_000 * eleven_pow(i as nat);
            2 * (scaled - exact) <= ten_pow(i as nat) && 2 * (exact - scaled) <= ten_pow(i as nat)
        }),
{
    reveal_with_fuel(ten_pow, 11);
    reveal_with_fuel(eleven_pow, 11);
    if i == 0 {
        assert(ROUND_PRICES_E9@[0] == 1000000u64);
        assert(ten_pow(0) == 1 && eleven_pow(0) == 1);
    } else if i == 1 {
        assert(ROUND_PRICES_E9@[1] == 1100000u64);
        assert(ten_pow(1) == 10 && eleven_pow(1) == 11);
    } else if i == 2 {
        assert(ROUND_PRICES_E9@[2] == 1210000u64);
        assert(ten_pow(2) == 100 && eleven_pow(2) == 121);
    } else if i == 3 {
        assert(ROUND_PRICES_E9@[3] == 1331000u64);
        assert(ten_pow(3) == 1000 && eleven_pow(3) == 1331);
    } else if i == 4 {
        assert(ROUND_PRICES_E9@[4] == 1464100u64);
        assert(ten_pow(4) == 10000 && eleven_pow(4) == 14641);
    } else if i == 5 {
        assert(ROUND_PRICES_E9@[5] == 1610510u64);
        assert(ten_pow(5) == 100000 && eleven_pow(5) == 161051);
    } else if i == 6 {
        assert(ROUND_PRICES_E9@[6] == 1771561u64);
        assert(ten_pow(6) == 1000000 && eleven_pow(6) == 1771561);
    } else if i == 7 {
        assert(ROUND_PRICES_E9@[7] == 1948717u64);
        assert(ten_pow(7) == 10000000 && eleven_pow(7) == 19487171);
    } else if i == 8 {
        assert(ROUND_PRICES_E9@[8] == 2143589u64);
        assert(ten_pow(8) == 100000000 && eleven_pow(8) == 214358881);
    } else if i == 9 {
        assert(ROUND_PRICES_E9@[9] == 2357948u64);
        assert(ten_pow(9) == 1000000000 && eleven_pow(9) == 2357947691);
    }
}

/// Any sequence of instructions moves the sale forward: following one
/// instruction by another still only moves it forward.
pub proof fn law_evolves_transitive(a: PresaleState, b: PresaleState, c: PresaleState)
    requires
        b.evolves_from(a),
        c.evolves_from(b),
    ensures
        c.evolves_from(a),
{
}

/// A successor proposed by the ops authority takes over when it accepts, and the
/// pending slot is cleared; nobody else can accept in its place.
pub proof fn law_ops_authority_handover(s: PresaleState, next: Key, other: Key, t1: i64, t2: i64)
    requires
        !next.is_default(),
        next != s.ops_authority,
        other != next,
    ensures
        spec_propose_ops_authority(s.ops_authority, s, next, t1) is Ok,
        ({
            let s1 = spec_propose_ops_authority(s.ops_authority, s, next, t1)->Ok_0.0;
            &&& spec_accept_ops_authority(other, s1, t2) is Err
            &&& spec_accept_ops_authority(next, s1, t2) is Ok
            &&& spec_accept_ops_authority(next, s1, t2)->Ok_0.0 == (PresaleState {
                ops_authority: next,
                pending_ops_authority: Key::spec_default(),
                ..s
            })
        }),
{
}

/// A successor proposed by the treasury authority takes over when it accepts.
pub proof fn law_treasury_authority_handover(s: PresaleState, next: Key, other: Key, t1: i64, t2: i64)
    requires
        !next.is_default(),
        next != s.treasury_authority,
        other != next,
    ensures
        spec_propose_treasury_authority(s.treasury_authority, s, next, t1) is Ok,
        ({
            let s1 = spec_propose_treasury_authority(s.treasury_authority, s, next, t1)->Ok_0.0;
            &&& spec_accept_treasury_authority(other, s1, t2) is Err
            &&& spec_accept_treasury_authority(next, s1, t2) is Ok
            &&& spec_accept_treasury_authority(next, s1, t2)->Ok_0.0 == (PresaleState {
                treasury_authority: next,
                pending_treasury_authority: Key::spec_default(),
                ..s
            })
        }),
{
}

/// A successor proposed by the emergency authority takes over when it accepts.
pub proof fn law_emergency_authority_handover(s: PresaleState, next: Key, other: Key, t1: i64, t2: i64)
    requires
        !next.is_default(),
        next != s.emergency_authority,
        other != next,
    ensures
        spec_propose_emergency_authority(s.emergency_authority, s, next, t1) is Ok,
        ({
            let s1 = spec_propose_emergency_authority(s.emergency_authority, s, next, t1)->Ok_0.0;
            &&& spec_accept_emergency_authority(other, s1, t2) is Err
            &&& spec_accept_emergency_authority(next, s1, t2) is Ok
            &&& spec_accept_emergency_authority(next, s1, t2)->Ok_0.0 == (PresaleState {
                emergency_authority: next,
                pending_emergency_authority: Key::spec_default(),
                ..s
            })
        }),
{
}

/// Pausing an active sale and resuming it gives back the same sale, apart from
/// the recorded pause time.
pub proof fn law_pause_resume(s: PresaleState, t1: i64, t2: i64)
    requires
        s.status == SaleStatus::Active,
        s.end_reason == EndReason::NotEnded,
        !s.emergency_stop,
    ensures
        spec_pause(s.ops_authority, s, t1) is Ok,
        spec_resume(s.ops_authority, spec_pause(s.ops_authority, s, t1)->Ok_0.0, t2) is Ok,
        spec_resume(s.ops_authority, spec_pause(s.ops_authority, s, t1)->Ok_0.0, t2)->Ok_0.0 == (PresaleState {
            paused_at: t1,
            ..s
        }),
{
}

/// No purchase goes through while the emergency stop is engaged.
pub proof fn law_emergency_stop_blocks_purchases(
    s: PresaleState,
    now: i64,
    asset: u8,
    sol: BuySol,
    lamports: u64,
    slot: u64,
    b: BuyerAccount,
    buyer: Key,
    presale: Key,
    accounts: StableAccounts,
    bump: u8,
    amount: u64,
    min_bitlab: u64,
)
    requires
        s.emergency_stop,
        sol.state == s,
    ensures
        spec_assert_can_buy(spec_sync_status(s, now), now, asset) is Err,
        spec_buy_with_sol(sol, lamports, min_bitlab, now, slot) is Err,
        spec_buy_stable(s, b, buyer, presale, accounts, bump, amount, min_bitlab, asset, now) is Err,
{
}

/// Engaging the emergency stop does engage it.
pub proof fn law_emergency_stop_engages(signer: Key, s: PresaleState, now: i64)
    requires
        spec_emergency_stop(signer, s, now) is Ok,
    ensures
        spec_emergency_stop(signer, s, now)->Ok_0.0.emergency_stop,
        spec_emergency_stop(signer, s, now)->Ok_0.0.status == SaleStatus::Paused,
{
}

/// Once the whole allocation is sold, no purchase goes through.
pub proof fn law_sold_out_stops_purchases(s: PresaleState, now: i64, asset: u8)
    requires
        s.inv(),
        s.total_sold == s.allocation,
    ensures
        spec_assert_can_buy(spec_sync_status(s, now), now, asset) is Err,
        s.status != SaleStatus::Finalized ==> spec_sync_status(s, now).is_closed(),
{
}

/// Once the scheduled window (`ROUND_COUNT` rounds from the start) has passed, no
/// purchase goes through.
pub proof fn law_schedule_closes_purchases(s: PresaleState, now: i64, asset: u8)
    requires
        now >= s.sale_start_ts + SALE_DURATION_SECS,
    ensures
        spec_assert_can_buy(spec_sync_status(s, now), now, asset) is Err,
{
}


/// Each administrative instruction is refused, as `Unauthorized`, to anyone but
/// the authority it belongs to.
pub proof fn law_only_authorities(
    signer: Key,
    s: PresaleState,
    now: i64,
    ts: i64,
    asset: u8,
    enabled: bool,
    min_usd: u64,
    max_usd: u64,
    max_wallet: u64,
    k: Key,
    secs: i64,
)
    ensures
        signer != s.ops_authority ==> {
            &&& spec_finalize_config(signer, s, now) matches Err(PresaleError::Unauthorized)
            &&& spec_start_sale(signer, s, ts, now) matches Err(PresaleError::Unauthorized)
            &&& spec_pause(signer, s, now) matches Err(PresaleError::Unauthorized)
            &&& spec_resume(signer, s, now) matches Err(PresaleError::Unauthorized)
            &&& spec_end_presale(signer, s, now) matches Err(PresaleError::Unauthorized)
            &&& spec_set_asset_enabled(signer, s, asset, enabled) matches Err(PresaleError::Unauthorized)
            &&& spec_set_purchase_limits(signer, s, min_usd, max_usd, max_wallet) matches Err(PresaleError::Unauthorized)
            &&& spec_set_oracle(signer, s, k, secs) matches Err(PresaleError::Unauthorized)
            &&& spec_propose_ops_authority(signer, s, k, now) matches Err(PresaleError::Unauthorized)
        },
        signer != s.treasury_authority ==> {
            &&& spec_propose_treasury_authority(signer, s, k, now) matches Err(PresaleError::Unauthorized)
            &&& spec_set_treasury(signer, s, k, now) matches Err(PresaleError::Unauthorized)
        },
        signer != s.emergency_authority ==> {
            &&& spec_propose_emergency_authority(signer, s, k, now) matches Err(PresaleError::Unauthorized)
            &&& spec_emergency_stop(signer, s, now) matches Err(PresaleError::Unauthorized)
            &&& spec_clear_emergency(signer, s, now) matches Err(PresaleError::Unauthorized)
        },
{
}


/// Bringing the status up to date twice at the same time changes nothing the
/// second time, and a closed sale is left as it is.
pub proof fn law_sync_status_settles(s: PresaleState, now: i64)
    ensures
        spec_sync_status(spec_sync_status(s, now), now) == spec_sync_status(s, now),
        s.is_closed() ==> spec_sync_status(s, now) == s,
{
}

} // verus!
