//! The presale's accounts and the events it reports.

use vstd::prelude::*;
use crate::constants::{
    limits_ok, spec_bitlab_mint, spec_pyth_sol_usd, spec_usdc_mint, spec_usdt_mint, staleness_ok,
    PRESALE_ALLOCATION, ROUND_COUNT, ROUND_DURATION_SECS, ROUND_PRICES_E9,
};
use crate::key::Key;

verus! {

#[derive(Clone, Copy, Debug, PartialEq, Eq, Structural)]
pub enum SaleStatus {
    NotStarted,
    Active,
    Paused,
    SoldOut,
    Ended,
    Finalized,
}

#[derive(Clone, Copy, Debug, PartialEq, Eq, Structural)]
pub enum EndReason {
    NotEnded,
    SoldOut,
    AdminTerminated,
    Schedule,
}

/// The global state of the presale.
#[derive(Clone, Copy)]
pub struct PresaleState {
    pub bump: u8,
    pub sol_vault_bump: u8,
    pub config_finalized: bool,
    pub status: SaleStatus,
    pub end_reason: EndReason,
    pub emergency_stop: bool,

    pub ops_authority: Key,
    pub pending_ops_authority: Key,
    pub treasury_authority: Key,
    pub pending_treasury_authority: Key,
    pub emergency_authority: Key,
    pub pending_emergency_authority: Key,

    pub treasury: Key,
    pub unsold_destination: Key,
    pub bitlab_mint: Key,
    pub usdc_mint: Key,
    pub usdt_mint: Key,
    pub bitlab_vault: Key,
    pub usdc_vault: Key,
    pub usdt_vault: Key,
    pub sol_vault: Key,
    pub oracle: Key,

    pub allocation: u64,
    pub total_sold: u64,
    pub unique_buyers: u64,
    pub purchase_count: u64,
    pub sale_start_ts: i64,
    pub round_duration_secs: i64,
    pub round_count: u8,
    pub prices_e9: [u64; 10],
    pub sol_enabled: bool,
    pub usdc_enabled: bool,
    pub usdt_enabled: bool,
    pub min_purchase_usd_e6: u64,
    pub max_purchase_usd_e6: u64,
    pub max_wallet_usd_e6: u64,
    pub oracle_max_staleness_secs: i64,
    pub paused_at: i64,
    pub ended_at: i64,
    pub finalized_at: i64,

    /// Lifetime payments received (forwarded to `treasury` in the same buy tx).
    pub sol_received: u64,
    pub usdc_received: u64,
    pub usdt_received: u64,
}

impl PresaleState {
    /// The sale has closed for good: ended, sold out or finalized.
    pub open spec fn is_closed(self) -> bool {
        self.status == SaleStatus::Ended || self.status == SaleStatus::SoldOut || self.status
            == SaleStatus::Finalized
    }

    /// What holds of every state that `initialize` creates and every instruction keeps.
    pub open spec fn inv(self) -> bool {
        &&& self.total_sold <= self.allocation
        &&& self.allocation == PRESALE_ALLOCATION
        &&& self.round_count == ROUND_COUNT
        &&& self.round_duration_secs == ROUND_DURATION_SECS
        &&& self.prices_e9@ == ROUND_PRICES_E9@
        &&& limits_ok(self.min_purchase_usd_e6, self.max_purchase_usd_e6, self.max_wallet_usd_e6)
        &&& staleness_ok(self.oracle_max_staleness_secs)
        &&& self.bitlab_mint == spec_bitlab_mint()
        &&& self.usdc_mint == spec_usdc_mint()
        &&& self.usdt_mint == spec_usdt_mint()
        &&& self.oracle == spec_pyth_sol_usd()
        &&& self.unique_buyers <= self.purchase_count
        &&& self.purchase_count == 0 ==> self.total_sold == 0
        &&& self.is_closed() ==> self.end_reason != EndReason::NotEnded
        &&& (self.status == SaleStatus::NotStarted || self.status == SaleStatus::Active)
            ==> self.end_reason == EndReason::NotEnded
    }

    /// `self` can follow `prev` through any instruction: a finalized sale stays
    /// finalized, a frozen configuration stays frozen and unchanged, counters and
    /// received totals never decrease, and the schedule and allocation never move.
    pub open spec fn evolves_from(self, prev: PresaleState) -> bool {
        &&& prev.status == SaleStatus::Finalized ==> self.status == SaleStatus::Finalized
        &&& prev.config_finalized ==> {
            &&& self.config_finalized
            &&& self.min_purchase_usd_e6 == prev.min_purchase_usd_e6
            &&& self.max_purchase_usd_e6 == prev.max_purchase_usd_e6
            &&& self.max_wallet_usd_e6 == prev.max_wallet_usd_e6
            &&& self.oracle == prev.oracle
            &&& self.oracle_max_staleness_secs == prev.oracle_max_staleness_secs
        }
        &&& prev.total_sold <= self.total_sold
        &&& prev.unique_buyers <= self.unique_buyers
        &&& prev.purchase_count <= self.purchase_count
        &&& prev.sol_received <= self.sol_received
        &&& prev.usdc_received <= self.usdc_received
        &&& prev.usdt_received <= self.usdt_received
        &&& self.allocation == prev.allocation
        &&& self.prices_e9@ == prev.prices_e9@
        &&& self.round_duration_secs == prev.round_duration_secs
        &&& self.round_count == prev.round_count
    }
}

/// Per-wallet purchase record.
#[derive(Clone, Copy)]
pub struct BuyerAccount {
    pub bump: u8,
    pub buyer: Key,
    pub presale: Key,
    pub bitlab_purchased: u64,
    pub usd_contributed_e6: u64,
    pub purchase_count: u32,
}

#[derive(Clone, Copy, Debug, PartialEq, Eq, Structural)]
pub struct LockPurchaseEvent {
    pub buyer: Key,
    /// 0 SOL, 1 USDC, 2 USDT
    pub payment_asset: u8,
    pub payment_amount: u64,
    pub usd_value_e6: u64,
    pub round: u8,
    pub bitlab_price_e9: u64,
    pub bitlab_amount: u64,
    pub timestamp: i64,
}

#[derive(Clone, Copy, Debug, PartialEq, Eq, Structural)]
pub struct StatusEvent {
    pub status: SaleStatus,
    pub reason: EndReason,
    pub timestamp: i64,
}

#[derive(Clone, Copy, Debug, PartialEq, Eq, Structural)]
pub struct WithdrawEvent {
    pub asset: u8,
    pub amount: u64,
    pub destination: Key,
    pub emergency: bool,
    pub timestamp: i64,
}

#[derive(Clone, Copy, Debug, PartialEq, Eq, Structural)]
pub struct AuthorityEvent {
    /// 0 ops, 1 treasury, 2 emergency
    pub role: u8,
    pub proposed: bool,
    pub authority: Key,
    pub timestamp: i64,
}

#[derive(Clone, Copy, Debug, PartialEq, Eq, Structural)]
pub struct TreasuryEvent {
    pub treasury: Key,
    pub timestamp: i64,
}

#[derive(Clone, Copy, Debug, PartialEq, Eq, Structural)]
pub struct ConfigEvent {
    pub sale_start_ts: i64,
    pub timestamp: i64,
}

} // verus!
