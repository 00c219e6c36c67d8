use bitlab_presale::buy::{assert_treasury_credited, buy_with_sol, buy_with_usdc, buy_with_usdt, BuySol, BuyUsdc, BuyUsdt};
use bitlab_presale::constants::{
    bitlab_mint, pyth_program, pyth_sol_usd, spl_token_program, system_program, usdc_mint, usdt_mint,
    PRESALE_ALLOCATION, ROUND_DURATION_SECS, SALE_DURATION_SECS,
};
use bitlab_presale::error::PresaleError;
use bitlab_presale::initialize::{initialize, Initialize, InitializeArgs, MintInfo};
use bitlab_presale::instructions::{
    accept_ops_authority, clear_emergency, emergency_stop, end_presale, finalize_config, finalize_sale,
    pause, propose_ops_authority, resume, set_asset_enabled, set_oracle, set_purchase_limits,
    set_treasury, start_sale, AcceptOps, EmergencyOnly, FinalizeSale, OpsOnly, TreasuryOnly,
};
use bitlab_presale::key::Key;
use bitlab_presale::oracle::OracleAccount;
use bitlab_presale::presale_state::{BuyerAccount, EndReason, PresaleState, SaleStatus};
use bitlab_presale::sale::{deliver_bitlab, sync_status, transfer_bitlab, TokenAccountInfo};
use bitlab_presale::withdraw::{
    emergency_recover_sol, emergency_recover_usdc, withdraw_sol, withdraw_usdc, withdraw_usdt,
    EmergencyWithdrawSol, EmergencyWithdrawUsdc, SolVaultInfo, WithdrawSol, WithdrawUsdc, WithdrawUsdt,
};

fn k(n: u64) -> Key {
    Key { w0: n, w1: 0, w2: 0, w3: 0 }
}

const OPS: u64 = 1;
const TREASURY_AUTH: u64 = 2;
const EMERGENCY: u64 = 3;
const TREASURY: u64 = 4;
const UNSOLD: u64 = 5;
const STATE: u64 = 6;
const BUYER: u64 = 7;
const BITLAB_VAULT: u64 = 8;
const USDC_VAULT: u64 = 9;
const USDT_VAULT: u64 = 10;
const SOL_VAULT: u64 = 11;
const START: i64 = 1_800_000_000;

fn mint(key: Key) -> MintInfo {
    MintInfo { key, decimals: 6, mint_authority: None, freeze_authority: None }
}

fn init_ctx() -> Initialize {
    Initialize {
        payer: k(OPS),
        state_bump: 254,
        sol_vault: SolVaultInfo { key: k(SOL_VAULT), owner: system_program(), lamports: 0, data_is_empty: true },
        sol_vault_bump: 253,
        bitlab_mint: mint(bitlab_mint()),
        usdc_mint: mint(usdc_mint()),
        usdt_mint: mint(usdt_mint()),
        bitlab_vault: k(BITLAB_VAULT),
        usdc_vault: k(USDC_VAULT),
        usdt_vault: k(USDT_VAULT),
    }
}

fn args() -> InitializeArgs {
    InitializeArgs {
        ops_authority: k(OPS),
        treasury_authority: k(TREASURY_AUTH),
        emergency_authority: k(EMERGENCY),
        treasury: k(TREASURY),
        unsold_destination: k(UNSOLD),
        oracle: pyth_sol_usd(),
        bitlab_mint: bitlab_mint(),
        sale_start_ts: START,
        min_purchase_usd_e6: 10_000_000,
        max_purchase_usd_e6: 100_000_000_000,
        max_wallet_usd_e6: 500_000_000_000,
        oracle_max_staleness_secs: 60,
    }
}

fn fresh() -> PresaleState {
    initialize(&init_ctx(), &args(), 890_880, START - 100).unwrap().state
}

fn ops(state: PresaleState) -> OpsOnly {
    OpsOnly { ops_authority: k(OPS), state }
}

fn active() -> PresaleState {
    let mut c = ops(fresh());
    finalize_config(&mut c, START - 50).unwrap();
    start_sale(&mut c, START, START - 10).unwrap();
    c.state
}

fn token(key: u64, mint: Key, owner: Key, amount: u64) -> TokenAccountInfo {
    TokenAccountInfo { key: k(key), mint, owner, amount }
}

fn buyer_account() -> BuyerAccount {
    BuyerAccount { bump: 0, buyer: Key::default_key(), presale: Key::default_key(), bitlab_purchased: 0, usd_contributed_e6: 0, purchase_count: 0 }
}

fn usdc_ctx(state: PresaleState) -> BuyUsdc {
    BuyUsdc {
        buyer: k(BUYER),
        state_key: k(STATE),
        state,
        buyer_state: buyer_account(),
        buyer_state_bump: 250,
        bitlab_vault: token(BITLAB_VAULT, bitlab_mint(), k(STATE), PRESALE_ALLOCATION),
        buyer_bitlab: token(20, bitlab_mint(), k(BUYER), 0),
        buyer_usdc: token(21, usdc_mint(), k(BUYER), 1_000_000_000_000),
        treasury_usdc: token(22, usdc_mint(), k(TREASURY), 0),
        usdc_mint: usdc_mint(),
        token_program: spl_token_program(),
    }
}

fn usdt_ctx(state: PresaleState) -> BuyUsdt {
    BuyUsdt {
        buyer: k(BUYER),
        state_key: k(STATE),
        state,
        buyer_state: buyer_account(),
        buyer_state_bump: 250,
        bitlab_vault: token(BITLAB_VAULT, bitlab_mint(), k(STATE), PRESALE_ALLOCATION),
        buyer_bitlab: token(20, bitlab_mint(), k(BUYER), 0),
        buyer_usdt: token(23, usdt_mint(), k(BUYER), 1_000_000_000_000),
        treasury_usdt: token(24, usdt_mint(), k(TREASURY), 0),
        usdt_mint: usdt_mint(),
        token_program: spl_token_program(),
    }
}

fn oracle_data(price: i64, ts: i64, valid_slot: u64) -> Vec<u8> {
    let mut d = vec![0u8; 240];
    d[0..4].copy_from_slice(&0xa1b2c3d4u32.to_le_bytes());
    d[8..12].copy_from_slice(&3u32.to_le_bytes());
    d[20..24].copy_from_slice(&(-8i32).to_le_bytes());
    d[40..48].copy_from_slice(&valid_slot.to_le_bytes());
    d[96..104].copy_from_slice(&ts.to_le_bytes());
    d[208..216].copy_from_slice(&price.to_le_bytes());
    d[216..224].copy_from_slice(&1_000_000u64.to_le_bytes());
    d[224..228].copy_from_slice(&1u32.to_le_bytes());
    d
}

fn sol_ctx(state: PresaleState, now: i64) -> BuySol {
    BuySol {
        buyer: k(BUYER),
        state_key: k(STATE),
        state,
        treasury: k(TREASURY),
        buyer_state: buyer_account(),
        buyer_state_bump: 250,
        bitlab_vault: token(BITLAB_VAULT, bitlab_mint(), k(STATE), PRESALE_ALLOCATION),
        buyer_bitlab: token(20, bitlab_mint(), k(BUYER), 0),
        oracle: OracleAccount { key: pyth_sol_usd(), owner: pyth_program(), data: oracle_data(15_000_000_000, now - 5, 900) },
        token_program: spl_token_program(),
    }
}

#[test]
fn initialize_sets_up_a_closed_configuration() {
    let out = initialize(&init_ctx(), &args(), 890_880, 42).unwrap();
    assert_eq!(out.rent_top_up, 890_880);
    assert_eq!(out.event.sale_start_ts, START);
    assert_eq!(out.event.timestamp, 42);
    let s = out.state;
    assert_eq!(s.status, SaleStatus::NotStarted);
    assert_eq!(s.end_reason, EndReason::NotEnded);
    assert!(!s.config_finalized);
    assert_eq!(s.allocation, PRESALE_ALLOCATION);
    assert_eq!(s.prices_e9[9], 2_357_948);
    assert_eq!(s.bitlab_mint, bitlab_mint());
    assert_eq!(s.oracle, pyth_sol_usd());
    assert_eq!(s.sol_vault, k(SOL_VAULT));
    assert_eq!(s.bump, 254);
    assert_eq!(s.pending_ops_authority, Key::default_key());
}

#[test]
fn initialize_refusals() {
    let mut a = args();
    a.treasury = Key::default_key();
    assert_eq!(initialize(&init_ctx(), &a, 0, 0).err(), Some(PresaleError::InvalidAuthority));
    let mut c = init_ctx();
    c.payer = k(99);
    assert_eq!(initialize(&c, &args(), 0, 0).err(), Some(PresaleError::Unauthorized));
    let mut a = args();
    a.bitlab_mint = usdc_mint();
    assert_eq!(initialize(&init_ctx(), &a, 0, 0).err(), Some(PresaleError::UnapprovedMint));
    let mut c = init_ctx();
    c.usdt_mint.key = usdc_mint();
    assert_eq!(initialize(&c, &args(), 0, 0).err(), Some(PresaleError::UnapprovedMint));
    let mut a = args();
    a.oracle = k(77);
    assert_eq!(initialize(&init_ctx(), &a, 0, 0).err(), Some(PresaleError::InvalidOracle));
    let mut a = args();
    a.sale_start_ts = 0;
    assert_eq!(initialize(&init_ctx(), &a, 0, 0).err(), Some(PresaleError::InvalidStartTs));
    let mut c = init_ctx();
    c.usdc_mint.decimals = 9;
    assert_eq!(initialize(&c, &args(), 0, 0).err(), Some(PresaleError::AccountMismatch));
    let mut c = init_ctx();
    c.bitlab_mint.freeze_authority = Some(k(1));
    assert_eq!(initialize(&c, &args(), 0, 0).err(), Some(PresaleError::MintAuthorityActive));
    let mut a = args();
    a.max_wallet_usd_e6 = 1;
    assert_eq!(initialize(&init_ctx(), &a, 0, 0).err(), Some(PresaleError::LimitInvariant));
    let mut a = args();
    a.oracle_max_staleness_secs = 1;
    assert_eq!(initialize(&init_ctx(), &a, 0, 0).err(), Some(PresaleError::OracleStalenessBounds));
    let mut c = init_ctx();
    c.sol_vault.data_is_empty = false;
    assert_eq!(initialize(&c, &args(), 0, 0).err(), Some(PresaleError::InvalidSolVault));
    let mut c = init_ctx();
    c.sol_vault.lamports = 1_000_000;
    assert_eq!(initialize(&c, &args(), 890_880, 0).unwrap().rent_top_up, 0);
}

#[test]
fn configuration_freezes() {
    let mut c = ops(fresh());
    assert_eq!(set_purchase_limits(&mut c, 1, 2, 3), Ok(()));
    assert_eq!(c.state.max_wallet_usd_e6, 3);
    assert_eq!(set_purchase_limits(&mut c, 3, 2, 3), Err(PresaleError::LimitInvariant));
    assert_eq!(set_oracle(&mut c, pyth_sol_usd(), 120), Ok(()));
    assert_eq!(c.state.oracle_max_staleness_secs, 120);
    assert_eq!(set_oracle(&mut c, k(3), 120), Err(PresaleError::InvalidOracle));
    assert_eq!(set_oracle(&mut c, pyth_sol_usd(), 301), Err(PresaleError::OracleStalenessBounds));
    let ev = finalize_config(&mut c, 9).unwrap();
    assert_eq!(ev.timestamp, 9);
    assert!(c.state.config_finalized);
    assert_eq!(finalize_config(&mut c, 10), Err(PresaleError::ConfigFrozen));
    assert_eq!(set_purchase_limits(&mut c, 1, 2, 3), Err(PresaleError::ConfigFrozen));
    assert_eq!(set_oracle(&mut c, pyth_sol_usd(), 60), Err(PresaleError::ConfigFrozen));
    assert_eq!(c.state.oracle_max_staleness_secs, 120);
}

#[test]
fn lifecycle_transitions() {
    let mut c = ops(fresh());
    assert_eq!(start_sale(&mut c, START, 0), Err(PresaleError::ConfigOpen));
    finalize_config(&mut c, 0).unwrap();
    assert_eq!(start_sale(&mut c, 0, 0), Err(PresaleError::InvalidStartTs));
    let ev = start_sale(&mut c, START + 5, 7).unwrap();
    assert_eq!(ev.status, SaleStatus::Active);
    assert_eq!(c.state.sale_start_ts, START + 5);
    assert_eq!(start_sale(&mut c, START, 0), Err(PresaleError::ConfigFrozen));
    assert_eq!(resume(&mut c, 0), Err(PresaleError::Paused));
    let before = c.state;
    pause(&mut c, 11).unwrap();
    assert_eq!(c.state.status, SaleStatus::Paused);
    assert_eq!(c.state.paused_at, 11);
    assert_eq!(pause(&mut c, 12), Err(PresaleError::NotActive));
    resume(&mut c, 13).unwrap();
    assert_eq!(c.state.status, before.status);
    let ev = end_presale(&mut c, 20).unwrap();
    assert_eq!(ev.reason, EndReason::AdminTerminated);
    assert_eq!(c.state.ended_at, 20);
    assert_eq!(end_presale(&mut c, 21), Err(PresaleError::Ended));
    let mut intruder = OpsOnly { ops_authority: k(99), state: c.state };
    assert_eq!(pause(&mut intruder, 0), Err(PresaleError::Unauthorized));
}

#[test]
fn emergency_stop_blocks_and_releases() {
    let mut e = EmergencyOnly { emergency_authority: k(EMERGENCY), state: active() };
    assert_eq!(clear_emergency(&mut e, 0), Err(PresaleError::EmergencyNotEngaged));
    emergency_stop(&mut e, 5).unwrap();
    assert!(e.state.emergency_stop);
    assert_eq!(e.state.status, SaleStatus::Paused);
    let mut b = usdc_ctx(e.state);
    assert_eq!(buy_with_usdc(&mut b, 10_000_000, 0, START + 1), Err(PresaleError::Paused));
    let mut c = ops(e.state);
    assert_eq!(resume(&mut c, 6), Err(PresaleError::EmergencyEngaged));
    clear_emergency(&mut e, 7).unwrap();
    let mut c = ops(e.state);
    resume(&mut c, 8).unwrap();
    assert_eq!(c.state.status, SaleStatus::Active);
    // A terminated sale that was stopped cannot be resumed.
    end_presale(&mut c, 9).unwrap();
    let mut e = EmergencyOnly { emergency_authority: k(EMERGENCY), state: c.state };
    emergency_stop(&mut e, 10).unwrap();
    clear_emergency(&mut e, 11).unwrap();
    let mut c = ops(e.state);
    assert_eq!(resume(&mut c, 12), Err(PresaleError::Terminal));
}

#[test]
fn asset_switches() {
    let mut c = ops(active());
    assert_eq!(set_asset_enabled(&mut c, 3, true), Err(PresaleError::AssetDisabled));
    set_asset_enabled(&mut c, 1, false).unwrap();
    let mut b = usdc_ctx(c.state);
    assert_eq!(buy_with_usdc(&mut b, 10_000_000, 0, START + 1), Err(PresaleError::AssetDisabled));
    let mut t = usdt_ctx(c.state);
    assert!(buy_with_usdt(&mut t, 10_000_000, 0, START + 1).is_ok());
}

#[test]
fn authority_hand_over() {
    let mut c = ops(active());
    assert_eq!(propose_ops_authority(&mut c, Key::default_key(), 0), Err(PresaleError::InvalidAuthority));
    assert_eq!(propose_ops_authority(&mut c, k(OPS), 0), Err(PresaleError::InvalidAuthority));
    let ev = propose_ops_authority(&mut c, k(50), 3).unwrap();
    assert!(ev.proposed);
    assert_eq!(ev.authority, k(50));
    let mut wrong = AcceptOps { new_authority: k(51), state: c.state };
    assert_eq!(accept_ops_authority(&mut wrong, 4), Err(PresaleError::PendingAuthority));
    let mut a = AcceptOps { new_authority: k(50), state: c.state };
    let ev = accept_ops_authority(&mut a, 4).unwrap();
    assert!(!ev.proposed);
    assert_eq!(a.state.ops_authority, k(50));
    assert_eq!(a.state.pending_ops_authority, Key::default_key());
    let mut old_ops = ops(a.state);
    assert_eq!(pause(&mut old_ops, 5), Err(PresaleError::Unauthorized));
}

#[test]
fn treasury_moves() {
    let mut t = TreasuryOnly { treasury_authority: k(TREASURY_AUTH), state: active() };
    assert_eq!(set_treasury(&mut t, k(TREASURY), 0), Err(PresaleError::InvalidAuthority));
    let ev = set_treasury(&mut t, k(40), 1).unwrap();
    assert_eq!(ev.treasury, k(40));
    assert_eq!(t.state.treasury, k(40));
}

#[test]
fn usdc_purchase_records_everything() {
    let mut b = usdc_ctx(active());
    let out = buy_with_usdc(&mut b, 10_000_000, 9_090_909_090, START + ROUND_DURATION_SECS).unwrap();
    // Round 2 price: 1.1e-3 $/BITLAB.
    assert_eq!(out.purchase.round, 2);
    assert_eq!(out.purchase.bitlab_price_e9, 1_100_000);
    assert_eq!(out.purchase.bitlab_amount, 9_090_909_090);
    assert_eq!(out.purchase.payment_asset, 1);
    assert_eq!(out.sold_out, None);
    assert_eq!(b.state.total_sold, 9_090_909_090);
    assert_eq!(b.state.usdc_received, 10_000_000);
    assert_eq!(b.state.unique_buyers, 1);
    assert_eq!(b.state.purchase_count, 1);
    assert_eq!(b.buyer_state.buyer, k(BUYER));
    assert_eq!(b.buyer_state.presale, k(STATE));
    assert_eq!(b.buyer_state.bump, 250);
    assert_eq!(b.buyer_state.usd_contributed_e6, 10_000_000);
    assert_eq!(b.buyer_state.purchase_count, 1);
    // A second purchase by the same wallet is not a new buyer.
    buy_with_usdc(&mut b, 20_000_000, 0, START + ROUND_DURATION_SECS).unwrap();
    assert_eq!(b.state.unique_buyers, 1);
    assert_eq!(b.state.purchase_count, 2);
    assert_eq!(b.buyer_state.usd_contributed_e6, 30_000_000);
}

#[test]
fn purchase_limits_and_refusals() {
    let mut b = usdc_ctx(active());
    let before = b.state;
    assert_eq!(buy_with_usdc(&mut b, 0, 0, START), Err(PresaleError::ZeroPayment));
    assert_eq!(buy_with_usdc(&mut b, 9_999_999, 0, START), Err(PresaleError::BelowMinimum));
    assert_eq!(buy_with_usdc(&mut b, 100_000_000_001, 0, START), Err(PresaleError::AboveMaximum));
    assert_eq!(buy_with_usdc(&mut b, 10_000_000, 10_000_000_001, START), Err(PresaleError::SlippageExceeded));
    assert_eq!(buy_with_usdc(&mut b, 10_000_000, 0, START - 1), Err(PresaleError::NotStarted));
    assert_eq!(buy_with_usdc(&mut b, 10_000_000, 0, START + SALE_DURATION_SECS), Err(PresaleError::NotActive));
    assert_eq!(b.state.status, before.status);
    assert_eq!(b.state.total_sold, 0);
    b.buyer_state.usd_contributed_e6 = 495_000_000_000;
    b.buyer_state.purchase_count = 3;
    b.buyer_state.buyer = k(BUYER);
    b.buyer_state.presale = k(STATE);
    b.buyer_state.bump = 250;
    assert_eq!(buy_with_usdc(&mut b, 10_000_000_000, 0, START), Err(PresaleError::WalletCap));
    b.buyer_state.buyer = k(98);
    assert_eq!(buy_with_usdc(&mut b, 10_000_000, 0, START), Err(PresaleError::AccountMismatch));
    b.buyer_state.usd_contributed_e6 = u64::MAX;
    assert_eq!(buy_with_usdc(&mut b, 10_000_000, 0, START), Err(PresaleError::MathOverflow));

    let mut b = usdc_ctx(active());
    b.bitlab_vault.amount = 5;
    assert_eq!(buy_with_usdc(&mut b, 10_000_000, 0, START), Err(PresaleError::InsufficientVault));
    let mut b = usdc_ctx(active());
    b.bitlab_vault.key = k(70);
    assert_eq!(buy_with_usdc(&mut b, 10_000_000, 0, START), Err(PresaleError::InvalidVault));
    let mut b = usdc_ctx(active());
    b.usdc_mint = usdt_mint();
    assert_eq!(buy_with_usdc(&mut b, 10_000_000, 0, START), Err(PresaleError::UnapprovedMint));
    let mut b = usdc_ctx(active());
    b.buyer_usdc.owner = k(71);
    assert_eq!(buy_with_usdc(&mut b, 10_000_000, 0, START), Err(PresaleError::InvalidTokenAccount));
    let mut b = usdc_ctx(active());
    b.treasury_usdc.owner = k(71);
    assert_eq!(buy_with_usdc(&mut b, 10_000_000, 0, START), Err(PresaleError::InvalidDestination));
    let mut b = usdc_ctx(active());
    b.bitlab_vault.owner = k(71);
    assert_eq!(buy_with_usdc(&mut b, 10_000_000, 0, START), Err(PresaleError::VaultOwner));
    let mut b = usdc_ctx(active());
    b.token_program = k(71);
    assert_eq!(buy_with_usdc(&mut b, 10_000_000, 0, START), Err(PresaleError::WrongTokenProgram));
    let mut b = usdc_ctx(active());
    b.state.prices_e9[0] = 0;
    assert_eq!(buy_with_usdc(&mut b, 10_000_000, 0, START), Err(PresaleError::ZeroPrice));
    let mut c = ops(fresh());
    finalize_config(&mut c, 0).unwrap();
    let mut b = usdc_ctx(c.state);
    assert_eq!(buy_with_usdc(&mut b, 10_000_000, 0, START), Err(PresaleError::NotActive));
    let mut b = usdc_ctx(fresh());
    assert_eq!(buy_with_usdc(&mut b, 10_000_000, 0, START), Err(PresaleError::ConfigOpen));
}

#[test]
fn last_purchase_sells_out() {
    let mut s = active();
    s.total_sold = PRESALE_ALLOCATION - 9_090_909_090;
    s.purchase_count = 10;
    s.unique_buyers = 10;
    let mut b = usdc_ctx(s);
    assert_eq!(buy_with_usdc(&mut b, 10_000_001, 0, START + ROUND_DURATION_SECS), Err(PresaleError::ExceedsRemaining));
    let out = buy_with_usdc(&mut b, 10_000_000, 0, START + ROUND_DURATION_SECS).unwrap();
    let ev = out.sold_out.unwrap();
    assert_eq!(ev.status, SaleStatus::SoldOut);
    assert_eq!(ev.reason, EndReason::SoldOut);
    assert_eq!(b.state.status, SaleStatus::SoldOut);
    assert_eq!(b.state.total_sold, PRESALE_ALLOCATION);
    assert_eq!(b.state.ended_at, START + ROUND_DURATION_SECS);
    assert_eq!(buy_with_usdc(&mut b, 10_000_000, 0, START + ROUND_DURATION_SECS), Err(PresaleError::NotActive));
}

#[test]
fn deliveries_check_the_buyer_record() {
    let mut s = active();
    let mut b = buyer_account();
    b.purchase_count = 1;
    b.buyer = k(BUYER);
    b.presale = k(77);
    assert_eq!(deliver_bitlab(&mut s, &mut b, k(STATE), k(BUYER), 1, 1, 0), Err(PresaleError::AccountMismatch));
    assert_eq!(deliver_bitlab(&mut s, &mut b, k(STATE), k(BUYER), 0, 1, 0), Err(PresaleError::ZeroPayment));
    assert_eq!(s.total_sold, 0);
}

#[test]
fn schedule_end_is_noticed() {
    let mut s = active();
    sync_status(&mut s, START + SALE_DURATION_SECS - 1).unwrap();
    assert_eq!(s.status, SaleStatus::Active);
    sync_status(&mut s, START + SALE_DURATION_SECS).unwrap();
    assert_eq!(s.status, SaleStatus::Ended);
    assert_eq!(s.end_reason, EndReason::Schedule);
    assert_eq!(s.ended_at, START + SALE_DURATION_SECS);
}

#[test]
fn sol_purchase_prices_through_the_oracle() {
    let now = START + 3 * ROUND_DURATION_SECS + 10;
    let mut b = sol_ctx(active(), now);
    // 1 SOL at $150 = $150; round 4 price 1.331e-3 $/BITLAB.
    let out = buy_with_sol(&mut b, 1_000_000_000, 0, now, 1_000).unwrap();
    assert_eq!(out.purchase.usd_value_e6, 150_000_000);
    assert_eq!(out.purchase.round, 4);
    assert_eq!(out.purchase.bitlab_amount, 112_697_220_135);
    assert_eq!(out.purchase.payment_asset, 0);
    assert_eq!(b.state.sol_received, 1_000_000_000);
    assert_eq!(b.state.total_sold, 112_697_220_135);
    assert_eq!(b.buyer_state.usd_contributed_e6, 150_000_000);
    let mut wrong = sol_ctx(active(), now);
    wrong.treasury = k(60);
    assert_eq!(buy_with_sol(&mut wrong, 1_000_000_000, 0, now, 1_000), Err(PresaleError::InvalidDestination));
    let mut stale = sol_ctx(active(), now);
    assert_eq!(buy_with_sol(&mut stale, 1_000_000_000, 0, now + 100, 1_000), Err(PresaleError::StaleOracle));
    let mut other = sol_ctx(active(), now);
    other.oracle.key = k(61);
    assert_eq!(buy_with_sol(&mut other, 1_000_000_000, 0, now, 1_000), Err(PresaleError::InvalidOracle));
    let mut foreign = sol_ctx(active(), now);
    foreign.buyer_bitlab.mint = usdc_mint();
    assert_eq!(buy_with_sol(&mut foreign, 1_000_000_000, 0, now, 1_000), Err(PresaleError::InvalidTokenAccount));
    assert_eq!(foreign.state.total_sold, 0);
    let mut program = sol_ctx(active(), now);
    program.token_program = k(62);
    assert_eq!(buy_with_sol(&mut program, 1_000_000_000, 0, now, 1_000), Err(PresaleError::WrongTokenProgram));
    let mut vault_owner = sol_ctx(active(), now);
    vault_owner.bitlab_vault.owner = k(63);
    assert_eq!(buy_with_sol(&mut vault_owner, 1_000_000_000, 0, now, 1_000), Err(PresaleError::VaultOwner));
    let mut zero = sol_ctx(active(), now);
    assert_eq!(buy_with_sol(&mut zero, 0, 0, now, 1_000), Err(PresaleError::ZeroPayment));
}

#[test]
fn payments_must_arrive_in_full() {
    assert_eq!(assert_treasury_credited(100, 200, 100), Ok(()));
    assert_eq!(assert_treasury_credited(100, 199, 100), Err(PresaleError::FeeOnTransfer));
    assert_eq!(assert_treasury_credited(100, 50, 100), Err(PresaleError::FeeOnTransfer));
}

#[test]
fn bitlab_transfers_are_checked() {
    let vault = token(BITLAB_VAULT, bitlab_mint(), k(STATE), 10);
    let to = token(20, bitlab_mint(), k(BUYER), 0);
    assert_eq!(transfer_bitlab(spl_token_program(), &vault, &to, k(STATE)), Ok(()));
    let usdc_to = token(20, usdc_mint(), k(BUYER), 0);
    assert_eq!(transfer_bitlab(spl_token_program(), &vault, &usdc_to, k(STATE)), Err(PresaleError::InvalidTokenAccount));
    let usdc_vault = token(USDC_VAULT, usdc_mint(), k(STATE), 10);
    assert_eq!(transfer_bitlab(spl_token_program(), &usdc_vault, &usdc_to, k(STATE)), Err(PresaleError::UnapprovedMint));
    assert_eq!(transfer_bitlab(k(1), &vault, &to, k(STATE)), Err(PresaleError::WrongTokenProgram));
    assert_eq!(transfer_bitlab(spl_token_program(), &vault, &to, k(1)), Err(PresaleError::VaultOwner));
}

#[test]
fn finalizing_a_closed_sale() {
    let bitlab_vault = token(BITLAB_VAULT, bitlab_mint(), k(STATE), 1_000);
    let unsold = token(30, bitlab_mint(), k(UNSOLD), 0);
    let mut f = FinalizeSale {
        ops_authority: k(OPS),
        state_key: k(STATE),
        state: active(),
        bitlab_vault,
        unsold_destination: unsold,
        token_program: spl_token_program(),
    };
    assert_eq!(finalize_sale(&mut f, START + 5).err(), Some(PresaleError::NotClosed));
    let mut elsewhere = FinalizeSale {
        ops_authority: k(OPS),
        state_key: k(STATE),
        state: active(),
        bitlab_vault,
        unsold_destination: token(33, bitlab_mint(), k(BUYER), 0),
        token_program: spl_token_program(),
    };
    assert_eq!(finalize_sale(&mut elsewhere, START + SALE_DURATION_SECS).err(), Some(PresaleError::InvalidDestination));
    assert_eq!(elsewhere.state.status, SaleStatus::Active);
    let out = finalize_sale(&mut f, START + SALE_DURATION_SECS).unwrap();
    assert_eq!(out.unsold, 1_000);
    assert_eq!(out.event.status, SaleStatus::Finalized);
    assert_eq!(out.event.reason, EndReason::Schedule);
    assert_eq!(f.state.status, SaleStatus::Finalized);
    assert_eq!(f.state.finalized_at, START + SALE_DURATION_SECS);
    assert_eq!(finalize_sale(&mut f, START + SALE_DURATION_SECS).err(), Some(PresaleError::AlreadyFinalized));
    let mut e = EmergencyOnly { emergency_authority: k(EMERGENCY), state: f.state };
    assert_eq!(emergency_stop(&mut e, 1), Err(PresaleError::AlreadyFinalized));
    let mut c = ops(f.state);
    assert_eq!(set_asset_enabled(&mut c, 0, false), Err(PresaleError::AlreadyFinalized));
    assert_eq!(end_presale(&mut c, 1), Err(PresaleError::Ended));
}

#[test]
fn withdrawals_go_to_the_treasury() {
    let s = active();
    let vault = SolVaultInfo { key: k(SOL_VAULT), owner: system_program(), lamports: 2_000_000, data_is_empty: true };
    let w = WithdrawSol { treasury_authority: k(TREASURY_AUTH), state: s, sol_vault: vault, destination: k(TREASURY) };
    let ev = withdraw_sol(&w, 890_880, 1_000_000, 3).unwrap();
    assert_eq!(ev.amount, 1_000_000);
    assert_eq!(ev.destination, k(TREASURY));
    assert!(!ev.emergency);
    assert_eq!(withdraw_sol(&w, 890_880, 1_200_000, 3), Err(PresaleError::RentExempt));
    assert_eq!(withdraw_sol(&w, 890_880, 0, 3), Err(PresaleError::ZeroPayment));
    let mut bad = WithdrawSol { treasury_authority: k(TREASURY_AUTH), state: s, sol_vault: vault, destination: k(12) };
    assert_eq!(withdraw_sol(&bad, 890_880, 10, 3), Err(PresaleError::InvalidDestination));
    bad.destination = k(TREASURY);
    bad.sol_vault.key = k(13);
    assert_eq!(withdraw_sol(&bad, 890_880, 10, 3), Err(PresaleError::InvalidVault));
    let mut owned = WithdrawSol { treasury_authority: k(TREASURY_AUTH), state: s, sol_vault: vault, destination: k(TREASURY) };
    owned.sol_vault.owner = k(14);
    assert_eq!(withdraw_sol(&owned, 890_880, 10, 3), Err(PresaleError::InvalidSolVault));
    let intruder = WithdrawSol { treasury_authority: k(99), state: s, sol_vault: vault, destination: k(TREASURY) };
    assert_eq!(withdraw_sol(&intruder, 890_880, 10, 3), Err(PresaleError::Unauthorized));

    let e = EmergencyWithdrawSol { emergency_authority: k(EMERGENCY), state: s, sol_vault: vault, destination: k(TREASURY) };
    assert_eq!(emergency_recover_sol(&e, 890_880, 10, 3), Err(PresaleError::EmergencyNotEngaged));
    let mut stopped = EmergencyOnly { emergency_authority: k(EMERGENCY), state: s };
    emergency_stop(&mut stopped, 2).unwrap();
    let e = EmergencyWithdrawSol { emergency_authority: k(EMERGENCY), state: stopped.state, sol_vault: vault, destination: k(TREASURY) };
    assert!(emergency_recover_sol(&e, 890_880, 10, 3).unwrap().emergency);

    let usdc_vault = token(USDC_VAULT, usdc_mint(), k(STATE), 500);
    let dest = token(31, usdc_mint(), k(TREASURY), 0);
    let w = WithdrawUsdc { treasury_authority: k(TREASURY_AUTH), state_key: k(STATE), state: s, usdc_vault, destination: dest, token_program: spl_token_program() };
    let ev = withdraw_usdc(&w, 500, 4).unwrap();
    assert_eq!(ev.asset, 1);
    assert_eq!(ev.destination, k(TREASURY));
    assert_eq!(withdraw_usdc(&w, 501, 4), Err(PresaleError::InsufficientVault));
    let mut wrong_dest = WithdrawUsdc { treasury_authority: k(TREASURY_AUTH), state_key: k(STATE), state: s, usdc_vault, destination: dest, token_program: spl_token_program() };
    wrong_dest.destination.mint = usdt_mint();
    assert_eq!(withdraw_usdc(&wrong_dest, 5, 4), Err(PresaleError::InvalidVault));
    let mut not_ours = WithdrawUsdc { treasury_authority: k(TREASURY_AUTH), state_key: k(STATE), state: s, usdc_vault, destination: dest, token_program: spl_token_program() };
    not_ours.usdc_vault.owner = k(15);
    assert_eq!(withdraw_usdc(&not_ours, 5, 4), Err(PresaleError::VaultOwner));

    // BITLAB never leaves through a payment withdrawal.
    let mut s2 = s;
    s2.usdt_vault = k(BITLAB_VAULT);
    let w = WithdrawUsdt {
        treasury_authority: k(TREASURY_AUTH),
        state_key: k(STATE),
        state: s2,
        usdt_vault: token(BITLAB_VAULT, bitlab_mint(), k(STATE), 500),
        destination: token(32, bitlab_mint(), k(TREASURY), 0),
        token_program: spl_token_program(),
    };
    assert_eq!(withdraw_usdt(&w, 5, 4), Err(PresaleError::BitlabProtected));

    let e = EmergencyWithdrawUsdc { emergency_authority: k(EMERGENCY), state_key: k(STATE), state: stopped.state, usdc_vault, destination: dest, token_program: spl_token_program() };
    let ev = emergency_recover_usdc(&e, 100, 5).unwrap();
    assert!(ev.emergency);
    assert_eq!(ev.amount, 100);
}

#[test]
fn status_sync_settles() {
    let mut s = active();
    s.total_sold = PRESALE_ALLOCATION;
    s.purchase_count = 1;
    sync_status(&mut s, START + 7).unwrap();
    assert_eq!(s.status, SaleStatus::SoldOut);
    assert_eq!(s.end_reason, EndReason::SoldOut);
    assert_eq!(s.ended_at, START + 7);
    sync_status(&mut s, START + 7).unwrap();
    assert_eq!(s.status, SaleStatus::SoldOut);
    assert_eq!(s.ended_at, START + 7);
    // A closed sale keeps its closing time.
    sync_status(&mut s, START + SALE_DURATION_SECS).unwrap();
    assert_eq!(s.ended_at, START + 7);
}
