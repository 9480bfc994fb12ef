use token_engine::balances::BalanceSheet;
use token_engine::errors::ErrorCode;
use token_engine::ids::AccountId;
use token_engine::liquidity::{add_liquidity, sync_dual_lp};
use token_engine::state::initialize;

fn authority() -> AccountId {
    AccountId { value: 5 }
}

fn mint() -> AccountId {
    AccountId { value: 6 }
}

fn stranger() -> AccountId {
    AccountId { value: 7 }
}

fn pools_sheet(main: u64, secondary: u64) -> BalanceSheet {
    BalanceSheet {
        caller_reserve: 1_000_000,
        caller_asset: 0,
        reserve_pool: 0,
        fee_collector: 50_000,
        token_vault: 0,
        lottery_pool: 0,
        burn_sink: 0,
        main_pool: main,
        secondary_pool: secondary,
        winner_asset: 0,
    }
}

#[test]
fn sync_routes_fees_to_smaller_main_pool() {
    let mut state = initialize(authority(), mint());
    let mut sheet = pools_sheet(100, 500);
    let r = sync_dual_lp(&mut state, &mut sheet, authority(), 40_000, 777);
    assert_eq!(r, Ok(()));
    assert_eq!(sheet.main_pool, 100 + 40_000);
    assert_eq!(sheet.secondary_pool, 500);
    assert_eq!(sheet.fee_collector, 10_000);
    assert_eq!(state.total_lp_fees_collected, 40_000);
    assert_eq!(state.last_lp_sync, 777);
}

#[test]
fn sync_routes_fees_to_smaller_secondary_pool() {
    let mut state = initialize(authority(), mint());
    let mut sheet = pools_sheet(900, 200);
    let r = sync_dual_lp(&mut state, &mut sheet, authority(), 1_000, 1);
    assert_eq!(r, Ok(()));
    assert_eq!(sheet.main_pool, 900);
    assert_eq!(sheet.secondary_pool, 1_200);
}

#[test]
fn sync_tie_prefers_the_secondary_pool() {
    let mut state = initialize(authority(), mint());
    let mut sheet = pools_sheet(300, 300);
    let r = sync_dual_lp(&mut state, &mut sheet, authority(), 1_000, 2);
    assert_eq!(r, Ok(()));
    assert_eq!(sheet.main_pool, 300);
    assert_eq!(sheet.secondary_pool, 1_300);
}

#[test]
fn sync_by_non_authority_mutates_nothing() {
    let mut state = initialize(authority(), mint());
    let mut sheet = pools_sheet(100, 500);
    let state_before = state;
    let sheet_before = sheet;
    let r = sync_dual_lp(&mut state, &mut sheet, stranger(), 1_000, 3);
    assert_eq!(r, Err(ErrorCode::Unauthorized));
    assert_eq!(state, state_before);
    assert_eq!(sheet, sheet_before);
}

#[test]
fn sync_on_uninitialized_ledger_mutates_nothing() {
    let mut state = initialize(authority(), mint());
    state.is_initialized = false;
    let mut sheet = pools_sheet(100, 500);
    let state_before = state;
    let sheet_before = sheet;
    let r = sync_dual_lp(&mut state, &mut sheet, authority(), 1_000, 4);
    assert_eq!(r, Err(ErrorCode::NotInitialized));
    assert_eq!(state, state_before);
    assert_eq!(sheet, sheet_before);
}

#[test]
fn sync_with_underfunded_collector_mutates_nothing() {
    let mut state = initialize(authority(), mint());
    let mut sheet = pools_sheet(100, 500);
    let state_before = state;
    let sheet_before = sheet;
    let r = sync_dual_lp(&mut state, &mut sheet, authority(), 60_000, 5);
    assert_eq!(r, Err(ErrorCode::TransferFailure));
    assert_eq!(state, state_before);
    assert_eq!(sheet, sheet_before);
}

#[test]
fn add_liquidity_counts_every_call_as_a_participant() {
    let mut state = initialize(authority(), mint());
    let mut sheet = pools_sheet(0, 0);
    let r = add_liquidity(&mut state, &mut sheet, 0, 250_000);
    assert_eq!(r, Ok(()));
    assert_eq!(state.total_liquidity_provided, 250_000);
    assert_eq!(state.lp_participants, 1);
    assert_eq!(sheet.reserve_pool, 250_000);
    assert_eq!(sheet.caller_reserve, 750_000);
    let r2 = add_liquidity(&mut state, &mut sheet, 0, 250_000);
    assert_eq!(r2, Ok(()));
    assert_eq!(state.total_liquidity_provided, 500_000);
    assert_eq!(state.lp_participants, 2);
}

#[test]
fn add_liquidity_rejects_asset_side_deposits() {
    let mut state = initialize(authority(), mint());
    let mut sheet = pools_sheet(0, 0);
    let state_before = state;
    let sheet_before = sheet;
    let r = add_liquidity(&mut state, &mut sheet, 5, 250_000);
    assert_eq!(r, Err(ErrorCode::InvalidEntryTier));
    assert_eq!(state, state_before);
    assert_eq!(sheet, sheet_before);
}

#[test]
fn add_liquidity_on_uninitialized_ledger_mutates_nothing() {
    let mut state = initialize(authority(), mint());
    state.is_initialized = false;
    let mut sheet = pools_sheet(0, 0);
    let state_before = state;
    let sheet_before = sheet;
    let r = add_liquidity(&mut state, &mut sheet, 0, 250_000);
    assert_eq!(r, Err(ErrorCode::NotInitialized));
    assert_eq!(state, state_before);
    assert_eq!(sheet, sheet_before);
}
