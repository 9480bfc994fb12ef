use token_engine::balances::{apply_legs, transfer, Balance, BalanceSheet, TransferLeg};
use token_engine::burning::burn_tokens;
use token_engine::errors::ErrorCode;
use token_engine::ids::AccountId;
use token_engine::state::initialize;

fn sheet_with(caller_asset: u64, burn_sink: u64) -> BalanceSheet {
    BalanceSheet {
        caller_reserve: 400,
        caller_asset,
        reserve_pool: 0,
        fee_collector: 0,
        token_vault: 0,
        lottery_pool: 0,
        burn_sink,
        main_pool: 0,
        secondary_pool: 0,
        winner_asset: 0,
    }
}

fn total_of(s: &BalanceSheet) -> u128 {
    s.caller_reserve as u128 + s.caller_asset as u128 + s.reserve_pool as u128
        + s.fee_collector as u128 + s.token_vault as u128 + s.lottery_pool as u128
        + s.burn_sink as u128 + s.main_pool as u128 + s.secondary_pool as u128
        + s.winner_asset as u128
}

#[test]
fn transfer_moves_the_amount_and_conserves_the_total() {
    let mut sheet = sheet_with(1_000, 0);
    let before = total_of(&sheet);
    let r = transfer(&mut sheet, Balance::CallerAsset, Balance::BurnSink, 300);
    assert_eq!(r, Ok(()));
    assert_eq!(sheet.caller_asset, 700);
    assert_eq!(sheet.burn_sink, 300);
    assert_eq!(total_of(&sheet), before);
}

#[test]
fn transfer_with_insufficient_source_changes_nothing() {
    let mut sheet = sheet_with(100, 0);
    let before = sheet;
    let r = transfer(&mut sheet, Balance::CallerAsset, Balance::BurnSink, 300);
    assert_eq!(r, Err(ErrorCode::TransferFailure));
    assert_eq!(sheet, before);
}

#[test]
fn transfer_into_a_saturated_destination_changes_nothing() {
    let mut sheet = sheet_with(1_000, u64::MAX);
    let before = sheet;
    let r = transfer(&mut sheet, Balance::CallerAsset, Balance::BurnSink, 1);
    assert_eq!(r, Err(ErrorCode::TransferFailure));
    assert_eq!(sheet, before);
}

#[test]
fn apply_legs_commits_every_leg_in_order() {
    let mut sheet = sheet_with(1_000, 0);
    let legs = vec![
        TransferLeg { source: Balance::CallerAsset, dest: Balance::BurnSink, amount: 600 },
        TransferLeg { source: Balance::BurnSink, dest: Balance::LotteryPool, amount: 500 },
    ];
    let r = apply_legs(&mut sheet, &legs);
    assert_eq!(r, Ok(()));
    assert_eq!(sheet.caller_asset, 400);
    assert_eq!(sheet.burn_sink, 100);
    assert_eq!(sheet.lottery_pool, 500);
}

#[test]
fn apply_legs_is_all_or_nothing() {
    let mut sheet = sheet_with(1_000, 0);
    let before = sheet;
    let legs = vec![
        TransferLeg { source: Balance::CallerAsset, dest: Balance::BurnSink, amount: 600 },
        TransferLeg { source: Balance::BurnSink, dest: Balance::LotteryPool, amount: 601 },
    ];
    let r = apply_legs(&mut sheet, &legs);
    assert_eq!(r, Err(ErrorCode::TransferFailure));
    assert_eq!(sheet, before);
}

#[test]
fn burn_records_the_amount_without_touching_supply() {
    let mut state = initialize(AccountId { value: 1 }, AccountId { value: 2 });
    state.total_supply = 5_000;
    let mut sheet = sheet_with(2_000, 0);
    let r = burn_tokens(&mut state, &mut sheet, 1_500);
    assert_eq!(r, Ok(()));
    assert_eq!(state.burned_tokens, 1_500);
    assert_eq!(state.total_supply, 5_000);
    assert_eq!(sheet.caller_asset, 500);
    assert_eq!(sheet.burn_sink, 1_500);
}

#[test]
fn burn_on_uninitialized_ledger_mutates_nothing() {
    let mut state = initialize(AccountId { value: 1 }, AccountId { value: 2 });
    state.is_initialized = false;
    let mut sheet = sheet_with(2_000, 0);
    let state_before = state;
    let sheet_before = sheet;
    let r = burn_tokens(&mut state, &mut sheet, 1_500);
    assert_eq!(r, Err(ErrorCode::NotInitialized));
    assert_eq!(state, state_before);
    assert_eq!(sheet, sheet_before);
}

#[test]
fn burn_with_insufficient_assets_mutates_nothing() {
    let mut state = initialize(AccountId { value: 1 }, AccountId { value: 2 });
    let mut sheet = sheet_with(1_000, 0);
    let state_before = state;
    let sheet_before = sheet;
    let r = burn_tokens(&mut state, &mut sheet, 1_500);
    assert_eq!(r, Err(ErrorCode::TransferFailure));
    assert_eq!(state, state_before);
    assert_eq!(sheet, sheet_before);
}
