use vstd::prelude::*;

use crate::balances::{transfer, Balance, BalanceSheet};
use crate::errors::ErrorCode;
use crate::state::StateAccount;

verus! {

/// The flat trading tax: 2.5% of an amount, by integer truncation.
pub open spec fn tax_on(amount: u64) -> int {
    amount * 25 / 1000
}

/// What remains of a buy's reserve payment once the tax is taken.
pub open spec fn buy_net(sol_amount: u64) -> int {
    sol_amount - tax_on(sol_amount)
}

/// The asset units a buy issues: a fixed linear rate of 1,000,000 asset
/// units per net reserve unit, not a variable-price curve.
pub open spec fn buy_token_output(sol_amount: u64) -> int {
    buy_net(sol_amount) * 1_000_000
}

/// Whether a buy's two reserve-side legs can be applied: the net amount to
/// the liquidity pool, then the tax to the fee collector, both drawn from
/// the caller's reserve balance.
pub open spec fn buy_reserve_legs_ok(s: BalanceSheet, sol_amount: u64) -> bool {
    &&& buy_net(sol_amount) <= s.caller_reserve
    &&& s.reserve_pool + buy_net(sol_amount) <= u64::MAX
    &&& tax_on(sol_amount) <= s.caller_reserve - buy_net(sol_amount)
    &&& s.fee_collector + tax_on(sol_amount) <= u64::MAX
}

/// Whether every leg of a buy can be applied in order: the reserve legs,
/// then the issued assets from the vault to the caller.
pub open spec fn buy_transfers_ok(s: BalanceSheet, sol_amount: u64) -> bool {
    &&& buy_reserve_legs_ok(s, sol_amount)
    &&& buy_token_output(sol_amount) <= s.token_vault
    &&& s.caller_asset + buy_token_output(sol_amount) <= u64::MAX
}

/// What remains of a sold asset amount once the asset-side tax is taken.
pub open spec fn sell_net(token_amount: u64) -> int {
    token_amount - tax_on(token_amount)
}

/// The reserve units the inverse curve rate converts a sale's net asset
/// amount into.
pub open spec fn sell_reserve_output(token_amount: u64) -> int {
    sell_net(token_amount) / 1_000_000
}

/// The tax levied a second time on the converted reserve amount. The sell
/// path deliberately taxes both legs: once implicitly through the curve's
/// asymmetric rate and once here; only this reserve-side tax is counted in
/// the ledger's tax total.
pub open spec fn sell_reserve_tax(token_amount: u64) -> int {
    sell_reserve_output(token_amount) * 25 / 1000
}

/// The reserve units the seller actually receives.
pub open spec fn sell_net_reserve(token_amount: u64) -> int {
    sell_reserve_output(token_amount) - sell_reserve_tax(token_amount)
}

/// Whether every leg of a sale can be applied in order: the gross asset
/// amount into the vault, then the seller's reserve payout, then the
/// reserve-side tax, both drawn from the liquidity pool.
pub open spec fn sell_transfers_ok(s: BalanceSheet, token_amount: u64) -> bool {
    &&& token_amount <= s.caller_asset
    &&& s.token_vault + token_amount <= u64::MAX
    &&& sell_net_reserve(token_amount) <= s.reserve_pool
    &&& s.caller_reserve + sell_net_reserve(token_amount) <= u64::MAX
    &&& sell_reserve_tax(token_amount) <= s.reserve_pool - sell_net_reserve(token_amount)
    &&& s.fee_collector + sell_reserve_tax(token_amount) <= u64::MAX
}

/// Buys assets against the reserve currency at the fixed curve rate with a
/// flat tax.
///
/// The payment splits into a net leg to the liquidity pool and a tax leg
/// to the fee collector; the issued assets move from the vault to the
/// caller. On success the issued supply and the tax total grow by exactly
/// the issued amount and the tax; on any failure nothing is mutated.
pub fn buy_tokens(state: &mut StateAccount, sheet: &mut BalanceSheet, sol_amount: u64) -> (r:
    Result<(), ErrorCode>)
    requires
        sol_amount >= 1,
        old(state).is_initialized ==> sol_amount * 25 <= u64::MAX,
        old(state).is_initialized && buy_reserve_legs_ok(*old(sheet), sol_amount)
            ==> buy_token_output(sol_amount) <= u64::MAX,
        old(state).is_initialized && buy_transfers_ok(*old(sheet), sol_amount) ==> old(
            state,
        ).total_supply + buy_token_output(sol_amount) <= u64::MAX && old(
            state,
        ).total_tax_collected + tax_on(sol_amount) <= u64::MAX,
    ensures
        r == Err::<(), ErrorCode>(ErrorCode::NotInitialized) <==> !old(state).is_initialized,
        r == Err::<(), ErrorCode>(ErrorCode::TransferFailure) <==> old(state).is_initialized
            && !buy_transfers_ok(*old(sheet), sol_amount),
        r is Ok <==> old(state).is_initialized && buy_transfers_ok(*old(sheet), sol_amount),
        r is Err ==> *final(state) == *old(state) && *final(sheet) == *old(sheet),
        r is Ok ==> *final(state) == (StateAccount {
            total_supply: (old(state).total_supply + buy_token_output(sol_amount)) as u64,
            total_tax_collected: (old(state).total_tax_collected + tax_on(sol_amount)) as u64,
            ..*old(state)
        }),
        r is Ok ==> *final(sheet) == (BalanceSheet {
            caller_reserve: (old(sheet).caller_reserve - sol_amount) as u64,
            reserve_pool: (old(sheet).reserve_pool + buy_net(sol_amount)) as u64,
            fee_collector: (old(sheet).fee_collector + tax_on(sol_amount)) as u64,
            token_vault: (old(sheet).token_vault - buy_token_output(sol_amount)) as u64,
            caller_asset: (old(sheet).caller_asset + buy_token_output(sol_amount)) as u64,
            ..*old(sheet)
        }),
        final(sheet).spec_total() == old(sheet).spec_total(),
{
    if !state.is_initialized {
        return Err(ErrorCode::NotInitialized);
    }
    let tax_amount: u64 = (sol_amount * 25) / 1000;
    let net_amount: u64 = sol_amount - tax_amount;
    let mut staged: BalanceSheet = *sheet;
    match transfer(&mut staged, Balance::CallerReserve, Balance::ReservePool, net_amount) {
        Ok(()) => {},
        Err(e) => {
            return Err(e);
        },
    }
    match transfer(&mut staged, Balance::CallerReserve, Balance::FeeCollector, tax_amount) {
        Ok(()) => {},
        Err(e) => {
            return Err(e);
        },
    }
    let tokens_to_give: u64 = net_amount * 1_000_000;
    match transfer(&mut staged, Balance::TokenVault, Balance::CallerAsset, tokens_to_give) {
        Ok(()) => {},
        Err(e) => {
            return Err(e);
        },
    }
    state.total_supply = state.total_supply + tokens_to_give;
    state.total_tax_collected = state.total_tax_collected + tax_amount;
    *sheet = staged;
    Ok(())
}

/// Sells assets back against the reserve currency at the inverse curve
/// rate.
///
/// The gross asset amount moves into the vault; the converted reserve
/// amount, taxed a second time on the reserve side, leaves the liquidity
/// pool as a payout leg to the seller and a tax leg to the fee collector.
/// On success the issued supply shrinks by the gross amount sold and the
/// tax total grows by exactly the reserve-side tax; on any failure nothing
/// is mutated.
pub fn sell_tokens(state: &mut StateAccount, sheet: &mut BalanceSheet, token_amount: u64) -> (r:
    Result<(), ErrorCode>)
    requires
        token_amount >= 1,
        old(state).is_initialized ==> token_amount * 25 <= u64::MAX,
        old(state).is_initialized && sell_transfers_ok(*old(sheet), token_amount)
            ==> token_amount <= old(state).total_supply && old(state).total_tax_collected
            + sell_reserve_tax(token_amount) <= u64::MAX,
    ensures
        r == Err::<(), ErrorCode>(ErrorCode::NotInitialized) <==> !old(state).is_initialized,
        r == Err::<(), ErrorCode>(ErrorCode::TransferFailure) <==> old(state).is_initialized
            && !sell_transfers_ok(*old(sheet), token_amount),
        r is Ok <==> old(state).is_initialized && sell_transfers_ok(*old(sheet), token_amount),
        r is Err ==> *final(state) == *old(state) && *final(sheet) == *old(sheet),
        r is Ok ==> *final(state) == (StateAccount {
            total_supply: (old(state).total_supply - token_amount) as u64,
            total_tax_collected: (old(state).total_tax_collected + sell_reserve_tax(
                token_amount,
            )) as u64,
            ..*old(state)
        }),
        r is Ok ==> *final(sheet) == (BalanceSheet {
            caller_asset: (old(sheet).caller_asset - token_amount) as u64,
            token_vault: (old(sheet).token_vault + token_amount) as u64,
            reserve_pool: (old(sheet).reserve_pool - sell_net_reserve(token_amount)
                - sell_reserve_tax(token_amount)) as u64,
            caller_reserve: (old(sheet).caller_reserve + sell_net_reserve(token_amount)) as u64,
            fee_collector: (old(sheet).fee_collector + sell_reserve_tax(token_amount)) as u64,
            ..*old(sheet)
        }),
        final(sheet).spec_total() == old(sheet).spec_total(),
{
    if !state.is_initialized {
        return Err(ErrorCode::NotInitialized);
    }
    let tax_amount: u64 = (token_amount * 25) / 1000;
    let net_amount: u64 = token_amount - tax_amount;
    let mut staged: BalanceSheet = *sheet;
    match transfer(&mut staged, Balance::CallerAsset, Balance::TokenVault, token_amount) {
        Ok(()) => {},
        Err(e) => {
            return Err(e);
        },
    }
    let sol_to_give: u64 = net_amount / 1_000_000;
    assert(sol_to_give <= u64::MAX / 1_000_000);
    let sol_tax: u64 = (sol_to_give * 25) / 1000;
    let net_sol: u64 = sol_to_give - sol_tax;
    match transfer(&mut staged, Balance::ReservePool, Balance::CallerReserve, net_sol) {
        Ok(()) => {},
        Err(e) => {
            return Err(e);
        },
    }
    match transfer(&mut staged, Balance::ReservePool, Balance::FeeCollector, sol_tax) {
        Ok(()) => {},
        Err(e) => {
            return Err(e);
        },
    }
    state.total_supply = state.total_supply - token_amount;
    state.total_tax_collected = state.total_tax_collected + sol_tax;
    *sheet = staged;
    Ok(())
}

} // verus!
