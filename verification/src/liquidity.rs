use vstd::prelude::*;

use crate::balances::{can_transfer, transfer, Balance, BalanceSheet};
use crate::errors::ErrorCode;
use crate::ids::AccountId;
use crate::state::StateAccount;

verus! {

/// The pool a rebalance run deposits into: whichever of the two pools
/// holds strictly less at call time; on a tie, the secondary pool.
pub open spec fn rebalance_target(s: BalanceSheet) -> Balance {
    if s.main_pool < s.secondary_pool {
        Balance::MainPool
    } else {
        Balance::SecondaryPool
    }
}

/// Routes collected trading fees to the smaller of the two liquidity
/// pools. Privileged: the caller must equal the stored authority.
///
/// The fees move from the fee collector into the selected pool; the fee
/// total grows by the routed amount and the sync timestamp is overwritten
/// with the host-supplied wall-clock time. On any failure nothing is
/// mutated.
pub fn sync_dual_lp(
    state: &mut StateAccount,
    sheet: &mut BalanceSheet,
    caller: AccountId,
    trading_fees: u64,
    now: i64,
) -> (r: Result<(), ErrorCode>)
    requires
        old(state).is_initialized && caller == old(state).authority && can_transfer(
            *old(sheet),
            Balance::FeeCollector,
            rebalance_target(*old(sheet)),
            trading_fees,
        ) ==> old(state).total_lp_fees_collected + trading_fees <= u64::MAX,
    ensures
        r == Err::<(), ErrorCode>(ErrorCode::NotInitialized) <==> !old(state).is_initialized,
        r == Err::<(), ErrorCode>(ErrorCode::Unauthorized) <==> old(state).is_initialized
            && caller != old(state).authority,
        r == Err::<(), ErrorCode>(ErrorCode::TransferFailure) <==> old(state).is_initialized
            && caller == old(state).authority && !can_transfer(
            *old(sheet),
            Balance::FeeCollector,
            rebalance_target(*old(sheet)),
            trading_fees,
        ),
        r is Ok <==> old(state).is_initialized && caller == old(state).authority && can_transfer(
            *old(sheet),
            Balance::FeeCollector,
            rebalance_target(*old(sheet)),
            trading_fees,
        ),
        r is Err ==> *final(state) == *old(state) && *final(sheet) == *old(sheet),
        r is Ok ==> *final(state) == (StateAccount {
            total_lp_fees_collected: (old(state).total_lp_fees_collected + trading_fees) as u64,
            last_lp_sync: now,
            ..*old(state)
        }),
        r is Ok && old(sheet).main_pool < old(sheet).secondary_pool ==> *final(sheet)
            == (BalanceSheet {
            fee_collector: (old(sheet).fee_collector - trading_fees) as u64,
            main_pool: (old(sheet).main_pool + trading_fees) as u64,
            ..*old(sheet)
        }),
        r is Ok && old(sheet).main_pool >= old(sheet).secondary_pool ==> *final(sheet)
            == (BalanceSheet {
            fee_collector: (old(sheet).fee_collector - trading_fees) as u64,
            secondary_pool: (old(sheet).secondary_pool + trading_fees) as u64,
            ..*old(sheet)
        }),
        final(sheet).spec_total() == old(sheet).spec_total(),
{
    if !state.is_initialized {
        return Err(ErrorCode::NotInitialized);
    }
    if caller != state.authority {
        return Err(ErrorCode::Unauthorized);
    }
    let main_pool_balance: u64 = sheet.balance(Balance::MainPool);
    let secondary_pool_balance: u64 = sheet.balance(Balance::SecondaryPool);
    let smaller_pool: Balance = if main_pool_balance < secondary_pool_balance {
        Balance::MainPool
    } else {
        Balance::SecondaryPool
    };
    let mut staged: BalanceSheet = *sheet;
    match transfer(&mut staged, Balance::FeeCollector, smaller_pool, trading_fees) {
        Ok(()) => {},
        Err(e) => {
            return Err(e);
        },
    }
    state.total_lp_fees_collected = state.total_lp_fees_collected + trading_fees;
    state.last_lp_sync = now;
    *sheet = staged;
    Ok(())
}

/// Accepts a single-sided reserve-currency liquidity deposit.
///
/// Asset-side deposits are out of scope for now: the call is rejected
/// unless `token_amount` is zero, reusing the tier error kind as the
/// guard. The deposit moves from the caller's reserve balance into the
/// liquidity pool; the liquidity total grows by the deposit and the
/// participant counter by one per call, whoever the caller is. On any
/// failure nothing is mutated.
pub fn add_liquidity(
    state: &mut StateAccount,
    sheet: &mut BalanceSheet,
    token_amount: u64,
    sol_amount: u64,
) -> (r: Result<(), ErrorCode>)
    requires
        old(state).is_initialized && token_amount == 0 && can_transfer(
            *old(sheet),
            Balance::CallerReserve,
            Balance::ReservePool,
            sol_amount,
        ) ==> old(state).total_liquidity_provided + sol_amount <= u64::MAX && old(
            state,
        ).lp_participants < u64::MAX,
    ensures
        r == Err::<(), ErrorCode>(ErrorCode::NotInitialized) <==> !old(state).is_initialized,
        r == Err::<(), ErrorCode>(ErrorCode::InvalidEntryTier) <==> old(state).is_initialized
            && token_amount != 0,
        r == Err::<(), ErrorCode>(ErrorCode::TransferFailure) <==> old(state).is_initialized
            && token_amount == 0 && !can_transfer(
            *old(sheet),
            Balance::CallerReserve,
            Balance::ReservePool,
            sol_amount,
        ),
        r is Ok <==> old(state).is_initialized && token_amount == 0 && can_transfer(
            *old(sheet),
            Balance::CallerReserve,
            Balance::ReservePool,
            sol_amount,
        ),
        r is Err ==> *final(state) == *old(state) && *final(sheet) == *old(sheet),
        r is Ok ==> *final(state) == (StateAccount {
            total_liquidity_provided: (old(state).total_liquidity_provided + sol_amount) as u64,
            lp_participants: (old(state).lp_participants + 1) as u64,
            ..*old(state)
        }),
        r is Ok ==> *final(sheet) == (BalanceSheet {
            caller_reserve: (old(sheet).caller_reserve - sol_amount) as u64,
            reserve_pool: (old(sheet).reserve_pool + sol_amount) as u64,
            ..*old(sheet)
        }),
        final(sheet).spec_total() == old(sheet).spec_total(),
{
    if !state.is_initialized {
        return Err(ErrorCode::NotInitialized);
    }
    if token_amount != 0 {
        return Err(ErrorCode::InvalidEntryTier);
    }
    let mut staged: BalanceSheet = *sheet;
    match transfer(&mut staged, Balance::CallerReserve, Balance::ReservePool, sol_amount) {
        Ok(()) => {},
        Err(e) => {
            return Err(e);
        },
    }
    state.total_liquidity_provided = state.total_liquidity_provided + sol_amount;
    state.lp_participants = state.lp_participants + 1;
    *sheet = staged;
    Ok(())
}

} // verus!
