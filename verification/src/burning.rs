use vstd::prelude::*;

use crate::balances::{can_transfer, transfer, Balance, BalanceSheet};
use crate::errors::ErrorCode;
use crate::state::StateAccount;

verus! {

/// Moves assets into the non-circulating burn sink and records them.
///
/// The burn registry is purely additive: `burned_tokens` grows by the
/// amount while `total_supply` is deliberately untouched, so burns are
/// recorded without reducing the circulating-supply counter. On any
/// failure nothing is mutated.
pub fn burn_tokens(state: &mut StateAccount, sheet: &mut BalanceSheet, amount: u64) -> (r: Result<
    (),
    ErrorCode,
>)
    requires
        old(state).is_initialized && can_transfer(
            *old(sheet),
            Balance::CallerAsset,
            Balance::BurnSink,
            amount,
        ) ==> old(state).burned_tokens + amount <= u64::MAX,
    ensures
        r == Err::<(), ErrorCode>(ErrorCode::NotInitialized) <==> !old(state).is_initialized,
        r == Err::<(), ErrorCode>(ErrorCode::TransferFailure) <==> old(state).is_initialized
            && !can_transfer(*old(sheet), Balance::CallerAsset, Balance::BurnSink, amount),
        r is Ok <==> old(state).is_initialized && can_transfer(
            *old(sheet),
            Balance::CallerAsset,
            Balance::BurnSink,
            amount,
        ),
        r is Err ==> *final(state) == *old(state) && *final(sheet) == *old(sheet),
        r is Ok ==> *final(state) == (StateAccount {
            burned_tokens: (old(state).burned_tokens + amount) as u64,
            ..*old(state)
        }),
        r is Ok ==> final(state).total_supply == old(state).total_supply,
        r is Ok ==> *final(sheet) == (BalanceSheet {
            caller_asset: (old(sheet).caller_asset - amount) as u64,
            burn_sink: (old(sheet).burn_sink + amount) as u64,
            ..*old(sheet)
        }),
        final(sheet).spec_total() == old(sheet).spec_total(),
{
    if !state.is_initialized {
        return Err(ErrorCode::NotInitialized);
    }
    let mut staged: BalanceSheet = *sheet;
    match transfer(&mut staged, Balance::CallerAsset, Balance::BurnSink, amount) {
        Ok(()) => {},
        Err(e) => {
            return Err(e);
        },
    }
    state.burned_tokens = state.burned_tokens + amount;
    *sheet = staged;
    Ok(())
}

} // verus!
