use vstd::prelude::*;

use crate::balances::{can_transfer, transfer, Balance, BalanceSheet};
use crate::errors::ErrorCode;
use crate::ids::AccountId;
use crate::state::StateAccount;
use crate::users::{UserDirectory, UserState};

verus! {

/// The accepted entry tiers. Each tier is also the entry weight it adds.
pub open spec fn is_valid_tier(tier: u8) -> bool {
    tier == 1 || tier == 2 || tier == 4 || tier == 8
}

/// The fixed deposit a tier maps to, in asset units with six implied
/// decimal places. Tiers outside the accepted set map to nothing and are
/// rejected before any deposit is computed.
pub open spec fn tier_deposit(tier: u8) -> u64 {
    if tier == 1 {
        20_000_000
    } else if tier == 2 {
        100_000_000
    } else if tier == 4 {
        500_000_000
    } else if tier == 8 {
        1_000_000_000
    } else {
        0
    }
}

/// Enters the caller into the current lottery round.
///
/// The tier must be one of {1, 2, 4, 8}; the mapped deposit moves from the
/// caller's asset balance to the lottery pool; a record is created for the
/// caller, which fails if one already exists, so a participant can enter
/// successfully at most once for the lifetime of the ledger. On success the
/// round gains `entry_tier` entries and the jackpot gains the deposit; on
/// any failure nothing is mutated.
pub fn enter_lottery(
    state: &mut StateAccount,
    directory: &mut UserDirectory,
    sheet: &mut BalanceSheet,
    user: AccountId,
    entry_tier: u8,
) -> (r: Result<(), ErrorCode>)
    requires
        old(directory).wf(),
        old(state).is_initialized && is_valid_tier(entry_tier) ==> old(state).total_entries
            + entry_tier <= u64::MAX && old(state).jackpot_amount + tier_deposit(entry_tier)
            <= u64::MAX,
    ensures
        final(directory).wf(),
        r == Err::<(), ErrorCode>(ErrorCode::NotInitialized) <==> !old(state).is_initialized,
        r == Err::<(), ErrorCode>(ErrorCode::InvalidEntryTier) <==> old(state).is_initialized
            && !is_valid_tier(entry_tier),
        r == Err::<(), ErrorCode>(ErrorCode::TransferFailure) <==> old(state).is_initialized
            && is_valid_tier(entry_tier) && !can_transfer(
            *old(sheet),
            Balance::CallerAsset,
            Balance::LotteryPool,
            tier_deposit(entry_tier),
        ),
        r == Err::<(), ErrorCode>(ErrorCode::DuplicateRecord) <==> old(state).is_initialized
            && is_valid_tier(entry_tier) && can_transfer(
            *old(sheet),
            Balance::CallerAsset,
            Balance::LotteryPool,
            tier_deposit(entry_tier),
        ) && old(directory).has_record(user),
        r is Ok <==> old(state).is_initialized && is_valid_tier(entry_tier) && can_transfer(
            *old(sheet),
            Balance::CallerAsset,
            Balance::LotteryPool,
            tier_deposit(entry_tier),
        ) && !old(directory).has_record(user),
        r is Err ==> *final(state) == *old(state) && final(directory).records@ == old(
            directory,
        ).records@ && *final(sheet) == *old(sheet),
        r is Ok ==> *final(state) == (StateAccount {
            total_entries: (old(state).total_entries + entry_tier) as u64,
            jackpot_amount: (old(state).jackpot_amount + tier_deposit(entry_tier)) as u64,
            ..*old(state)
        }),
        r is Ok ==> final(directory).records@ == old(directory).records@.push(
            (UserState {
                user,
                entries: entry_tier as u64,
                total_contributed: tier_deposit(entry_tier),
            }),
        ) && final(directory).has_record(user),
        r is Ok ==> *final(sheet) == (BalanceSheet {
            caller_asset: (old(sheet).caller_asset - tier_deposit(entry_tier)) as u64,
            lottery_pool: (old(sheet).lottery_pool + tier_deposit(entry_tier)) as u64,
            ..*old(sheet)
        }),
        final(sheet).spec_total() == old(sheet).spec_total(),
{
    if !state.is_initialized {
        return Err(ErrorCode::NotInitialized);
    }
    let amount: u64 = match entry_tier {
        1 => 20_000_000,
        2 => 100_000_000,
        4 => 500_000_000,
        8 => 1_000_000_000,
        _ => {
            return Err(ErrorCode::InvalidEntryTier);
        },
    };
    let mut staged: BalanceSheet = *sheet;
    match transfer(&mut staged, Balance::CallerAsset, Balance::LotteryPool, amount) {
        Ok(()) => {},
        Err(e) => {
            return Err(e);
        },
    }
    if directory.find_user(user).is_some() {
        return Err(ErrorCode::DuplicateRecord);
    }
    directory.records.push(
        UserState { user, entries: entry_tier as u64, total_contributed: amount },
    );
    state.total_entries = state.total_entries + entry_tier as u64;
    state.jackpot_amount = state.jackpot_amount + amount;
    *sheet = staged;
    proof {
        assert(directory.records@[directory.records@.len() - 1].user == user);
    }
    Ok(())
}

/// A participant can enter successfully at most once: a successful entry
/// leaves the directory extended with a record owned by that participant,
/// and any directory holding such a record sends the participant's next
/// entry attempt, whatever the tier, into the duplicate branch of
/// `enter_lottery`, whose success condition demands the record's absence.
pub proof fn lemma_second_entry_is_duplicate(
    before: UserDirectory,
    after_entry: UserDirectory,
    user: AccountId,
    rec: UserState,
)
    requires
        rec.user == user,
        after_entry.records@ == before.records@.push(rec),
    ensures
        after_entry.has_record(user),
{
    assert(after_entry.records@[after_entry.records@.len() - 1].user == user);
}

/// Pays out the jackpot and resets the round. Privileged: the caller must
/// equal the stored authority.
///
/// The winner index is the deterministic placeholder
/// `(total_entries / 2) % total_entries` — reproduced exactly as observable
/// behavior, and not a fairness-guaranteeing random selection. A draw with
/// zero entries is rejected before that computation is reached. The full
/// jackpot moves from the lottery pool to the winning participant's
/// balance, the round counter advances by one, and the per-round fields
/// reset. User records are not touched by a draw: their lifetime entries
/// and contributions persist across rounds.
pub fn draw_winner(state: &mut StateAccount, sheet: &mut BalanceSheet, caller: AccountId) -> (r:
    Result<u64, ErrorCode>)
    requires
        old(state).is_initialized && caller == old(state).authority && old(state).total_entries
            > 0 && can_transfer(
            *old(sheet),
            Balance::LotteryPool,
            Balance::WinnerAsset,
            old(state).jackpot_amount,
        ) ==> old(state).current_round < u64::MAX,
    ensures
        r == Err::<u64, ErrorCode>(ErrorCode::NotInitialized) <==> !old(state).is_initialized,
        r == Err::<u64, ErrorCode>(ErrorCode::Unauthorized) <==> old(state).is_initialized
            && caller != old(state).authority,
        r == Err::<u64, ErrorCode>(ErrorCode::DivisionByZero) <==> old(state).is_initialized
            && caller == old(state).authority && old(state).total_entries == 0,
        r == Err::<u64, ErrorCode>(ErrorCode::TransferFailure) <==> old(state).is_initialized
            && caller == old(state).authority && old(state).total_entries > 0 && !can_transfer(
            *old(sheet),
            Balance::LotteryPool,
            Balance::WinnerAsset,
            old(state).jackpot_amount,
        ),
        r is Ok <==> old(state).is_initialized && caller == old(state).authority && old(
            state,
        ).total_entries > 0 && can_transfer(
            *old(sheet),
            Balance::LotteryPool,
            Balance::WinnerAsset,
            old(state).jackpot_amount,
        ),
        r is Err ==> *final(state) == *old(state) && *final(sheet) == *old(sheet),
        r is Ok ==> r->Ok_0 == (old(state).total_entries / 2) % old(state).total_entries,
        r is Ok ==> *final(state) == (StateAccount {
            current_round: (old(state).current_round + 1) as u64,
            jackpot_amount: 0,
            total_entries: 0,
            ..*old(state)
        }),
        r is Ok ==> *final(sheet) == (BalanceSheet {
            lottery_pool: (old(sheet).lottery_pool - old(state).jackpot_amount) as u64,
            winner_asset: (old(sheet).winner_asset + old(state).jackpot_amount) as u64,
            ..*old(sheet)
        }),
        final(sheet).spec_total() == old(sheet).spec_total(),
{
    if !state.is_initialized {
        return Err(ErrorCode::NotInitialized);
    }
    if caller != state.authority {
        return Err(ErrorCode::Unauthorized);
    }
    if state.total_entries == 0 {
        return Err(ErrorCode::DivisionByZero);
    }
    let winner_index: u64 = (state.total_entries / 2) % state.total_entries;
    let mut staged: BalanceSheet = *sheet;
    match transfer(&mut staged, Balance::LotteryPool, Balance::WinnerAsset, state.jackpot_amount) {
        Ok(()) => {},
        Err(e) => {
            return Err(e);
        },
    }
    state.current_round = state.current_round + 1;
    state.jackpot_amount = 0;
    state.total_entries = 0;
    *sheet = staged;
    Ok(winner_index)
}

} // verus!
