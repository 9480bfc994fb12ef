use vstd::prelude::*;

use crate::errors::ErrorCode;

verus! {

/// The balances one operation touches, by role. The host resolves each role
/// to a concrete account before the operation runs; within the operation a
/// role names exactly one balance.
#[derive(Clone, Copy, PartialEq, Eq, Structural, Debug)]
pub enum Balance {
    /// The caller's reserve-currency balance.
    CallerReserve,
    /// The caller's asset balance.
    CallerAsset,
    /// The reserve-side liquidity pool.
    ReservePool,
    /// The balance that collects trading tax.
    FeeCollector,
    /// The vault the market issues assets from.
    TokenVault,
    /// The balance that accumulates lottery deposits.
    LotteryPool,
    /// The non-circulating sink fed by burns.
    BurnSink,
    /// The main liquidity pool of the rebalancer.
    MainPool,
    /// The secondary liquidity pool of the rebalancer.
    SecondaryPool,
    /// The asset balance of the round's winning participant.
    WinnerAsset,
}

/// One atomic value movement between two balances, part of a larger
/// all-or-nothing operation.
#[derive(Clone, Copy, PartialEq, Eq, Structural, Debug)]
pub struct TransferLeg {
    pub source: Balance,
    pub dest: Balance,
    pub amount: u64,
}

/// All balances an operation can touch, each a non-negative amount of
/// reserve or asset units.
#[derive(Clone, Copy, PartialEq, Eq, Structural, Debug)]
pub struct BalanceSheet {
    pub caller_reserve: u64,
    pub caller_asset: u64,
    pub reserve_pool: u64,
    pub fee_collector: u64,
    pub token_vault: u64,
    pub lottery_pool: u64,
    pub burn_sink: u64,
    pub main_pool: u64,
    pub secondary_pool: u64,
    pub winner_asset: u64,
}

impl BalanceSheet {
    /// The amount a role currently holds.
    pub open spec fn spec_balance(self, b: Balance) -> u64 {
        match b {
            Balance::CallerReserve => self.caller_reserve,
            Balance::CallerAsset => self.caller_asset,
            Balance::ReservePool => self.reserve_pool,
            Balance::FeeCollector => self.fee_collector,
            Balance::TokenVault => self.token_vault,
            Balance::LotteryPool => self.lottery_pool,
            Balance::BurnSink => self.burn_sink,
            Balance::MainPool => self.main_pool,
            Balance::SecondaryPool => self.secondary_pool,
            Balance::WinnerAsset => self.winner_asset,
        }
    }

    /// The sheet with one role set to a new amount.
    pub open spec fn spec_with(self, b: Balance, v: u64) -> BalanceSheet {
        match b {
            Balance::CallerReserve => BalanceSheet { caller_reserve: v, ..self },
            Balance::CallerAsset => BalanceSheet { caller_asset: v, ..self },
            Balance::ReservePool => BalanceSheet { reserve_pool: v, ..self },
            Balance::FeeCollector => BalanceSheet { fee_collector: v, ..self },
            Balance::TokenVault => BalanceSheet { token_vault: v, ..self },
            Balance::LotteryPool => BalanceSheet { lottery_pool: v, ..self },
            Balance::BurnSink => BalanceSheet { burn_sink: v, ..self },
            Balance::MainPool => BalanceSheet { main_pool: v, ..self },
            Balance::SecondaryPool => BalanceSheet { secondary_pool: v, ..self },
            Balance::WinnerAsset => BalanceSheet { winner_asset: v, ..self },
        }
    }

    /// The sum of every balance on the sheet. Transfers preserve it.
    pub open spec fn spec_total(self) -> int {
        self.caller_reserve + self.caller_asset + self.reserve_pool + self.fee_collector
            + self.token_vault + self.lottery_pool + self.burn_sink + self.main_pool
            + self.secondary_pool + self.winner_asset
    }

    /// Reads the amount a role currently holds.
    pub fn balance(&self, b: Balance) -> (r: u64)
        ensures
            r == self.spec_balance(b),
    {
        match b {
            Balance::CallerReserve => self.caller_reserve,
            Balance::CallerAsset => self.caller_asset,
            Balance::ReservePool => self.reserve_pool,
            Balance::FeeCollector => self.fee_collector,
            Balance::TokenVault => self.token_vault,
            Balance::LotteryPool => self.lottery_pool,
            Balance::BurnSink => self.burn_sink,
            Balance::MainPool => self.main_pool,
            Balance::SecondaryPool => self.secondary_pool,
            Balance::WinnerAsset => self.winner_asset,
        }
    }

    /// Sets one role to a new amount, leaving every other role as it was.
    fn set(&mut self, b: Balance, v: u64)
        ensures
            *final(self) == old(self).spec_with(b, v),
    {
        match b {
            Balance::CallerReserve => self.caller_reserve = v,
            Balance::CallerAsset => self.caller_asset = v,
            Balance::ReservePool => self.reserve_pool = v,
            Balance::FeeCollector => self.fee_collector = v,
            Balance::TokenVault => self.token_vault = v,
            Balance::LotteryPool => self.lottery_pool = v,
            Balance::BurnSink => self.burn_sink = v,
            Balance::MainPool => self.main_pool = v,
            Balance::SecondaryPool => self.secondary_pool = v,
            Balance::WinnerAsset => self.winner_asset = v,
        }
    }
}

/// Whether a leg can be applied: the source holds the amount and the
/// destination can absorb it. A transfer of a role onto itself only needs
/// the source to hold the amount.
pub open spec fn can_transfer(s: BalanceSheet, source: Balance, dest: Balance, amount: u64) -> bool {
    amount <= s.spec_balance(source)
        && (source == dest || s.spec_balance(dest) + amount <= u64::MAX)
}

/// The sheet after an applicable leg: the amount leaves the source, then
/// reaches the destination.
pub open spec fn after_transfer(s: BalanceSheet, source: Balance, dest: Balance, amount: u64) -> BalanceSheet {
    let drained = s.spec_with(source, (s.spec_balance(source) - amount) as u64);
    drained.spec_with(dest, (drained.spec_balance(dest) + amount) as u64)
}

/// The outcome of one leg: the new sheet where the leg applies, nothing
/// where it does not.
pub open spec fn settle_one(s: BalanceSheet, leg: TransferLeg) -> Option<BalanceSheet> {
    if can_transfer(s, leg.source, leg.dest, leg.amount) {
        Some(after_transfer(s, leg.source, leg.dest, leg.amount))
    } else {
        None
    }
}

/// The outcome of a list of legs applied in order, all or nothing.
pub open spec fn settle_seq(s: BalanceSheet, legs: Seq<TransferLeg>) -> Option<BalanceSheet>
    decreases legs.len(),
{
    if legs.len() == 0 {
        Some(s)
    } else {
        match settle_one(s, legs[0]) {
            Some(next) => settle_seq(next, legs.subrange(1, legs.len() as int)),
            None => None,
        }
    }
}

/// Setting one role changes that role's balance, leaves every other
/// role's balance alone, and shifts the total by the difference.
proof fn lemma_with_balances(s: BalanceSheet, b: Balance, v: u64)
    ensures
        s.spec_with(b, v).spec_balance(b) == v,
        forall|d: Balance| d != b ==> #[trigger] s.spec_with(b, v).spec_balance(d)
            == s.spec_balance(d),
        s.spec_with(b, v).spec_total() == s.spec_total() - s.spec_balance(b) + v,
{
}

/// The atomic value-transfer primitive: moves `amount` from `source` to
/// `dest` and succeeds, or leaves the sheet untouched and reports a
/// transfer failure. The total held across all balances never changes.
pub fn transfer(sheet: &mut BalanceSheet, source: Balance, dest: Balance, amount: u64) -> (r: Result<(), ErrorCode>)
    ensures
        r is Ok <==> can_transfer(*old(sheet), source, dest, amount),
        r is Ok ==> *final(sheet) == after_transfer(*old(sheet), source, dest, amount),
        r is Err ==> r == Err::<(), ErrorCode>(ErrorCode::TransferFailure) && *final(sheet) == *old(sheet),
        final(sheet).spec_total() == old(sheet).spec_total(),
{
    let from_balance: u64 = sheet.balance(source);
    if from_balance < amount {
        return Err(ErrorCode::TransferFailure);
    }
    let ghost start = *sheet;
    let mut staged: BalanceSheet = *sheet;
    staged.set(source, from_balance - amount);
    proof {
        lemma_with_balances(start, source, (from_balance - amount) as u64);
    }
    let to_balance: u64 = staged.balance(dest);
    if to_balance > u64::MAX - amount {
        return Err(ErrorCode::TransferFailure);
    }
    let ghost drained = staged;
    staged.set(dest, to_balance + amount);
    proof {
        lemma_with_balances(drained, dest, (to_balance + amount) as u64);
    }
    *sheet = staged;
    Ok(())
}

/// Applies a staged list of transfer legs as one transactional unit of
/// work: either every leg commits, in order, or the sheet is left exactly
/// as it was and a transfer failure is reported. The total held across all
/// balances never changes.
pub fn apply_legs(sheet: &mut BalanceSheet, legs: &Vec<TransferLeg>) -> (r: Result<(), ErrorCode>)
    ensures
        r is Ok <==> settle_seq(*old(sheet), legs@) is Some,
        r is Ok ==> Some(*final(sheet)) == settle_seq(*old(sheet), legs@),
        r is Err ==> r == Err::<(), ErrorCode>(ErrorCode::TransferFailure) && *final(sheet)
            == *old(sheet),
        final(sheet).spec_total() == old(sheet).spec_total(),
{
    let mut staged: BalanceSheet = *sheet;
    let mut i: usize = 0;
    proof {
        assert(legs@.skip(0) =~= legs@);
    }
    while i < legs.len()
        invariant
            i <= legs.len(),
            settle_seq(*old(sheet), legs@) == settle_seq(staged, legs@.skip(i as int)),
            staged.spec_total() == old(sheet).spec_total(),
            *sheet == *old(sheet),
        decreases legs.len() - i,
    {
        let leg: TransferLeg = legs[i];
        let ghost rest = legs@.skip(i as int);
        let ghost before = staged;
        proof {
            assert(rest[0] == legs@[i as int]);
            assert(rest.subrange(1, rest.len() as int) =~= legs@.skip(i as int + 1));
        }
        match transfer(&mut staged, leg.source, leg.dest, leg.amount) {
            Ok(()) => {
                proof {
                    assert(settle_seq(before, rest) == settle_seq(
                        staged,
                        rest.subrange(1, rest.len() as int),
                    ));
                }
            },
            Err(e) => {
                proof {
                    assert(settle_seq(before, rest) is None);
                }
                return Err(e);
            },
        }
        i = i + 1;
    }
    proof {
        assert(legs@.skip(legs.len() as int) =~= Seq::<TransferLeg>::empty());
        assert(settle_seq(staged, Seq::<TransferLeg>::empty()) == Some(staged));
    }
    *sheet = staged;
    Ok(())
}

} // verus!
