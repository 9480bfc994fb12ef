use vstd::prelude::*;

use crate::ids::AccountId;

verus! {

/// The single protocol-wide ledger record. Created once, mutated by every
/// operation, never destroyed. All counters are cumulative unless a draw
/// resets the per-round fields (`jackpot_amount`, `total_entries`).
#[derive(Clone, Copy, PartialEq, Eq, Structural, Debug)]
pub struct StateAccount {
    /// Identity permitted to perform privileged operations; set once.
    pub authority: AccountId,
    /// Guards every other operation; set true at creation, never reset.
    pub is_initialized: bool,
    /// Cumulative asset units issued by the market. Sells subtract the
    /// gross amount sold; burns do not touch this counter.
    pub total_supply: u64,
    /// Cumulative value moved to the non-circulating sink; purely additive.
    pub burned_tokens: u64,
    /// Accumulated deposits of the current lottery round; reset on draw.
    pub jackpot_amount: u64,
    /// Starts at 1; incremented exactly once per draw.
    pub current_round: u64,
    /// Sum of entry-tier weights of the current round; reset on draw.
    pub total_entries: u64,
    /// Cumulative trading fees routed by the rebalancer.
    pub total_lp_fees_collected: u64,
    /// Wall-clock time of the most recent rebalance, host-supplied.
    pub last_lp_sync: i64,
    /// Cumulative liquidity deposits; never reset.
    pub total_liquidity_provided: u64,
    /// Number of liquidity-deposit calls (not unique participants).
    pub lp_participants: u64,
    /// Cumulative tax across buys and sells, in reserve units.
    pub total_tax_collected: u64,
    /// Identity of the asset this ledger governs; immutable after creation.
    pub token_mint: AccountId,
}

/// Creates the ledger record: authority and mint are fixed, the round
/// counter starts at 1, every cumulative counter starts at 0, and the
/// initialization guard is set so that the other operations are admitted.
pub fn initialize(authority: AccountId, token_mint: AccountId) -> (s: StateAccount)
    ensures
        s.authority == authority,
        s.is_initialized,
        s.total_supply == 0,
        s.burned_tokens == 0,
        s.jackpot_amount == 0,
        s.current_round == 1,
        s.total_entries == 0,
        s.total_lp_fees_collected == 0,
        s.last_lp_sync == 0,
        s.total_liquidity_provided == 0,
        s.lp_participants == 0,
        s.total_tax_collected == 0,
        s.token_mint == token_mint,
{
    StateAccount {
        authority,
        is_initialized: true,
        total_supply: 0,
        burned_tokens: 0,
        jackpot_amount: 0,
        current_round: 1,
        total_entries: 0,
        total_lp_fees_collected: 0,
        last_lp_sync: 0,
        total_liquidity_provided: 0,
        lp_participants: 0,
        total_tax_collected: 0,
        token_mint,
    }
}

} // verus!
