//! A token economic engine combining a flat-tax bonding-curve market, a
//! tiered lottery with periodic draws, a dual-pool fee rebalancer and a burn
//! registry, all operating on one shared ledger record.
//!
//! Every operation is a single all-or-nothing transaction: it validates its
//! inputs, moves value between named balances through an atomic transfer
//! model, and commits its ledger mutations only if every transfer leg
//! succeeds. A failed operation returns an error kind and leaves the ledger,
//! the user directory and every balance exactly as they were.

use vstd::prelude::*;

pub mod balances;
pub mod burning;
pub mod errors;
pub mod ids;
pub mod liquidity;
pub mod lottery;
pub mod market;
pub mod state;
pub mod users;
