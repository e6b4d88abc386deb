//! The two kinds of record the ledger keeps.

use vstd::prelude::*;
use crate::identity::Identity;

verus! {

/// The supply record: who may mint, and how much has been issued so far.
/// There is one per ledger.
#[derive(Clone, Copy, Debug, PartialEq, Eq)]
pub struct CoinSettings {
    pub authority: Identity,
    pub total_supply: u64,
}

/// A holder account: who may spend from it, and what it holds.
#[derive(Clone, Copy, Debug, PartialEq, Eq)]
pub struct CoinAccount {
    pub authority: Identity,
    pub balance: u64,
}

} // verus!
