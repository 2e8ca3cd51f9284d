//! The slice of ledger state that the exchange protocol reads and writes.
//!
//! Every operation of the protocol touches only the accounts that are
//! handed to it: token accounts (a balance of one fungible asset, under a
//! single control authority), and party accounts (an identity with a
//! native-currency balance). Addresses and asset identifiers are plain
//! handles; the ledger runtime that resolves them is an external
//! collaborator.

use vstd::prelude::*;
use crate::authority::DerivedAuthority;

verus! {

/// The control authority of a token account: either an ordinary party,
/// identified by its address, or the non-human authority derived from an
/// order's identity.
#[derive(Clone, Copy, Debug, PartialEq, Eq, Structural)]
pub enum Authority {
    Party { key: u64 },
    Derived { auth: DerivedAuthority },
}

/// A holding of one fungible asset. `lamports` is the native-currency
/// balance carried by the account itself (storage overhead, and, for
/// currency-funded vaults, the escrowed deposit).
#[derive(Clone, Copy, Debug, PartialEq, Eq, Structural)]
pub struct TokenAccount {
    pub owner: Authority,
    pub mint: u64,
    pub amount: u64,
    pub lamports: u64,
}

/// A party on the ledger: an address and its native-currency balance.
#[derive(Clone, Copy, Debug, PartialEq, Eq, Structural)]
pub struct PartyAccount {
    pub key: u64,
    pub lamports: u64,
}

} // verus!
