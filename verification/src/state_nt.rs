//! The record of an asset-for-token escrow: a non-fungible holding
//! offered against a fungible asset. Only the record layout is defined
//! here; no market operates on it yet.

use vstd::prelude::*;

verus! {

/// The order record of an asset-for-token escrow.
#[derive(Clone, Copy, Debug, PartialEq, Eq, Structural)]
pub struct MarketNftToTokenAccount {
    pub version: u32,
    pub creator: u64,
    pub nft_token: u64,
    pub nft_amount: u64,
    pub token: u64,
    pub amount: u64,
    pub create_time: i64,
}

impl MarketNftToTokenAccount {
    /// The record invariant: both sides of the proposed swap are strictly
    /// positive.
    pub open spec fn wf(self) -> bool {
        0 < self.nft_amount && 0 < self.amount
    }
}

} // verus!
