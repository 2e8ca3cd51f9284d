//! An on-ledger escrow/exchange engine.
//!
//! Parties lock an asset into a custodial vault controlled by a
//! deterministically derived, order-specific authority, and later either
//! reclaim the deposit (cancel) or swap it atomically against a
//! counterparty's asset (exchange). Four order variants share one
//! settlement protocol: token-for-token, token-for-native-currency in
//! both directions, and asset-for-native-currency with a compensation
//! payment. The entry points below forward to the variant engines; each
//! operation either performs every leg of its settlement or leaves every
//! account untouched.

use vstd::prelude::*;

pub mod authority;
pub mod errors;
pub mod laws;
pub mod ledger;
pub mod lifecycle;
pub mod market_ns;
pub mod market_st;
pub mod market_ts;
pub mod market_tt;
pub mod settlement;
pub mod state_nt;

pub use errors::Wen3ExError;

verus! {

/// The (empty) account set of the no-op entry point.
#[derive(Clone, Copy, Debug, PartialEq, Eq, Structural)]
pub struct Initialize {}

/// The no-op entry point: nothing to set up, always succeeds.
pub fn initialize(_ctx: Initialize) -> (r: Result<(), Wen3ExError>)
    ensures
        r is Ok,
{
    Ok(())
}

/// Open a token-for-token order. Forwards to the token-for-token engine.
pub fn market_tt_create(
    ctx: &mut market_tt::MarketTtCreate,
    deposit_amount: u64,
    receive_amount: u64,
    deposit_token: u64,
    receive_token: u64,
    now_ts: i64,
) -> (r: Result<(), Wen3ExError>)
    requires
        market_tt::create_wiring(*old(ctx), deposit_token, receive_token),
    ensures
        match r {
            Ok(()) => market_tt::create_admitted(*old(ctx), deposit_amount, receive_amount)
                && market_tt::create_effect(
                *old(ctx),
                *final(ctx),
                deposit_amount,
                receive_amount,
                deposit_token,
                receive_token,
                now_ts,
            ),
            Err(e) => *final(ctx) == *old(ctx)
                && !market_tt::create_admitted(*old(ctx), deposit_amount, receive_amount)
                && e == market_tt::create_refusal(*old(ctx), deposit_amount, receive_amount),
        },
{
    market_tt::create(ctx, deposit_amount, receive_amount, deposit_token, receive_token, now_ts)
}

/// Cancel an open token-for-token order.
pub fn market_tt_cancel(ctx: &mut market_tt::MarketTtCancel) -> (r: Result<(), Wen3ExError>)
    requires
        market_tt::cancel_wiring(*old(ctx)),
    ensures
        match r {
            Ok(()) => market_tt::cancel_admitted(*old(ctx))
                && market_tt::cancel_effect(*old(ctx), *final(ctx)),
            Err(e) => *final(ctx) == *old(ctx) && !market_tt::cancel_admitted(*old(ctx))
                && e == market_tt::cancel_refusal(*old(ctx)),
        },
{
    market_tt::cancel(ctx)
}

/// Exchange an open token-for-token order.
pub fn market_tt_exchange(ctx: &mut market_tt::MarketTtExchange) -> (r: Result<(), Wen3ExError>)
    requires
        market_tt::exchange_wiring(*old(ctx)),
    ensures
        match r {
            Ok(()) => market_tt::exchange_admitted(*old(ctx))
                && market_tt::exchange_effect(*old(ctx), *final(ctx)),
            Err(e) => *final(ctx) == *old(ctx) && !market_tt::exchange_admitted(*old(ctx))
                && e == market_tt::exchange_refusal(*old(ctx)),
        },
{
    market_tt::exchange(ctx)
}

/// Open a token-for-native-currency order in either direction.
pub fn market_ts_create(
    ctx: &mut market_ts::MarketTsCreate,
    vault_account_bump: u8,
    token: u64,
    token_amount: u64,
    sol_amount: u64,
    ex_type: market_ts::ExType,
    now_ts: i64,
) -> (r: Result<(), Wen3ExError>)
    requires
        market_ts::create_wiring(*old(ctx), token),
    ensures
        match r {
            Ok(()) => market_ts::create_admitted(*old(ctx), token_amount, sol_amount, ex_type)
                && market_ts::create_effect(
                *old(ctx),
                *final(ctx),
                token,
                token_amount,
                sol_amount,
                ex_type,
                now_ts,
            ),
            Err(e) => *final(ctx) == *old(ctx)
                && !market_ts::create_admitted(*old(ctx), token_amount, sol_amount, ex_type)
                && e == market_ts::create_refusal(*old(ctx), token_amount, sol_amount, ex_type),
        },
{
    market_ts::create(ctx, vault_account_bump, token, token_amount, sol_amount, ex_type, now_ts)
}

/// Cancel an open token-for-native-currency order.
pub fn market_ts_cancel(ctx: &mut market_ts::MarketTsCancel) -> (r: Result<(), Wen3ExError>)
    requires
        market_ts::cancel_wiring(*old(ctx)),
    ensures
        match r {
            Ok(()) => market_ts::cancel_admitted(*old(ctx))
                && market_ts::cancel_effect(*old(ctx), *final(ctx)),
            Err(e) => *final(ctx) == *old(ctx) && !market_ts::cancel_admitted(*old(ctx))
                && e == market_ts::cancel_refusal(*old(ctx)),
        },
{
    market_ts::cancel(ctx)
}

/// Exchange an open token-for-native-currency order in its recorded
/// direction.
pub fn market_ts_exchange(ctx: &mut market_ts::MarketTsExchange) -> (r: Result<(), Wen3ExError>)
    requires
        market_ts::exchange_wiring(*old(ctx)),
    ensures
        match r {
            Ok(()) => market_ts::exchange_admitted(*old(ctx))
                && market_ts::exchange_effect(*old(ctx), *final(ctx)),
            Err(e) => *final(ctx) == *old(ctx) && !market_ts::exchange_admitted(*old(ctx))
                && e == market_ts::exchange_refusal(*old(ctx)),
        },
{
    market_ts::exchange(ctx)
}

/// Open a native-currency-for-token order.
pub fn market_st_create(
    ctx: &mut market_st::MarketStCreate,
    token_amount: u64,
    sol_amount: u64,
    now_ts: i64,
) -> (r: Result<(), Wen3ExError>)
    requires
        market_st::create_wiring(*old(ctx)),
    ensures
        match r {
            Ok(()) => market_st::create_admitted(*old(ctx), token_amount, sol_amount)
                && market_st::create_effect(*old(ctx), *final(ctx), token_amount, sol_amount, now_ts),
            Err(e) => *final(ctx) == *old(ctx)
                && !market_st::create_admitted(*old(ctx), token_amount, sol_amount)
                && e == market_st::create_refusal(*old(ctx), token_amount, sol_amount),
        },
{
    market_st::create(ctx, token_amount, sol_amount, now_ts)
}

/// Cancel an open native-currency-for-token order.
pub fn market_st_cancel(ctx: &mut market_st::MarketStCancel) -> (r: Result<(), Wen3ExError>)
    requires
        market_st::cancel_wiring(*old(ctx)),
    ensures
        match r {
            Ok(()) => market_st::cancel_admitted(*old(ctx))
                && market_st::cancel_effect(*old(ctx), *final(ctx)),
            Err(e) => *final(ctx) == *old(ctx) && !market_st::cancel_admitted(*old(ctx))
                && e == market_st::cancel_refusal(*old(ctx)),
        },
{
    market_st::cancel(ctx)
}

/// Exchange an open native-currency-for-token order.
pub fn market_st_exchange(ctx: &mut market_st::MarketStExchange) -> (r: Result<(), Wen3ExError>)
    requires
        market_st::exchange_wiring(*old(ctx)),
    ensures
        match r {
            Ok(()) => market_st::exchange_admitted(*old(ctx))
                && market_st::exchange_effect(*old(ctx), *final(ctx)),
            Err(e) => *final(ctx) == *old(ctx) && !market_st::exchange_admitted(*old(ctx))
                && e == market_st::exchange_refusal(*old(ctx)),
        },
{
    market_st::exchange(ctx)
}

/// Open an asset-for-native-currency order.
pub fn market_nft_to_sol_create(
    ctx: &mut market_ns::MarketNftToSolCreate,
    nft_amount: u64,
    sol_amount: u64,
    now_ts: i64,
) -> (r: Result<(), Wen3ExError>)
    requires
        market_ns::create_wiring(*old(ctx)),
    ensures
        match r {
            Ok(()) => market_ns::create_admitted(*old(ctx), nft_amount, sol_amount)
                && market_ns::create_effect(*old(ctx), *final(ctx), nft_amount, sol_amount, now_ts),
            Err(e) => *final(ctx) == *old(ctx)
                && !market_ns::create_admitted(*old(ctx), nft_amount, sol_amount)
                && e == market_ns::create_refusal(*old(ctx), nft_amount, sol_amount),
        },
{
    market_ns::create(ctx, nft_amount, sol_amount, now_ts)
}

/// Cancel an open asset-for-native-currency order.
pub fn market_nft_to_sol_cancel(ctx: &mut market_ns::MarketNftToSolCancel) -> (r: Result<(), Wen3ExError>)
    requires
        market_ns::cancel_wiring(*old(ctx)),
    ensures
        match r {
            Ok(()) => market_ns::cancel_admitted(*old(ctx))
                && market_ns::cancel_effect(*old(ctx), *final(ctx)),
            Err(e) => *final(ctx) == *old(ctx) && !market_ns::cancel_admitted(*old(ctx))
                && e == market_ns::cancel_refusal(*old(ctx)),
        },
{
    market_ns::cancel(ctx)
}

/// Exchange an open asset-for-native-currency order.
pub fn market_nft_to_sol_exchange(ctx: &mut market_ns::MarketNftToSolExchange) -> (r: Result<(), Wen3ExError>)
    requires
        market_ns::exchange_wiring(*old(ctx)),
    ensures
        match r {
            Ok(()) => market_ns::exchange_admitted(*old(ctx))
                && market_ns::exchange_effect(*old(ctx), *final(ctx)),
            Err(e) => *final(ctx) == *old(ctx) && !market_ns::exchange_admitted(*old(ctx))
                && e == market_ns::exchange_refusal(*old(ctx)),
        },
{
    market_ns::exchange(ctx)
}

} // verus!
