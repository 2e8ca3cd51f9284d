//! The protocol's global laws, proved from the operation contracts.
//!
//! Conservation: a successful exchange moves value between the creator,
//! the taker and the vault without creating or destroying any. Round
//! trip: a create followed by a cancel hands the whole deposit back.
//! Authority exclusivity: nobody but the recorded creator can cancel.
//! Underflow abort: a compensation differential that cannot be covered
//! refuses the exchange outright. Single settlement lives with the order
//! state machine in `lifecycle`.

use vstd::prelude::*;
use crate::errors::Wen3ExError;
use crate::market_ns;
use crate::market_st;
use crate::market_ts;
use crate::market_tt;
use crate::market_ts::ExType;

verus! {

/// Conservation for a token-for-token exchange: each of the two assets
/// is conserved across the three holdings it can sit in, the creator's
/// gain of the counter-asset is exactly the taker's loss of it, the
/// taker's gain of the escrowed asset is exactly what left the vault,
/// and native currency is conserved across creator, taker and vault.
pub proof fn lemma_tt_exchange_conservation(pre: market_tt::MarketTtExchange, post: market_tt::MarketTtExchange)
    requires
        market_tt::exchange_wiring(pre),
        market_tt::exchange_admitted(pre),
        market_tt::exchange_effect(pre, post),
    ensures
        post.taker_deposit_token_account.amount + post.creator_receive_token_account.amount
            == pre.taker_deposit_token_account.amount + pre.creator_receive_token_account.amount,
        post.taker_receive_token_account.amount + post.vault_token_account.amount
            == pre.taker_receive_token_account.amount + pre.vault_token_account.amount,
        post.creator_receive_token_account.amount - pre.creator_receive_token_account.amount
            == pre.taker_deposit_token_account.amount - post.taker_deposit_token_account.amount,
        post.taker_receive_token_account.amount - pre.taker_receive_token_account.amount
            == pre.vault_token_account.amount - post.vault_token_account.amount,
        post.creator.lamports + post.taker.lamports + post.vault_token_account.lamports
            == pre.creator.lamports + pre.taker.lamports + pre.vault_token_account.lamports,
{
}

/// Conservation for an asset-for-native-currency exchange: the escrowed
/// asset moves whole from the vault to the taker, and native currency is
/// conserved across creator, taker and vault — the taker's payment plus
/// the released vault residue is exactly the creator's gain.
pub proof fn lemma_ns_exchange_conservation(pre: market_ns::MarketNftToSolExchange, post: market_ns::MarketNftToSolExchange)
    requires
        market_ns::exchange_wiring(pre),
        market_ns::exchange_admitted(pre),
        market_ns::exchange_effect(pre, post),
    ensures
        post.taker_token_account.amount + post.vault_token_account.amount
            == pre.taker_token_account.amount + pre.vault_token_account.amount,
        post.taker_token_account.amount - pre.taker_token_account.amount
            == pre.vault_token_account.amount - post.vault_token_account.amount,
        post.creator.lamports + post.taker.lamports + post.vault_token_account.lamports
            == pre.creator.lamports + pre.taker.lamports + pre.vault_token_account.lamports,
        post.creator.lamports - pre.creator.lamports
            == pre.market_account.sol_amount + pre.vault_token_account.lamports,
{
}

/// Conservation for a native-currency-for-token exchange: the asset the
/// taker delivers is exactly what the creator's receiving account gains,
/// native currency is conserved across creator, taker and vault, and the
/// taker's net native gain is exactly the committed amount — the
/// compensation differential goes to the creator, not into thin air.
pub proof fn lemma_st_exchange_conservation(pre: market_st::MarketStExchange, post: market_st::MarketStExchange)
    requires
        market_st::exchange_wiring(pre),
        market_st::exchange_admitted(pre),
        market_st::exchange_effect(pre, post),
    ensures
        (pre.creator_token_account matches Some(cta_pre)
            && post.creator_token_account matches Some(cta_post)
            && post.taker_token_account.amount + cta_post.amount
                == pre.taker_token_account.amount + cta_pre.amount
            && cta_post.amount - cta_pre.amount == pre.market_account.token_amount),
        post.creator.lamports + post.taker.lamports + post.vault_token_account.lamports
            == pre.creator.lamports + pre.taker.lamports + pre.vault_token_account.lamports,
        post.taker.lamports - pre.taker.lamports == pre.market_account.sol_amount,
        post.creator.lamports - pre.creator.lamports
            == pre.vault_token_account.lamports - pre.market_account.sol_amount,
{
}

/// Conservation for a token-for-native-currency exchange, in whichever
/// direction the order was recorded: the order's asset and native
/// currency are both conserved across creator, taker, vault and the
/// creator's receiving account.
pub proof fn lemma_ts_exchange_conservation(pre: market_ts::MarketTsExchange, post: market_ts::MarketTsExchange)
    requires
        market_ts::exchange_wiring(pre),
        market_ts::exchange_admitted(pre),
        market_ts::exchange_effect(pre, post),
    ensures
        pre.market_account.ex_type == ExType::TokenToSol ==> {
            &&& post.taker_token_account.amount + post.vault_token_account.amount
                == pre.taker_token_account.amount + pre.vault_token_account.amount
            &&& post.creator.lamports + post.taker.lamports + post.vault_token_account.lamports
                == pre.creator.lamports + pre.taker.lamports + pre.vault_token_account.lamports
        },
        pre.market_account.ex_type == ExType::SolToToken ==> {
            &&& (pre.creator_token_account matches Some(cta_pre)
                && post.creator_token_account matches Some(cta_post)
                && post.taker_token_account.amount + cta_post.amount
                    == pre.taker_token_account.amount + cta_pre.amount)
            &&& post.creator.lamports + post.taker.lamports + post.vault_token_account.lamports
                == pre.creator.lamports + pre.taker.lamports + pre.vault_token_account.lamports
            &&& post.taker.lamports - pre.taker.lamports == pre.market_account.sol_amount
        },
{
}

/// Round trip for a token-for-token order: a create of deposit `D`
/// followed by a cancel that picks up exactly where the create left off
/// returns exactly `D` to the creator's funding account, leaves no
/// residual vault balance, and hands the vault's native residue back to
/// the creator.
pub proof fn lemma_tt_round_trip(
    pre_create: market_tt::MarketTtCreate,
    post_create: market_tt::MarketTtCreate,
    pre_cancel: market_tt::MarketTtCancel,
    post_cancel: market_tt::MarketTtCancel,
    deposit_amount: u64,
    receive_amount: u64,
    deposit_token: u64,
    receive_token: u64,
    now_ts: i64,
)
    requires
        market_tt::create_wiring(pre_create, deposit_token, receive_token),
        market_tt::create_admitted(pre_create, deposit_amount, receive_amount),
        market_tt::create_effect(
            pre_create,
            post_create,
            deposit_amount,
            receive_amount,
            deposit_token,
            receive_token,
            now_ts,
        ),
        market_tt::cancel_admitted(pre_cancel),
        market_tt::cancel_effect(pre_cancel, post_cancel),
        pre_cancel.deposit_token_account == post_create.deposit_token_account,
        pre_cancel.vault_token_account == post_create.vault_token_account,
        pre_cancel.market_account == post_create.market_account,
        pre_cancel.creator == post_create.creator,
    ensures
        post_cancel.deposit_token_account.amount == pre_create.deposit_token_account.amount,
        post_cancel.vault_token_account.amount == 0,
        post_cancel.vault_token_account.lamports == 0,
        post_cancel.creator.lamports
            == pre_create.creator.lamports + pre_create.vault_token_account.lamports,
{
}

/// Round trip for a native-currency-for-token order: a create of native
/// deposit `D` followed by a cancel returns the whole of `D`, plus the
/// vault's residue, to the creator's native balance, and leaves the
/// vault empty.
pub proof fn lemma_st_round_trip(
    pre_create: market_st::MarketStCreate,
    post_create: market_st::MarketStCreate,
    pre_cancel: market_st::MarketStCancel,
    post_cancel: market_st::MarketStCancel,
    token_amount: u64,
    sol_amount: u64,
    now_ts: i64,
)
    requires
        market_st::create_wiring(pre_create),
        market_st::create_admitted(pre_create, token_amount, sol_amount),
        market_st::create_effect(pre_create, post_create, token_amount, sol_amount, now_ts),
        market_st::cancel_admitted(pre_cancel),
        market_st::cancel_effect(pre_cancel, post_cancel),
        pre_cancel.vault_token_account == post_create.vault_token_account,
        pre_cancel.market_account == post_create.market_account,
        pre_cancel.creator == post_create.creator,
    ensures
        post_cancel.creator.lamports
            == pre_create.creator.lamports + pre_create.vault_token_account.lamports,
        post_cancel.vault_token_account.amount == 0,
        post_cancel.vault_token_account.lamports == 0,
{
}

/// Authority exclusivity for token-for-token orders: a cancel attempted
/// by any identity other than the order's recorded creator is refused
/// with `InvalidAuthority`.
pub proof fn lemma_tt_cancel_authority_exclusive(ctx: market_tt::MarketTtCancel)
    requires
        ctx.market_account.creator != ctx.creator.key,
    ensures
        !market_tt::cancel_admitted(ctx),
        market_tt::cancel_refusal(ctx) == Wen3ExError::InvalidAuthority,
{
}

/// Authority exclusivity for token-for-native-currency orders.
pub proof fn lemma_ts_cancel_authority_exclusive(ctx: market_ts::MarketTsCancel)
    requires
        ctx.market_account.creator != ctx.creator.key,
    ensures
        !market_ts::cancel_admitted(ctx),
        market_ts::cancel_refusal(ctx) == Wen3ExError::InvalidAuthority,
{
}

/// Authority exclusivity for native-currency-for-token orders.
pub proof fn lemma_st_cancel_authority_exclusive(ctx: market_st::MarketStCancel)
    requires
        ctx.market_account.creator != ctx.creator.key,
    ensures
        !market_st::cancel_admitted(ctx),
        market_st::cancel_refusal(ctx) == Wen3ExError::InvalidAuthority,
{
}

/// Authority exclusivity for asset-for-native-currency orders.
pub proof fn lemma_ns_cancel_authority_exclusive(ctx: market_ns::MarketNftToSolCancel)
    requires
        ctx.market_account.creator != ctx.creator.key,
    ensures
        !market_ns::cancel_admitted(ctx),
        market_ns::cancel_refusal(ctx) == Wen3ExError::InvalidAuthority,
{
}

/// Underflow abort: a native-currency-for-token exchange whose vault
/// balance cannot cover the committed amount — an underflowing
/// compensation differential — is refused with `NumericalOverflowError`,
/// whatever else holds of the accounts; by the exchange's contract the
/// order then stays open and untouched.
pub proof fn lemma_st_exchange_underflow_aborts(ctx: market_st::MarketStExchange)
    requires
        ctx.vault_token_account.lamports < ctx.market_account.sol_amount,
        (ctx.creator_token_account matches Some(cta)
            && cta.owner == (crate::ledger::Authority::Party { key: ctx.market_account.creator })
            && cta.amount + ctx.market_account.token_amount <= u64::MAX),
        ctx.market_account.token_amount <= ctx.taker_token_account.amount,
        (crate::authority::spec_vault_authority(ctx.market_key, ctx.program_id) matches Some(auth)
            && ctx.vault_authority == auth
            && ctx.vault_token_account.owner == (crate::ledger::Authority::Derived { auth })),
    ensures
        !market_st::exchange_admitted(ctx),
        market_st::exchange_refusal(ctx) == Wen3ExError::NumericalOverflowError,
{
}

/// The vault invariant at the open of a token-for-token order: the vault
/// holds exactly the outstanding deposit, and its control authority is a
/// derived credential — never any party's own identity.
pub proof fn lemma_tt_create_vault_invariant(
    pre: market_tt::MarketTtCreate,
    post: market_tt::MarketTtCreate,
    deposit_amount: u64,
    receive_amount: u64,
    deposit_token: u64,
    receive_token: u64,
    now_ts: i64,
)
    requires
        market_tt::create_admitted(pre, deposit_amount, receive_amount),
        market_tt::create_effect(
            pre,
            post,
            deposit_amount,
            receive_amount,
            deposit_token,
            receive_token,
            now_ts,
        ),
    ensures
        post.vault_token_account.amount == post.market_account.deposit_amount,
        post.vault_token_account.owner is Derived,
        forall|k: u64| post.vault_token_account.owner != (crate::ledger::Authority::Party { key: k }),
{
}

/// The vault invariant at the open of a native-currency-for-token order:
/// the vault's native balance covers the outstanding deposit, and its
/// control authority is a derived credential — never any party's own
/// identity.
pub proof fn lemma_st_create_vault_invariant(
    pre: market_st::MarketStCreate,
    post: market_st::MarketStCreate,
    token_amount: u64,
    sol_amount: u64,
    now_ts: i64,
)
    requires
        market_st::create_admitted(pre, token_amount, sol_amount),
        market_st::create_effect(pre, post, token_amount, sol_amount, now_ts),
    ensures
        post.vault_token_account.lamports >= post.market_account.sol_amount,
        post.vault_token_account.owner is Derived,
        forall|k: u64| post.vault_token_account.owner != (crate::ledger::Authority::Party { key: k }),
{
}

} // verus!
