//! The token-for-token market: escrow one fungible asset against another.
//!
//! The creator locks `deposit_amount` of `deposit_token` in a vault whose
//! control is handed to the order's derived authority. The order is then
//! settled exactly once: either the creator cancels and the deposit comes
//! back, or a taker delivers `receive_amount` of `receive_token` to the
//! creator and takes the whole deposit. Every operation either performs
//! all of its legs or leaves every account untouched.

use vstd::prelude::*;
use crate::authority::{derive_vault_authority, spec_vault_authority, DerivedAuthority};
use crate::errors::Wen3ExError;
use crate::ledger::{Authority, PartyAccount, TokenAccount};
use crate::lifecycle::OrderState;
use crate::settlement::{move_tokens, release_vault};

verus! {

/// The order record of a token-for-token escrow. Terms are frozen at
/// creation; only `state` ever changes afterwards.
#[derive(Clone, Copy, Debug, PartialEq, Eq, Structural)]
pub struct MarketTtAccount {
    pub version: u32,
    pub creator: u64,
    pub deposit_token: u64,
    pub deposit_amount: u64,
    pub receive_token: u64,
    pub receive_amount: u64,
    pub create_time: i64,
    pub state: OrderState,
}

/// The accounts a token-for-token create operates on: the fresh order
/// record and vault, the creator's funding account, and the account that
/// will later receive the counter-asset.
#[derive(Clone, Copy, Debug, PartialEq, Eq, Structural)]
pub struct MarketTtCreate {
    pub vault_token_account: TokenAccount,
    pub market_account: MarketTtAccount,
    pub deposit_token_account: TokenAccount,
    pub receive_token_account: TokenAccount,
    pub creator: PartyAccount,
    pub market_key: u64,
    pub program_id: u64,
}

/// The accounts a token-for-token cancel operates on.
#[derive(Clone, Copy, Debug, PartialEq, Eq, Structural)]
pub struct MarketTtCancel {
    pub creator: PartyAccount,
    pub deposit_token_account: TokenAccount,
    pub vault_token_account: TokenAccount,
    pub vault_authority: DerivedAuthority,
    pub market_account: MarketTtAccount,
    pub market_key: u64,
    pub program_id: u64,
}

/// The accounts a token-for-token exchange operates on.
#[derive(Clone, Copy, Debug, PartialEq, Eq, Structural)]
pub struct MarketTtExchange {
    pub taker: PartyAccount,
    pub taker_deposit_token_account: TokenAccount,
    pub taker_receive_token_account: TokenAccount,
    pub creator_deposit_token_account: TokenAccount,
    pub creator_receive_token_account: TokenAccount,
    pub creator: PartyAccount,
    pub market_account: MarketTtAccount,
    pub vault_token_account: TokenAccount,
    pub vault_authority: DerivedAuthority,
    pub market_key: u64,
    pub program_id: u64,
}

/// The wiring the runtime guarantees before a create is admitted: a fresh
/// vault of the deposited asset still under the creator's own authority,
/// and funding/receiving accounts of the right assets.
pub open spec fn create_wiring(ctx: MarketTtCreate, deposit_token: u64, receive_token: u64) -> bool {
    &&& ctx.vault_token_account.amount == 0
    &&& ctx.vault_token_account.owner == (Authority::Party { key: ctx.creator.key })
    &&& ctx.vault_token_account.mint == deposit_token
    &&& ctx.deposit_token_account.mint == deposit_token
    &&& ctx.deposit_token_account.owner == (Authority::Party { key: ctx.creator.key })
    &&& ctx.receive_token_account.mint == receive_token
}

/// A create is admitted when both amounts are positive, the creator's
/// funding account covers the deposit, and the order's authority can be
/// derived.
pub open spec fn create_admitted(ctx: MarketTtCreate, deposit_amount: u64, receive_amount: u64) -> bool {
    &&& 0 < deposit_amount
    &&& 0 < receive_amount
    &&& deposit_amount <= ctx.deposit_token_account.amount
    &&& spec_vault_authority(ctx.market_key, ctx.program_id) is Some
}

/// The error a refused create reports: insufficient or degenerate amounts
/// first, then a failed authority derivation.
pub open spec fn create_refusal(ctx: MarketTtCreate, deposit_amount: u64, receive_amount: u64) -> Wen3ExError {
    if !(0 < deposit_amount && 0 < receive_amount
        && deposit_amount <= ctx.deposit_token_account.amount) {
        Wen3ExError::InvalidAmount
    } else {
        Wen3ExError::IncorrectVaultAuthorityAccount
    }
}

/// The whole effect of a successful create: the record is initialized and
/// open, the vault is funded with the deposit and re-pointed at the
/// derived authority, and the creator's funding account is debited.
pub open spec fn create_effect(
    pre: MarketTtCreate,
    post: MarketTtCreate,
    deposit_amount: u64,
    receive_amount: u64,
    deposit_token: u64,
    receive_token: u64,
    now_ts: i64,
) -> bool {
    &&& post.market_account == (MarketTtAccount {
        version: 0,
        creator: pre.creator.key,
        deposit_token,
        deposit_amount,
        receive_token,
        receive_amount,
        create_time: now_ts,
        state: OrderState::Open,
    })
    &&& (spec_vault_authority(pre.market_key, pre.program_id) matches Some(auth)
        && post.vault_token_account == (TokenAccount {
            owner: Authority::Derived { auth },
            amount: deposit_amount,
            ..pre.vault_token_account
        }))
    &&& post.deposit_token_account == (TokenAccount {
        amount: (pre.deposit_token_account.amount - deposit_amount) as u64,
        ..pre.deposit_token_account
    })
    &&& post.receive_token_account == pre.receive_token_account
    &&& post.creator == pre.creator
    &&& post.market_key == pre.market_key
    &&& post.program_id == pre.program_id
}

/// Open a token-for-token order: freeze the terms, fund the vault from
/// the creator's account, and hand the vault to the derived authority.
/// On refusal nothing changes.
pub fn create(
    ctx: &mut MarketTtCreate,
    deposit_amount: u64,
    receive_amount: u64,
    deposit_token: u64,
    receive_token: u64,
    now_ts: i64,
) -> (r: Result<(), Wen3ExError>)
    requires
        create_wiring(*old(ctx), deposit_token, receive_token),
    ensures
        match r {
            Ok(()) => {
                &&& create_admitted(*old(ctx), deposit_amount, receive_amount)
                &&& create_effect(
                    *old(ctx),
                    *final(ctx),
                    deposit_amount,
                    receive_amount,
                    deposit_token,
                    receive_token,
                    now_ts,
                )
            },
            Err(e) => {
                &&& *final(ctx) == *old(ctx)
                &&& !create_admitted(*old(ctx), deposit_amount, receive_amount)
                &&& e == create_refusal(*old(ctx), deposit_amount, receive_amount)
            },
        },
{
    if deposit_amount == 0 || receive_amount == 0 {
        return Err(Wen3ExError::InvalidAmount);
    }
    if ctx.deposit_token_account.amount < deposit_amount {
        return Err(Wen3ExError::InvalidAmount);
    }
    let derived = match derive_vault_authority(ctx.market_key, ctx.program_id) {
        Some(p) => p.0,
        None => {
            return Err(Wen3ExError::IncorrectVaultAuthorityAccount);
        },
    };
    ctx.market_account = MarketTtAccount {
        version: 0,
        creator: ctx.creator.key,
        deposit_token,
        deposit_amount,
        receive_token,
        receive_amount,
        create_time: now_ts,
        state: OrderState::Open,
    };
    ctx.vault_token_account.owner = Authority::Derived { auth: derived };
    move_tokens(&mut ctx.deposit_token_account, &mut ctx.vault_token_account, deposit_amount);
    Ok(())
}

/// The wiring the runtime guarantees before a cancel is admitted: the
/// order is still open, the vault matches the order's terms, and the
/// account taking the deposit back belongs to the caller and holds the
/// right asset.
pub open spec fn cancel_wiring(ctx: MarketTtCancel) -> bool {
    &&& ctx.market_account.state == OrderState::Open
    &&& ctx.vault_token_account.mint == ctx.market_account.deposit_token
    &&& ctx.vault_token_account.amount == ctx.market_account.deposit_amount
    &&& ctx.deposit_token_account.mint == ctx.market_account.deposit_token
    &&& ctx.deposit_token_account.owner == (Authority::Party { key: ctx.creator.key })
}

/// A cancel is admitted when the caller is the recorded creator, the
/// supplied authority is the one derivation reproduces, the vault is
/// controlled by it, and no balance adjustment overflows.
pub open spec fn cancel_admitted(ctx: MarketTtCancel) -> bool {
    &&& ctx.market_account.creator == ctx.creator.key
    &&& (spec_vault_authority(ctx.market_key, ctx.program_id) matches Some(auth)
        && ctx.vault_authority == auth
        && ctx.vault_token_account.owner == (Authority::Derived { auth }))
    &&& ctx.deposit_token_account.amount + ctx.market_account.deposit_amount <= u64::MAX
    &&& ctx.creator.lamports + ctx.vault_token_account.lamports <= u64::MAX
}

/// The error a refused cancel reports, in the order the checks run: a
/// caller other than the recorded creator, then a supplied authority that
/// derivation does not reproduce, then a vault not held by the derived
/// authority, then an overflowing balance adjustment.
pub open spec fn cancel_refusal(ctx: MarketTtCancel) -> Wen3ExError {
    if ctx.market_account.creator != ctx.creator.key {
        Wen3ExError::InvalidAuthority
    } else if !(spec_vault_authority(ctx.market_key, ctx.program_id) matches Some(auth)
        && ctx.vault_authority == auth) {
        Wen3ExError::IncorrectVaultAuthorityAccount
    } else if !(spec_vault_authority(ctx.market_key, ctx.program_id) matches Some(auth)
        && ctx.vault_token_account.owner == (Authority::Derived { auth })) {
        Wen3ExError::InvalidAuthority
    } else {
        Wen3ExError::NumericalOverflowError
    }
}

/// The whole effect of a successful cancel: the full deposit is back in
/// the creator's account, the vault is empty and released to the creator,
/// and the record is closed as cancelled.
pub open spec fn cancel_effect(pre: MarketTtCancel, post: MarketTtCancel) -> bool {
    &&& post.deposit_token_account == (TokenAccount {
        amount: (pre.deposit_token_account.amount + pre.market_account.deposit_amount) as u64,
        ..pre.deposit_token_account
    })
    &&& post.vault_token_account == (TokenAccount {
        amount: 0,
        lamports: 0,
        ..pre.vault_token_account
    })
    &&& post.creator == (PartyAccount {
        lamports: (pre.creator.lamports + pre.vault_token_account.lamports) as u64,
        ..pre.creator
    })
    &&& post.market_account == (MarketTtAccount { state: OrderState::Cancelled, ..pre.market_account })
    &&& post.vault_authority == pre.vault_authority
    &&& post.market_key == pre.market_key
    &&& post.program_id == pre.program_id
}

/// Cancel an open token-for-token order: only the recorded creator may,
/// and the whole deposit plus the vault's residual native balance comes
/// back. On refusal nothing changes.
pub fn cancel(ctx: &mut MarketTtCancel) -> (r: Result<(), Wen3ExError>)
    requires
        cancel_wiring(*old(ctx)),
    ensures
        crate::lifecycle::order_evolves(
            old(ctx).market_account.state,
            final(ctx).market_account.state,
        ),
        match r {
            Ok(()) => {
                &&& cancel_admitted(*old(ctx))
                &&& cancel_effect(*old(ctx), *final(ctx))
            },
            Err(e) => {
                &&& *final(ctx) == *old(ctx)
                &&& !cancel_admitted(*old(ctx))
                &&& e == cancel_refusal(*old(ctx))
            },
        },
{
    if ctx.market_account.creator != ctx.creator.key {
        return Err(Wen3ExError::InvalidAuthority);
    }
    let derived = match derive_vault_authority(ctx.market_key, ctx.program_id) {
        Some(p) => p.0,
        None => {
            return Err(Wen3ExError::IncorrectVaultAuthorityAccount);
        },
    };
    if !(ctx.vault_authority == derived) {
        return Err(Wen3ExError::IncorrectVaultAuthorityAccount);
    }
    if !(ctx.vault_token_account.owner == (Authority::Derived { auth: derived })) {
        return Err(Wen3ExError::InvalidAuthority);
    }
    if ctx.deposit_token_account.amount > u64::MAX - ctx.market_account.deposit_amount {
        return Err(Wen3ExError::NumericalOverflowError);
    }
    if ctx.creator.lamports > u64::MAX - ctx.vault_token_account.lamports {
        return Err(Wen3ExError::NumericalOverflowError);
    }
    move_tokens(
        &mut ctx.vault_token_account,
        &mut ctx.deposit_token_account,
        ctx.market_account.deposit_amount,
    );
    release_vault(&mut ctx.vault_token_account, &mut ctx.creator);
    ctx.market_account.state = OrderState::Cancelled;
    Ok(())
}

/// The wiring the runtime guarantees before an exchange is admitted: the
/// order is open, the supplied creator is the recorded one, the taker
/// funds the counter-leg from an account they own, and every account holds
/// the asset its leg moves.
pub open spec fn exchange_wiring(ctx: MarketTtExchange) -> bool {
    &&& ctx.market_account.state == OrderState::Open
    &&& ctx.market_account.creator == ctx.creator.key
    &&& ctx.taker_deposit_token_account.mint == ctx.market_account.receive_token
    &&& ctx.taker_deposit_token_account.owner == (Authority::Party { key: ctx.taker.key })
    &&& ctx.taker_receive_token_account.mint == ctx.market_account.deposit_token
    &&& ctx.creator_deposit_token_account.mint == ctx.market_account.deposit_token
    &&& ctx.creator_receive_token_account.mint == ctx.market_account.receive_token
    &&& ctx.vault_token_account.mint == ctx.market_account.deposit_token
    &&& ctx.vault_token_account.amount == ctx.market_account.deposit_amount
}

/// An exchange is admitted when the taker's offer covers the order's
/// expected amount, the supplied creator receiving account really belongs
/// to the recorded creator, the vault is controlled by the authority that
/// derivation reproduces, and no balance adjustment overflows.
pub open spec fn exchange_admitted(ctx: MarketTtExchange) -> bool {
    &&& ctx.market_account.receive_amount <= ctx.taker_deposit_token_account.amount
    &&& ctx.creator_receive_token_account.owner == (Authority::Party {
        key: ctx.market_account.creator,
    })
    &&& (spec_vault_authority(ctx.market_key, ctx.program_id) matches Some(auth)
        && ctx.vault_authority == auth
        && ctx.vault_token_account.owner == (Authority::Derived { auth }))
    &&& ctx.creator_receive_token_account.amount + ctx.market_account.receive_amount <= u64::MAX
    &&& ctx.taker_receive_token_account.amount + ctx.market_account.deposit_amount <= u64::MAX
    &&& ctx.creator.lamports + ctx.vault_token_account.lamports <= u64::MAX
}

/// The error a refused exchange reports, in the order the checks run.
pub open spec fn exchange_refusal(ctx: MarketTtExchange) -> Wen3ExError {
    if ctx.taker_deposit_token_account.amount < ctx.market_account.receive_amount {
        Wen3ExError::InvalidAmount
    } else if ctx.creator_receive_token_account.owner != (Authority::Party {
        key: ctx.market_account.creator,
    }) {
        Wen3ExError::IncorrectCreatorTokenAccount
    } else if !(spec_vault_authority(ctx.market_key, ctx.program_id) matches Some(auth)
        && ctx.vault_authority == auth) {
        Wen3ExError::IncorrectVaultAuthorityAccount
    } else if !(spec_vault_authority(ctx.market_key, ctx.program_id) matches Some(auth)
        && ctx.vault_token_account.owner == (Authority::Derived { auth })) {
        Wen3ExError::InvalidAuthority
    } else {
        Wen3ExError::NumericalOverflowError
    }
}

/// The whole effect of a successful exchange, per the settlement table:
/// the counter-leg delivers the taker's offer to the creator's receiving
/// account, the vault-leg hands the whole escrowed deposit to the taker,
/// and the vault's residue is released to the creator on close.
pub open spec fn exchange_effect(pre: MarketTtExchange, post: MarketTtExchange) -> bool {
    &&& post.taker_deposit_token_account == (TokenAccount {
        amount: (pre.taker_deposit_token_account.amount - pre.market_account.receive_amount) as u64,
        ..pre.taker_deposit_token_account
    })
    &&& post.creator_receive_token_account == (TokenAccount {
        amount: (pre.creator_receive_token_account.amount
            + pre.market_account.receive_amount) as u64,
        ..pre.creator_receive_token_account
    })
    &&& post.taker_receive_token_account == (TokenAccount {
        amount: (pre.taker_receive_token_account.amount
            + pre.market_account.deposit_amount) as u64,
        ..pre.taker_receive_token_account
    })
    &&& post.vault_token_account == (TokenAccount {
        amount: 0,
        lamports: 0,
        ..pre.vault_token_account
    })
    &&& post.creator == (PartyAccount {
        lamports: (pre.creator.lamports + pre.vault_token_account.lamports) as u64,
        ..pre.creator
    })
    &&& post.market_account == (MarketTtAccount { state: OrderState::Exchanged, ..pre.market_account })
    &&& post.taker == pre.taker
    &&& post.creator_deposit_token_account == pre.creator_deposit_token_account
    &&& post.vault_authority == pre.vault_authority
    &&& post.market_key == pre.market_key
    &&& post.program_id == pre.program_id
}

/// Exchange an open token-for-token order: the taker delivers the
/// expected counter-asset to the creator and takes the escrowed deposit;
/// the vault is then released to the creator and the record closed. Both
/// legs and the close happen, or nothing does.
pub fn exchange(ctx: &mut MarketTtExchange) -> (r: Result<(), Wen3ExError>)
    requires
        exchange_wiring(*old(ctx)),
    ensures
        crate::lifecycle::order_evolves(
            old(ctx).market_account.state,
            final(ctx).market_account.state,
        ),
        match r {
            Ok(()) => {
                &&& exchange_admitted(*old(ctx))
                &&& exchange_effect(*old(ctx), *final(ctx))
            },
            Err(e) => {
                &&& *final(ctx) == *old(ctx)
                &&& !exchange_admitted(*old(ctx))
                &&& e == exchange_refusal(*old(ctx))
            },
        },
{
    if ctx.taker_deposit_token_account.amount < ctx.market_account.receive_amount {
        return Err(Wen3ExError::InvalidAmount);
    }
    if !(ctx.creator_receive_token_account.owner == (Authority::Party {
        key: ctx.market_account.creator,
    })) {
        return Err(Wen3ExError::IncorrectCreatorTokenAccount);
    }
    let derived = match derive_vault_authority(ctx.market_key, ctx.program_id) {
        Some(p) => p.0,
        None => {
            return Err(Wen3ExError::IncorrectVaultAuthorityAccount);
        },
    };
    if !(ctx.vault_authority == derived) {
        return Err(Wen3ExError::IncorrectVaultAuthorityAccount);
    }
    if !(ctx.vault_token_account.owner == (Authority::Derived { auth: derived })) {
        return Err(Wen3ExError::InvalidAuthority);
    }
    if ctx.creator_receive_token_account.amount
        > u64::MAX - ctx.market_account.receive_amount {
        return Err(Wen3ExError::NumericalOverflowError);
    }
    if ctx.taker_receive_token_account.amount > u64::MAX - ctx.market_account.deposit_amount {
        return Err(Wen3ExError::NumericalOverflowError);
    }
    if ctx.creator.lamports > u64::MAX - ctx.vault_token_account.lamports {
        return Err(Wen3ExError::NumericalOverflowError);
    }
    move_tokens(
        &mut ctx.taker_deposit_token_account,
        &mut ctx.creator_receive_token_account,
        ctx.market_account.receive_amount,
    );
    move_tokens(
        &mut ctx.vault_token_account,
        &mut ctx.taker_receive_token_account,
        ctx.market_account.deposit_amount,
    );
    release_vault(&mut ctx.vault_token_account, &mut ctx.creator);
    ctx.market_account.state = OrderState::Exchanged;
    Ok(())
}

} // verus!

