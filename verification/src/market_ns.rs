//! The asset-for-native-currency market: escrow a non-fungible holding
//! against a native-currency price.
//!
//! The creator locks `nft_amount` of the escrowed asset in a vault under
//! the order's derived authority and names a native-currency price. A
//! taker pays the price straight to the creator and takes the asset; the
//! vault's residue is released to the creator on close.

use vstd::prelude::*;
use crate::authority::{derive_vault_authority, spec_vault_authority, DerivedAuthority};
use crate::errors::Wen3ExError;
use crate::ledger::{Authority, PartyAccount, TokenAccount};
use crate::lifecycle::OrderState;
use crate::settlement::{move_tokens, pay_native, release_vault};

verus! {

/// The order record of an asset-for-native-currency escrow.
#[derive(Clone, Copy, Debug, PartialEq, Eq, Structural)]
pub struct MarketNftToSolAccount {
    pub version: u32,
    pub creator: u64,
    pub nft_token: u64,
    pub nft_amount: u64,
    pub sol_amount: u64,
    pub create_time: i64,
    pub state: OrderState,
}

/// The accounts a create operates on: the fresh record and vault, and the
/// creator's account holding the asset to be escrowed.
#[derive(Clone, Copy, Debug, PartialEq, Eq, Structural)]
pub struct MarketNftToSolCreate {
    pub market_account: MarketNftToSolAccount,
    pub vault_token_account: TokenAccount,
    pub creator_token_account: TokenAccount,
    pub creator: PartyAccount,
    pub market_key: u64,
    pub program_id: u64,
}

/// The accounts a cancel operates on.
#[derive(Clone, Copy, Debug, PartialEq, Eq, Structural)]
pub struct MarketNftToSolCancel {
    pub creator: PartyAccount,
    pub creator_token_account: TokenAccount,
    pub vault_token_account: TokenAccount,
    pub vault_authority: DerivedAuthority,
    pub market_account: MarketNftToSolAccount,
    pub market_key: u64,
    pub program_id: u64,
}

/// The accounts an exchange operates on.
#[derive(Clone, Copy, Debug, PartialEq, Eq, Structural)]
pub struct MarketNftToSolExchange {
    pub taker: PartyAccount,
    pub taker_token_account: TokenAccount,
    pub creator: PartyAccount,
    pub market_account: MarketNftToSolAccount,
    pub vault_token_account: TokenAccount,
    pub vault_authority: DerivedAuthority,
    pub market_key: u64,
    pub program_id: u64,
}

/// The wiring the runtime guarantees before a create is admitted.
pub open spec fn create_wiring(ctx: MarketNftToSolCreate) -> bool {
    &&& ctx.vault_token_account.amount == 0
    &&& ctx.vault_token_account.owner == (Authority::Party { key: ctx.creator.key })
    &&& ctx.creator_token_account.mint == ctx.vault_token_account.mint
    &&& ctx.creator_token_account.owner == (Authority::Party { key: ctx.creator.key })
}

/// A create is admitted when both amounts are positive, the creator's
/// asset account covers the deposit, and the order's authority can be
/// derived.
pub open spec fn create_admitted(ctx: MarketNftToSolCreate, nft_amount: u64, sol_amount: u64) -> bool {
    &&& 0 < nft_amount
    &&& 0 < sol_amount
    &&& nft_amount <= ctx.creator_token_account.amount
    &&& spec_vault_authority(ctx.market_key, ctx.program_id) is Some
}

/// The error a refused create reports.
pub open spec fn create_refusal(ctx: MarketNftToSolCreate, nft_amount: u64, sol_amount: u64) -> Wen3ExError {
    if !(0 < nft_amount && 0 < sol_amount && nft_amount <= ctx.creator_token_account.amount) {
        Wen3ExError::InvalidAmount
    } else {
        Wen3ExError::IncorrectVaultAuthorityAccount
    }
}

/// The whole effect of a successful create.
pub open spec fn create_effect(
    pre: MarketNftToSolCreate,
    post: MarketNftToSolCreate,
    nft_amount: u64,
    sol_amount: u64,
    now_ts: i64,
) -> bool {
    &&& post.market_account == (MarketNftToSolAccount {
        version: 0,
        creator: pre.creator.key,
        nft_token: pre.vault_token_account.mint,
        nft_amount,
        sol_amount,
        create_time: now_ts,
        state: OrderState::Open,
    })
    &&& (spec_vault_authority(pre.market_key, pre.program_id) matches Some(auth)
        && post.vault_token_account == (TokenAccount {
            owner: Authority::Derived { auth },
            amount: nft_amount,
            ..pre.vault_token_account
        }))
    &&& post.creator_token_account == (TokenAccount {
        amount: (pre.creator_token_account.amount - nft_amount) as u64,
        ..pre.creator_token_account
    })
    &&& post.creator == pre.creator
    &&& post.market_key == pre.market_key
    &&& post.program_id == pre.program_id
}

/// Open an asset-for-native-currency order: freeze the terms, move the
/// asset into the vault, and hand the vault to the derived authority. On
/// refusal nothing changes.
pub fn create(
    ctx: &mut MarketNftToSolCreate,
    nft_amount: u64,
    sol_amount: u64,
    now_ts: i64,
) -> (r: Result<(), Wen3ExError>)
    requires
        create_wiring(*old(ctx)),
    ensures
        match r {
            Ok(()) => {
                &&& create_admitted(*old(ctx), nft_amount, sol_amount)
                &&& create_effect(*old(ctx), *final(ctx), nft_amount, sol_amount, now_ts)
            },
            Err(e) => {
                &&& *final(ctx) == *old(ctx)
                &&& !create_admitted(*old(ctx), nft_amount, sol_amount)
                &&& e == create_refusal(*old(ctx), nft_amount, sol_amount)
            },
        },
{
    if nft_amount == 0 || sol_amount == 0 {
        return Err(Wen3ExError::InvalidAmount);
    }
    if ctx.creator_token_account.amount < nft_amount {
        return Err(Wen3ExError::InvalidAmount);
    }
    let derived = match derive_vault_authority(ctx.market_key, ctx.program_id) {
        Some(p) => p.0,
        None => {
            return Err(Wen3ExError::IncorrectVaultAuthorityAccount);
        },
    };
    ctx.market_account = MarketNftToSolAccount {
        version: 0,
        creator: ctx.creator.key,
        nft_token: ctx.vault_token_account.mint,
        nft_amount,
        sol_amount,
        create_time: now_ts,
        state: OrderState::Open,
    };
    move_tokens(&mut ctx.creator_token_account, &mut ctx.vault_token_account, nft_amount);
    ctx.vault_token_account.owner = Authority::Derived { auth: derived };
    Ok(())
}

/// The wiring the runtime guarantees before a cancel is admitted.
pub open spec fn cancel_wiring(ctx: MarketNftToSolCancel) -> bool {
    &&& ctx.market_account.state == OrderState::Open
    &&& ctx.vault_token_account.mint == ctx.market_account.nft_token
    &&& ctx.vault_token_account.amount == ctx.market_account.nft_amount
    &&& ctx.creator_token_account.mint == ctx.market_account.nft_token
}

/// A cancel is admitted when the caller is the recorded creator, the
/// vault is controlled by the authority derivation reproduces, and no
/// balance adjustment overflows.
pub open spec fn cancel_admitted(ctx: MarketNftToSolCancel) -> bool {
    &&& ctx.market_account.creator == ctx.creator.key
    &&& (spec_vault_authority(ctx.market_key, ctx.program_id) matches Some(auth)
        && ctx.vault_authority == auth
        && ctx.vault_token_account.owner == (Authority::Derived { auth }))
    &&& ctx.creator_token_account.amount + ctx.market_account.nft_amount <= u64::MAX
    &&& ctx.creator.lamports + ctx.vault_token_account.lamports <= u64::MAX
}

/// The error a refused cancel reports, in the order the checks run.
pub open spec fn cancel_refusal(ctx: MarketNftToSolCancel) -> Wen3ExError {
    if ctx.market_account.creator != ctx.creator.key {
        Wen3ExError::InvalidAuthority
    } else if !(spec_vault_authority(ctx.market_key, ctx.program_id) matches Some(auth)
        && ctx.vault_authority == auth) {
        Wen3ExError::IncorrectVaultAuthorityAccount
    } else if !(spec_vault_authority(ctx.market_key, ctx.program_id) matches Some(auth)
        && ctx.vault_token_account.owner == (Authority::Derived { auth })) {
        Wen3ExError::InvalidAuthority
    } else {
        Wen3ExError::NumericalOverflowError
    }
}

/// The whole effect of a successful cancel: the asset is back with the
/// creator, the vault is empty and released, the record closed.
pub open spec fn cancel_effect(pre: MarketNftToSolCancel, post: MarketNftToSolCancel) -> bool {
    &&& post.creator_token_account == (TokenAccount {
        amount: (pre.creator_token_account.amount + pre.market_account.nft_amount) as u64,
        ..pre.creator_token_account
    })
    &&& post.vault_token_account == (TokenAccount {
        amount: 0,
        lamports: 0,
        ..pre.vault_token_account
    })
    &&& post.creator == (PartyAccount {
        lamports: (pre.creator.lamports + pre.vault_token_account.lamports) as u64,
        ..pre.creator
    })
    &&& post.market_account == (MarketNftToSolAccount {
        state: OrderState::Cancelled,
        ..pre.market_account
    })
    &&& post.vault_authority == pre.vault_authority
    &&& post.market_key == pre.market_key
    &&& post.program_id == pre.program_id
}

/// Cancel an open asset-for-native-currency order: only the recorded
/// creator may, and the whole escrowed asset plus the vault's residue
/// comes back. On refusal nothing changes.
pub fn cancel(ctx: &mut MarketNftToSolCancel) -> (r: Result<(), Wen3ExError>)
    requires
        cancel_wiring(*old(ctx)),
    ensures
        crate::lifecycle::order_evolves(
            old(ctx).market_account.state,
            final(ctx).market_account.state,
        ),
        match r {
            Ok(()) => {
                &&& cancel_admitted(*old(ctx))
                &&& cancel_effect(*old(ctx), *final(ctx))
            },
            Err(e) => {
                &&& *final(ctx) == *old(ctx)
                &&& !cancel_admitted(*old(ctx))
                &&& e == cancel_refusal(*old(ctx))
            },
        },
{
    if ctx.market_account.creator != ctx.creator.key {
        return Err(Wen3ExError::InvalidAuthority);
    }
    let derived = match derive_vault_authority(ctx.market_key, ctx.program_id) {
        Some(p) => p.0,
        None => {
            return Err(Wen3ExError::IncorrectVaultAuthorityAccount);
        },
    };
    if !(ctx.vault_authority == derived) {
        return Err(Wen3ExError::IncorrectVaultAuthorityAccount);
    }
    if !(ctx.vault_token_account.owner == (Authority::Derived { auth: derived })) {
        return Err(Wen3ExError::InvalidAuthority);
    }
    if ctx.creator_token_account.amount > u64::MAX - ctx.market_account.nft_amount {
        return Err(Wen3ExError::NumericalOverflowError);
    }
    if ctx.creator.lamports > u64::MAX - ctx.vault_token_account.lamports {
        return Err(Wen3ExError::NumericalOverflowError);
    }
    move_tokens(
        &mut ctx.vault_token_account,
        &mut ctx.creator_token_account,
        ctx.market_account.nft_amount,
    );
    release_vault(&mut ctx.vault_token_account, &mut ctx.creator);
    ctx.market_account.state = OrderState::Cancelled;
    Ok(())
}

/// The wiring the runtime guarantees before an exchange is admitted.
pub open spec fn exchange_wiring(ctx: MarketNftToSolExchange) -> bool {
    &&& ctx.market_account.state == OrderState::Open
    &&& ctx.market_account.creator == ctx.creator.key
    &&& ctx.taker_token_account.mint == ctx.market_account.nft_token
    &&& ctx.vault_token_account.mint == ctx.market_account.nft_token
    &&& ctx.vault_token_account.amount == ctx.market_account.nft_amount
}

/// An exchange is admitted when the taker can pay the price, the vault is
/// controlled by the authority derivation reproduces, and no balance
/// adjustment overflows.
pub open spec fn exchange_admitted(ctx: MarketNftToSolExchange) -> bool {
    &&& ctx.market_account.sol_amount <= ctx.taker.lamports
    &&& (spec_vault_authority(ctx.market_key, ctx.program_id) matches Some(auth)
        && ctx.vault_authority == auth
        && ctx.vault_token_account.owner == (Authority::Derived { auth }))
    &&& ctx.taker_token_account.amount + ctx.market_account.nft_amount <= u64::MAX
    &&& ctx.creator.lamports + ctx.market_account.sol_amount
        + ctx.vault_token_account.lamports <= u64::MAX
}

/// The error a refused exchange reports, in the order the checks run.
pub open spec fn exchange_refusal(ctx: MarketNftToSolExchange) -> Wen3ExError {
    if ctx.taker.lamports < ctx.market_account.sol_amount {
        Wen3ExError::InvalidAmount
    } else if !(spec_vault_authority(ctx.market_key, ctx.program_id) matches Some(auth)
        && ctx.vault_authority == auth) {
        Wen3ExError::IncorrectVaultAuthorityAccount
    } else if !(spec_vault_authority(ctx.market_key, ctx.program_id) matches Some(auth)
        && ctx.vault_token_account.owner == (Authority::Derived { auth })) {
        Wen3ExError::InvalidAuthority
    } else {
        Wen3ExError::NumericalOverflowError
    }
}

/// The whole effect of a successful exchange, per the settlement table:
/// the counter-leg pays the order's price from the taker straight to the
/// creator, the vault-leg hands the escrowed asset to the taker, and the
/// vault's residue is released to the creator on close.
pub open spec fn exchange_effect(pre: MarketNftToSolExchange, post: MarketNftToSolExchange) -> bool {
    &&& post.taker == (PartyAccount {
        lamports: (pre.taker.lamports - pre.market_account.sol_amount) as u64,
        ..pre.taker
    })
    &&& post.creator == (PartyAccount {
        lamports: (pre.creator.lamports + pre.market_account.sol_amount
            + pre.vault_token_account.lamports) as u64,
        ..pre.creator
    })
    &&& post.taker_token_account == (TokenAccount {
        amount: (pre.taker_token_account.amount + pre.market_account.nft_amount) as u64,
        ..pre.taker_token_account
    })
    &&& post.vault_token_account == (TokenAccount {
        amount: 0,
        lamports: 0,
        ..pre.vault_token_account
    })
    &&& post.market_account == (MarketNftToSolAccount {
        state: OrderState::Exchanged,
        ..pre.market_account
    })
    &&& post.vault_authority == pre.vault_authority
    &&& post.market_key == pre.market_key
    &&& post.program_id == pre.program_id
}

/// Exchange an open asset-for-native-currency order: the taker pays the
/// recorded price to the creator and takes the escrowed asset; the vault
/// is released to the creator and the record closed. Both legs and the
/// close happen, or nothing does.
pub fn exchange(ctx: &mut MarketNftToSolExchange) -> (r: Result<(), Wen3ExError>)
    requires
        exchange_wiring(*old(ctx)),
    ensures
        crate::lifecycle::order_evolves(
            old(ctx).market_account.state,
            final(ctx).market_account.state,
        ),
        match r {
            Ok(()) => {
                &&& exchange_admitted(*old(ctx))
                &&& exchange_effect(*old(ctx), *final(ctx))
            },
            Err(e) => {
                &&& *final(ctx) == *old(ctx)
                &&& !exchange_admitted(*old(ctx))
                &&& e == exchange_refusal(*old(ctx))
            },
        },
{
    if ctx.taker.lamports < ctx.market_account.sol_amount {
        return Err(Wen3ExError::InvalidAmount);
    }
    let derived = match derive_vault_authority(ctx.market_key, ctx.program_id) {
        Some(p) => p.0,
        None => {
            return Err(Wen3ExError::IncorrectVaultAuthorityAccount);
        },
    };
    if !(ctx.vault_authority == derived) {
        return Err(Wen3ExError::IncorrectVaultAuthorityAccount);
    }
    if !(ctx.vault_token_account.owner == (Authority::Derived { auth: derived })) {
        return Err(Wen3ExError::InvalidAuthority);
    }
    if ctx.taker_token_account.amount > u64::MAX - ctx.market_account.nft_amount {
        return Err(Wen3ExError::NumericalOverflowError);
    }
    if ctx.market_account.sol_amount > u64::MAX - ctx.vault_token_account.lamports
        || ctx.creator.lamports > u64::MAX
            - (ctx.market_account.sol_amount + ctx.vault_token_account.lamports) {
        return Err(Wen3ExError::NumericalOverflowError);
    }
    pay_native(&mut ctx.taker, &mut ctx.creator, ctx.market_account.sol_amount);
    move_tokens(
        &mut ctx.vault_token_account,
        &mut ctx.taker_token_account,
        ctx.market_account.nft_amount,
    );
    release_vault(&mut ctx.vault_token_account, &mut ctx.creator);
    ctx.market_account.state = OrderState::Exchanged;
    Ok(())
}

} // verus!
