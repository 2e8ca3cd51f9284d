//! The bidirectional token-for-native-currency market.
//!
//! One order form covers both directions. Selling (`TokenToSol`): the
//! creator escrows `token_amount` of the asset and a taker pays
//! `sol_amount` of native currency for it. Buying (`SolToToken`): the
//! creator escrows `sol_amount` of native currency in the vault's own
//! holding address and a taker delivers `token_amount` of the asset to a
//! receiving account of the creator's.

use vstd::prelude::*;
use crate::authority::{derive_vault_authority, spec_vault_authority, DerivedAuthority};
use crate::errors::Wen3ExError;
use crate::ledger::{Authority, PartyAccount, TokenAccount};
use crate::lifecycle::OrderState;
use crate::settlement::{debit_vault_native, fund_vault_native, move_tokens, pay_native, release_vault};

verus! {

/// The direction of a token-for-native-currency order: whether the
/// creator is selling the asset for native currency or paying native
/// currency to buy it.
#[derive(Clone, Copy, Debug, PartialEq, Eq, Structural)]
pub enum ExType {
    TokenToSol,
    SolToToken,
}

/// The order record of a token-for-native-currency escrow.
#[derive(Clone, Copy, Debug, PartialEq, Eq, Structural)]
pub struct MarketTsAccount {
    pub creator: u64,
    pub ex_type: ExType,
    pub token: u64,
    pub token_amount: u64,
    pub sol_amount: u64,
    pub create_time: i64,
    pub state: OrderState,
}

/// The accounts a create operates on.
#[derive(Clone, Copy, Debug, PartialEq, Eq, Structural)]
pub struct MarketTsCreate {
    pub market_account: MarketTsAccount,
    pub vault_token_account: TokenAccount,
    pub creator_token_account: TokenAccount,
    pub creator: PartyAccount,
    pub market_key: u64,
    pub program_id: u64,
}

/// The accounts a cancel operates on.
#[derive(Clone, Copy, Debug, PartialEq, Eq, Structural)]
pub struct MarketTsCancel {
    pub creator: PartyAccount,
    pub creator_token_account: TokenAccount,
    pub vault_token_account: TokenAccount,
    pub vault_authority: DerivedAuthority,
    pub market_account: MarketTsAccount,
    pub market_key: u64,
    pub program_id: u64,
}

/// The accounts an exchange operates on. The creator's receiving account
/// is needed only in the buying direction; it is supplied by the caller
/// and may be absent or belong to the wrong party.
#[derive(Clone, Copy, Debug, PartialEq, Eq, Structural)]
pub struct MarketTsExchange {
    pub taker: PartyAccount,
    pub taker_token_account: TokenAccount,
    pub creator: PartyAccount,
    pub creator_token_account: Option<TokenAccount>,
    pub market_account: MarketTsAccount,
    pub vault_token_account: TokenAccount,
    pub vault_authority: DerivedAuthority,
    pub market_key: u64,
    pub program_id: u64,
}

/// The wiring the runtime guarantees before a create is admitted: a
/// fresh, empty vault of the order's asset, still under the creator's own
/// authority, and a funding account of the same asset owned by the
/// creator.
pub open spec fn create_wiring(ctx: MarketTsCreate, token: u64) -> bool {
    &&& ctx.vault_token_account.amount == 0
    &&& ctx.vault_token_account.owner == (Authority::Party { key: ctx.creator.key })
    &&& ctx.vault_token_account.mint == token
    &&& ctx.creator_token_account.mint == token
    &&& ctx.creator_token_account.owner == (Authority::Party { key: ctx.creator.key })
}

/// A create is admitted when both amounts are positive, the creator's
/// deposit — the asset when selling, native currency when buying — is
/// covered, funding cannot overflow, and the order's authority can be
/// derived.
pub open spec fn create_admitted(
    ctx: MarketTsCreate,
    token_amount: u64,
    sol_amount: u64,
    ex_type: ExType,
) -> bool {
    &&& 0 < token_amount
    &&& 0 < sol_amount
    &&& (if ex_type == ExType::TokenToSol {
        token_amount <= ctx.creator_token_account.amount
    } else {
        &&& sol_amount <= ctx.creator.lamports
        &&& ctx.vault_token_account.lamports + sol_amount <= u64::MAX
    })
    &&& spec_vault_authority(ctx.market_key, ctx.program_id) is Some
}

/// The error a refused create reports, in the order the checks run.
pub open spec fn create_refusal(
    ctx: MarketTsCreate,
    token_amount: u64,
    sol_amount: u64,
    ex_type: ExType,
) -> Wen3ExError {
    if !(0 < token_amount && 0 < sol_amount) {
        Wen3ExError::InvalidAmount
    } else if ex_type == ExType::TokenToSol
        && ctx.creator_token_account.amount < token_amount {
        Wen3ExError::InvalidAmount
    } else if ex_type == ExType::SolToToken && ctx.creator.lamports < sol_amount {
        Wen3ExError::InvalidAmount
    } else if ex_type == ExType::SolToToken
        && ctx.vault_token_account.lamports + sol_amount > u64::MAX {
        Wen3ExError::NumericalOverflowError
    } else {
        Wen3ExError::IncorrectVaultAuthorityAccount
    }
}

/// The whole effect of a successful create: the record is initialized and
/// open, the deposit — asset or native currency — is in the vault, and
/// the vault is re-pointed at the derived authority.
pub open spec fn create_effect(
    pre: MarketTsCreate,
    post: MarketTsCreate,
    token: u64,
    token_amount: u64,
    sol_amount: u64,
    ex_type: ExType,
    now_ts: i64,
) -> bool {
    &&& post.market_account == (MarketTsAccount {
        creator: pre.creator.key,
        ex_type,
        token,
        token_amount,
        sol_amount,
        create_time: now_ts,
        state: OrderState::Open,
    })
    &&& (spec_vault_authority(pre.market_key, pre.program_id) matches Some(auth)
        && (if ex_type == ExType::TokenToSol {
            &&& post.vault_token_account == (TokenAccount {
                owner: Authority::Derived { auth },
                amount: token_amount,
                ..pre.vault_token_account
            })
            &&& post.creator_token_account == (TokenAccount {
                amount: (pre.creator_token_account.amount - token_amount) as u64,
                ..pre.creator_token_account
            })
            &&& post.creator == pre.creator
        } else {
            &&& post.vault_token_account == (TokenAccount {
                owner: Authority::Derived { auth },
                lamports: (pre.vault_token_account.lamports + sol_amount) as u64,
                ..pre.vault_token_account
            })
            &&& post.creator_token_account == pre.creator_token_account
            &&& post.creator == (PartyAccount {
                lamports: (pre.creator.lamports - sol_amount) as u64,
                ..pre.creator
            })
        }))
    &&& post.market_key == pre.market_key
    &&& post.program_id == pre.program_id
}

/// Open a token-for-native-currency order in either direction: freeze the
/// terms, fund the vault with the direction's deposit, and hand the vault
/// to the derived authority. On refusal nothing changes.
pub fn create(
    ctx: &mut MarketTsCreate,
    _vault_account_bump: u8,
    token: u64,
    token_amount: u64,
    sol_amount: u64,
    ex_type: ExType,
    now_ts: i64,
) -> (r: Result<(), Wen3ExError>)
    requires
        create_wiring(*old(ctx), token),
    ensures
        match r {
            Ok(()) => {
                &&& create_admitted(*old(ctx), token_amount, sol_amount, ex_type)
                &&& create_effect(
                    *old(ctx),
                    *final(ctx),
                    token,
                    token_amount,
                    sol_amount,
                    ex_type,
                    now_ts,
                )
            },
            Err(e) => {
                &&& *final(ctx) == *old(ctx)
                &&& !create_admitted(*old(ctx), token_amount, sol_amount, ex_type)
                &&& e == create_refusal(*old(ctx), token_amount, sol_amount, ex_type)
            },
        },
{
    if token_amount == 0 || sol_amount == 0 {
        return Err(Wen3ExError::InvalidAmount);
    }
    if ex_type == ExType::TokenToSol {
        if ctx.creator_token_account.amount < token_amount {
            return Err(Wen3ExError::InvalidAmount);
        }
    } else {
        if ctx.creator.lamports < sol_amount {
            return Err(Wen3ExError::InvalidAmount);
        }
        if ctx.vault_token_account.lamports > u64::MAX - sol_amount {
            return Err(Wen3ExError::NumericalOverflowError);
        }
    }
    let derived = match derive_vault_authority(ctx.market_key, ctx.program_id) {
        Some(p) => p.0,
        None => {
            return Err(Wen3ExError::IncorrectVaultAuthorityAccount);
        },
    };
    ctx.market_account = MarketTsAccount {
        creator: ctx.creator.key,
        ex_type,
        token,
        token_amount,
        sol_amount,
        create_time: now_ts,
        state: OrderState::Open,
    };
    if ex_type == ExType::TokenToSol {
        move_tokens(&mut ctx.creator_token_account, &mut ctx.vault_token_account, token_amount);
    } else {
        fund_vault_native(&mut ctx.creator, &mut ctx.vault_token_account, sol_amount);
    }
    ctx.vault_token_account.owner = Authority::Derived { auth: derived };
    Ok(())
}

/// The wiring the runtime guarantees before a cancel is admitted: the
/// order is open, the vault holds exactly the order's outstanding deposit
/// for its direction, and the creator's receiving account holds the
/// order's asset.
pub open spec fn cancel_wiring(ctx: MarketTsCancel) -> bool {
    &&& ctx.market_account.state == OrderState::Open
    &&& ctx.vault_token_account.mint == ctx.market_account.token
    &&& ctx.creator_token_account.mint == ctx.market_account.token
    &&& ctx.creator_token_account.owner == (Authority::Party { key: ctx.creator.key })
    &&& ctx.vault_token_account.amount == (if ctx.market_account.ex_type == ExType::TokenToSol {
        ctx.market_account.token_amount
    } else {
        0
    })
}

/// A cancel is admitted when the caller is the recorded creator, the
/// vault is controlled by the authority derivation reproduces, the vault
/// covers the native deposit when buying, and no balance adjustment
/// overflows.
pub open spec fn cancel_admitted(ctx: MarketTsCancel) -> bool {
    &&& ctx.market_account.creator == ctx.creator.key
    &&& (spec_vault_authority(ctx.market_key, ctx.program_id) matches Some(auth)
        && ctx.vault_authority == auth
        && ctx.vault_token_account.owner == (Authority::Derived { auth }))
    &&& (ctx.market_account.ex_type == ExType::TokenToSol
        ==> ctx.creator_token_account.amount + ctx.market_account.token_amount <= u64::MAX)
    &&& (ctx.market_account.ex_type == ExType::SolToToken
        ==> ctx.market_account.sol_amount <= ctx.vault_token_account.lamports)
    &&& ctx.creator.lamports + ctx.vault_token_account.lamports <= u64::MAX
}

/// The error a refused cancel reports, in the order the checks run.
pub open spec fn cancel_refusal(ctx: MarketTsCancel) -> Wen3ExError {
    if ctx.market_account.creator != ctx.creator.key {
        Wen3ExError::InvalidAuthority
    } else if !(spec_vault_authority(ctx.market_key, ctx.program_id) matches Some(auth)
        && ctx.vault_authority == auth) {
        Wen3ExError::IncorrectVaultAuthorityAccount
    } else if !(spec_vault_authority(ctx.market_key, ctx.program_id) matches Some(auth)
        && ctx.vault_token_account.owner == (Authority::Derived { auth })) {
        Wen3ExError::InvalidAuthority
    } else {
        Wen3ExError::NumericalOverflowError
    }
}

/// The whole effect of a successful cancel: the deposit of the order's
/// direction — asset or native currency — and the vault's residue all
/// come back to the creator, and the record is closed as cancelled.
pub open spec fn cancel_effect(pre: MarketTsCancel, post: MarketTsCancel) -> bool {
    &&& (if pre.market_account.ex_type == ExType::TokenToSol {
        post.creator_token_account == (TokenAccount {
            amount: (pre.creator_token_account.amount + pre.market_account.token_amount) as u64,
            ..pre.creator_token_account
        })
    } else {
        post.creator_token_account == pre.creator_token_account
    })
    &&& post.vault_token_account == (TokenAccount {
        amount: 0,
        lamports: 0,
        ..pre.vault_token_account
    })
    &&& post.creator == (PartyAccount {
        lamports: (pre.creator.lamports + pre.vault_token_account.lamports) as u64,
        ..pre.creator
    })
    &&& post.market_account == (MarketTsAccount { state: OrderState::Cancelled, ..pre.market_account })
    &&& post.vault_authority == pre.vault_authority
    &&& post.market_key == pre.market_key
    &&& post.program_id == pre.program_id
}

/// Cancel an open token-for-native-currency order: only the recorded
/// creator may, and the whole deposit of the order's direction plus the
/// vault's residue comes back. On refusal nothing changes.
pub fn cancel(ctx: &mut MarketTsCancel) -> (r: Result<(), Wen3ExError>)
    requires
        cancel_wiring(*old(ctx)),
    ensures
        crate::lifecycle::order_evolves(
            old(ctx).market_account.state,
            final(ctx).market_account.state,
        ),
        match r {
            Ok(()) => {
                &&& cancel_admitted(*old(ctx))
                &&& cancel_effect(*old(ctx), *final(ctx))
            },
            Err(e) => {
                &&& *final(ctx) == *old(ctx)
                &&& !cancel_admitted(*old(ctx))
                &&& e == cancel_refusal(*old(ctx))
            },
        },
{
    if ctx.market_account.creator != ctx.creator.key {
        return Err(Wen3ExError::InvalidAuthority);
    }
    let derived = match derive_vault_authority(ctx.market_key, ctx.program_id) {
        Some(p) => p.0,
        None => {
            return Err(Wen3ExError::IncorrectVaultAuthorityAccount);
        },
    };
    if !(ctx.vault_authority == derived) {
        return Err(Wen3ExError::IncorrectVaultAuthorityAccount);
    }
    if !(ctx.vault_token_account.owner == (Authority::Derived { auth: derived })) {
        return Err(Wen3ExError::InvalidAuthority);
    }
    if ctx.market_account.ex_type == ExType::TokenToSol {
        if ctx.creator_token_account.amount > u64::MAX - ctx.market_account.token_amount {
            return Err(Wen3ExError::NumericalOverflowError);
        }
    } else {
        if ctx.vault_token_account.lamports < ctx.market_account.sol_amount {
            return Err(Wen3ExError::NumericalOverflowError);
        }
    }
    if ctx.creator.lamports > u64::MAX - ctx.vault_token_account.lamports {
        return Err(Wen3ExError::NumericalOverflowError);
    }
    if ctx.market_account.ex_type == ExType::TokenToSol {
        move_tokens(
            &mut ctx.vault_token_account,
            &mut ctx.creator_token_account,
            ctx.market_account.token_amount,
        );
    } else {
        debit_vault_native(&mut ctx.vault_token_account, &mut ctx.creator, ctx.market_account.sol_amount);
    }
    release_vault(&mut ctx.vault_token_account, &mut ctx.creator);
    ctx.market_account.state = OrderState::Cancelled;
    Ok(())
}

/// The wiring the runtime guarantees before an exchange is admitted.
pub open spec fn exchange_wiring(ctx: MarketTsExchange) -> bool {
    &&& ctx.market_account.state == OrderState::Open
    &&& ctx.market_account.creator == ctx.creator.key
    &&& ctx.taker_token_account.mint == ctx.market_account.token
    &&& ctx.vault_token_account.mint == ctx.market_account.token
    &&& ctx.vault_token_account.amount == (if ctx.market_account.ex_type == ExType::TokenToSol {
        ctx.market_account.token_amount
    } else {
        0
    })
    &&& (ctx.market_account.ex_type == ExType::SolToToken
        ==> ctx.taker_token_account.owner == (Authority::Party { key: ctx.taker.key }))
    &&& (ctx.creator_token_account matches Some(cta) ==> cta.mint == ctx.market_account.token)
}

/// An exchange is admitted when the taker's offer — native currency when
/// the creator sells, the asset when the creator buys — covers the
/// order, a receiving account of the recorded creator's is supplied where
/// the asset flows to the creator, the vault is controlled by the
/// authority derivation reproduces, and no balance adjustment under- or
/// overflows.
pub open spec fn exchange_admitted(ctx: MarketTsExchange) -> bool {
    &&& (spec_vault_authority(ctx.market_key, ctx.program_id) matches Some(auth)
        && ctx.vault_authority == auth
        && ctx.vault_token_account.owner == (Authority::Derived { auth }))
    &&& (if ctx.market_account.ex_type == ExType::TokenToSol {
        &&& ctx.market_account.sol_amount <= ctx.taker.lamports
        &&& ctx.taker_token_account.amount + ctx.market_account.token_amount <= u64::MAX
        &&& ctx.creator.lamports + ctx.market_account.sol_amount
            + ctx.vault_token_account.lamports <= u64::MAX
    } else {
        &&& (ctx.creator_token_account matches Some(cta)
            && cta.owner == (Authority::Party { key: ctx.market_account.creator })
            && cta.amount + ctx.market_account.token_amount <= u64::MAX)
        &&& ctx.market_account.token_amount <= ctx.taker_token_account.amount
        &&& ctx.market_account.sol_amount <= ctx.vault_token_account.lamports
        &&& ctx.taker.lamports + ctx.market_account.sol_amount <= u64::MAX
        &&& ctx.creator.lamports + (ctx.vault_token_account.lamports
            - ctx.market_account.sol_amount) <= u64::MAX
    })
}

/// The error a refused exchange reports, in the order the checks run for
/// the order's direction.
pub open spec fn exchange_refusal(ctx: MarketTsExchange) -> Wen3ExError {
    if ctx.market_account.ex_type == ExType::TokenToSol {
        if ctx.taker.lamports < ctx.market_account.sol_amount {
            Wen3ExError::InvalidAmount
        } else if !(spec_vault_authority(ctx.market_key, ctx.program_id) matches Some(auth)
            && ctx.vault_authority == auth) {
            Wen3ExError::IncorrectVaultAuthorityAccount
        } else if !(spec_vault_authority(ctx.market_key, ctx.program_id) matches Some(auth)
            && ctx.vault_token_account.owner == (Authority::Derived { auth })) {
            Wen3ExError::InvalidAuthority
        } else {
            Wen3ExError::NumericalOverflowError
        }
    } else {
        if ctx.creator_token_account is None {
            Wen3ExError::NoCreatorTokenAccount
        } else if !(ctx.creator_token_account matches Some(cta)
            && cta.owner == (Authority::Party { key: ctx.market_account.creator })) {
            Wen3ExError::IncorrectCreatorTokenAccount
        } else if ctx.taker_token_account.amount < ctx.market_account.token_amount {
            Wen3ExError::InvalidAmount
        } else if !(spec_vault_authority(ctx.market_key, ctx.program_id) matches Some(auth)
            && ctx.vault_authority == auth) {
            Wen3ExError::IncorrectVaultAuthorityAccount
        } else if !(spec_vault_authority(ctx.market_key, ctx.program_id) matches Some(auth)
            && ctx.vault_token_account.owner == (Authority::Derived { auth })) {
            Wen3ExError::InvalidAuthority
        } else {
            Wen3ExError::NumericalOverflowError
        }
    }
}

/// The whole effect of a successful exchange, per the settlement table.
/// Selling: the taker pays the price straight to the creator and takes
/// the escrowed asset; the vault's residue is released to the creator.
/// Buying: the taker delivers the asset to the creator's receiving
/// account and is paid the committed native amount out of the vault; the
/// vault's remainder is released to the creator.
pub open spec fn exchange_effect(pre: MarketTsExchange, post: MarketTsExchange) -> bool {
    &&& (if pre.market_account.ex_type == ExType::TokenToSol {
        &&& post.taker == (PartyAccount {
            lamports: (pre.taker.lamports - pre.market_account.sol_amount) as u64,
            ..pre.taker
        })
        &&& post.creator == (PartyAccount {
            lamports: (pre.creator.lamports + pre.market_account.sol_amount
                + pre.vault_token_account.lamports) as u64,
            ..pre.creator
        })
        &&& post.taker_token_account == (TokenAccount {
            amount: (pre.taker_token_account.amount + pre.market_account.token_amount) as u64,
            ..pre.taker_token_account
        })
        &&& post.creator_token_account == pre.creator_token_account
    } else {
        &&& post.taker_token_account == (TokenAccount {
            amount: (pre.taker_token_account.amount - pre.market_account.token_amount) as u64,
            ..pre.taker_token_account
        })
        &&& (pre.creator_token_account matches Some(cta)
            && post.creator_token_account == Some(TokenAccount {
                amount: (cta.amount + pre.market_account.token_amount) as u64,
                ..cta
            }))
        &&& post.taker == (PartyAccount {
            lamports: (pre.taker.lamports + pre.market_account.sol_amount) as u64,
            ..pre.taker
        })
        &&& post.creator == (PartyAccount {
            lamports: (pre.creator.lamports + pre.vault_token_account.lamports
                - pre.market_account.sol_amount) as u64,
            ..pre.creator
        })
    })
    &&& post.vault_token_account == (TokenAccount {
        amount: 0,
        lamports: 0,
        ..pre.vault_token_account
    })
    &&& post.market_account == (MarketTsAccount { state: OrderState::Exchanged, ..pre.market_account })
    &&& post.vault_authority == pre.vault_authority
    &&& post.market_key == pre.market_key
    &&& post.program_id == pre.program_id
}

/// Exchange an open token-for-native-currency order in its recorded
/// direction. Both legs and the close happen, or nothing does; in the
/// buying direction a vault that cannot cover the committed amount
/// aborts with `NumericalOverflowError` and the order stays open.
pub fn exchange(ctx: &mut MarketTsExchange) -> (r: Result<(), Wen3ExError>)
    requires
        exchange_wiring(*old(ctx)),
    ensures
        crate::lifecycle::order_evolves(
            old(ctx).market_account.state,
            final(ctx).market_account.state,
        ),
        match r {
            Ok(()) => {
                &&& exchange_admitted(*old(ctx))
                &&& exchange_effect(*old(ctx), *final(ctx))
            },
            Err(e) => {
                &&& *final(ctx) == *old(ctx)
                &&& !exchange_admitted(*old(ctx))
                &&& e == exchange_refusal(*old(ctx))
            },
        },
{
    if ctx.market_account.ex_type == ExType::TokenToSol {
        if ctx.taker.lamports < ctx.market_account.sol_amount {
            return Err(Wen3ExError::InvalidAmount);
        }
        let derived = match derive_vault_authority(ctx.market_key, ctx.program_id) {
            Some(p) => p.0,
            None => {
                return Err(Wen3ExError::IncorrectVaultAuthorityAccount);
            },
        };
        if !(ctx.vault_authority == derived) {
            return Err(Wen3ExError::IncorrectVaultAuthorityAccount);
        }
        if !(ctx.vault_token_account.owner == (Authority::Derived { auth: derived })) {
            return Err(Wen3ExError::InvalidAuthority);
        }
        if ctx.taker_token_account.amount > u64::MAX - ctx.market_account.token_amount {
            return Err(Wen3ExError::NumericalOverflowError);
        }
        if ctx.market_account.sol_amount > u64::MAX - ctx.vault_token_account.lamports
            || ctx.creator.lamports > u64::MAX
                - (ctx.market_account.sol_amount + ctx.vault_token_account.lamports) {
            return Err(Wen3ExError::NumericalOverflowError);
        }
        pay_native(&mut ctx.taker, &mut ctx.creator, ctx.market_account.sol_amount);
        move_tokens(
            &mut ctx.vault_token_account,
            &mut ctx.taker_token_account,
            ctx.market_account.token_amount,
        );
        release_vault(&mut ctx.vault_token_account, &mut ctx.creator);
        ctx.market_account.state = OrderState::Exchanged;
        Ok(())
    } else {
        let creator_token = match &ctx.creator_token_account {
            Some(cta) => *cta,
            None => {
                return Err(Wen3ExError::NoCreatorTokenAccount);
            },
        };
        if !(creator_token.owner == (Authority::Party { key: ctx.market_account.creator })) {
            return Err(Wen3ExError::IncorrectCreatorTokenAccount);
        }
        if ctx.taker_token_account.amount < ctx.market_account.token_amount {
            return Err(Wen3ExError::InvalidAmount);
        }
        let derived = match derive_vault_authority(ctx.market_key, ctx.program_id) {
            Some(p) => p.0,
            None => {
                return Err(Wen3ExError::IncorrectVaultAuthorityAccount);
            },
        };
        if !(ctx.vault_authority == derived) {
            return Err(Wen3ExError::IncorrectVaultAuthorityAccount);
        }
        if !(ctx.vault_token_account.owner == (Authority::Derived { auth: derived })) {
            return Err(Wen3ExError::InvalidAuthority);
        }
        if creator_token.amount > u64::MAX - ctx.market_account.token_amount {
            return Err(Wen3ExError::NumericalOverflowError);
        }
        if ctx.vault_token_account.lamports < ctx.market_account.sol_amount {
            return Err(Wen3ExError::NumericalOverflowError);
        }
        if ctx.taker.lamports > u64::MAX - ctx.market_account.sol_amount {
            return Err(Wen3ExError::NumericalOverflowError);
        }
        if ctx.creator.lamports
            > u64::MAX - (ctx.vault_token_account.lamports - ctx.market_account.sol_amount) {
            return Err(Wen3ExError::NumericalOverflowError);
        }
        let mut updated_creator_token = creator_token;
        move_tokens(
            &mut ctx.taker_token_account,
            &mut updated_creator_token,
            ctx.market_account.token_amount,
        );
        ctx.creator_token_account = Some(updated_creator_token);
        debit_vault_native(&mut ctx.vault_token_account, &mut ctx.taker, ctx.market_account.sol_amount);
        release_vault(&mut ctx.vault_token_account, &mut ctx.creator);
        ctx.market_account.state = OrderState::Exchanged;
        Ok(())
    }
}

} // verus!
