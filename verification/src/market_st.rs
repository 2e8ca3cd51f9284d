//! The native-currency-for-token market: the creator deposits native
//! currency to buy a fungible asset.
//!
//! The creator funds the vault with `sol_amount` of native currency at
//! creation. A taker delivers `token_amount` of the asset to a receiving
//! account of the creator's, pays the creator the difference between the
//! vault's balance and the committed amount — compensation for the
//! resources the creator spent opening the vault — and takes the whole
//! vault balance on close, netting exactly the committed amount.

use vstd::prelude::*;
use crate::authority::{derive_vault_authority, spec_vault_authority, DerivedAuthority};
use crate::errors::Wen3ExError;
use crate::ledger::{Authority, PartyAccount, TokenAccount};
use crate::lifecycle::OrderState;
use crate::settlement::{fund_vault_native, move_tokens, pay_native, release_vault};

verus! {

/// The order record of a native-currency-for-token escrow.
#[derive(Clone, Copy, Debug, PartialEq, Eq, Structural)]
pub struct MarketStAccount {
    pub version: u32,
    pub creator: u64,
    pub token: u64,
    pub token_amount: u64,
    pub sol_amount: u64,
    pub create_time: i64,
    pub state: OrderState,
}

/// The accounts a create operates on. The creator's token account plays
/// no part in creation; it is only wired for the later exchange.
#[derive(Clone, Copy, Debug, PartialEq, Eq, Structural)]
pub struct MarketStCreate {
    pub market_account: MarketStAccount,
    pub vault_token_account: TokenAccount,
    pub creator_token_account: TokenAccount,
    pub creator: PartyAccount,
    pub market_key: u64,
    pub program_id: u64,
}

/// The accounts a cancel operates on.
#[derive(Clone, Copy, Debug, PartialEq, Eq, Structural)]
pub struct MarketStCancel {
    pub creator: PartyAccount,
    pub creator_token_account: TokenAccount,
    pub vault_token_account: TokenAccount,
    pub vault_authority: DerivedAuthority,
    pub market_account: MarketStAccount,
    pub market_key: u64,
    pub program_id: u64,
}

/// The accounts an exchange operates on. The creator's receiving account
/// is supplied by the caller — it cannot be registered at creation time —
/// so it may be absent or belong to the wrong party.
#[derive(Clone, Copy, Debug, PartialEq, Eq, Structural)]
pub struct MarketStExchange {
    pub taker: PartyAccount,
    pub taker_token_account: TokenAccount,
    pub creator: PartyAccount,
    pub creator_token_account: Option<TokenAccount>,
    pub market_account: MarketStAccount,
    pub vault_token_account: TokenAccount,
    pub vault_authority: DerivedAuthority,
    pub market_key: u64,
    pub program_id: u64,
}

/// The wiring the runtime guarantees before a create is admitted: a
/// fresh, empty vault still under the creator's own authority.
pub open spec fn create_wiring(ctx: MarketStCreate) -> bool {
    &&& ctx.vault_token_account.amount == 0
    &&& ctx.vault_token_account.owner == (Authority::Party { key: ctx.creator.key })
    &&& ctx.creator_token_account.mint == ctx.vault_token_account.mint
}

/// A create is admitted when both amounts are positive, the creator's
/// native balance covers the deposit, funding the vault cannot overflow,
/// and the order's authority can be derived.
pub open spec fn create_admitted(ctx: MarketStCreate, token_amount: u64, sol_amount: u64) -> bool {
    &&& 0 < token_amount
    &&& 0 < sol_amount
    &&& sol_amount <= ctx.creator.lamports
    &&& spec_vault_authority(ctx.market_key, ctx.program_id) is Some
    &&& ctx.vault_token_account.lamports + sol_amount <= u64::MAX
}

/// The error a refused create reports, in the order the checks run.
pub open spec fn create_refusal(ctx: MarketStCreate, token_amount: u64, sol_amount: u64) -> Wen3ExError {
    if !(0 < token_amount && 0 < sol_amount && sol_amount <= ctx.creator.lamports) {
        Wen3ExError::InvalidAmount
    } else if spec_vault_authority(ctx.market_key, ctx.program_id) is None {
        Wen3ExError::IncorrectVaultAuthorityAccount
    } else {
        Wen3ExError::NumericalOverflowError
    }
}

/// The whole effect of a successful create: the record is initialized and
/// open, the deposit moves from the creator's native balance into the
/// vault's own holding address, and the vault is re-pointed at the
/// derived authority.
pub open spec fn create_effect(
    pre: MarketStCreate,
    post: MarketStCreate,
    token_amount: u64,
    sol_amount: u64,
    now_ts: i64,
) -> bool {
    &&& post.market_account == (MarketStAccount {
        version: 0,
        creator: pre.creator.key,
        token: pre.vault_token_account.mint,
        token_amount,
        sol_amount,
        create_time: now_ts,
        state: OrderState::Open,
    })
    &&& (spec_vault_authority(pre.market_key, pre.program_id) matches Some(auth)
        && post.vault_token_account == (TokenAccount {
            owner: Authority::Derived { auth },
            lamports: (pre.vault_token_account.lamports + sol_amount) as u64,
            ..pre.vault_token_account
        }))
    &&& post.creator == (PartyAccount {
        lamports: (pre.creator.lamports - sol_amount) as u64,
        ..pre.creator
    })
    &&& post.creator_token_account == pre.creator_token_account
    &&& post.market_key == pre.market_key
    &&& post.program_id == pre.program_id
}

/// Open a native-currency-for-token order: freeze the terms, fund the
/// vault with the native deposit, and hand the vault to the derived
/// authority. On refusal nothing changes.
pub fn create(
    ctx: &mut MarketStCreate,
    token_amount: u64,
    sol_amount: u64,
    now_ts: i64,
) -> (r: Result<(), Wen3ExError>)
    requires
        create_wiring(*old(ctx)),
    ensures
        match r {
            Ok(()) => {
                &&& create_admitted(*old(ctx), token_amount, sol_amount)
                &&& create_effect(*old(ctx), *final(ctx), token_amount, sol_amount, now_ts)
            },
            Err(e) => {
                &&& *final(ctx) == *old(ctx)
                &&& !create_admitted(*old(ctx), token_amount, sol_amount)
                &&& e == create_refusal(*old(ctx), token_amount, sol_amount)
            },
        },
{
    if token_amount == 0 || sol_amount == 0 {
        return Err(Wen3ExError::InvalidAmount);
    }
    if ctx.creator.lamports < sol_amount {
        return Err(Wen3ExError::InvalidAmount);
    }
    let derived = match derive_vault_authority(ctx.market_key, ctx.program_id) {
        Some(p) => p.0,
        None => {
            return Err(Wen3ExError::IncorrectVaultAuthorityAccount);
        },
    };
    if ctx.vault_token_account.lamports > u64::MAX - sol_amount {
        return Err(Wen3ExError::NumericalOverflowError);
    }
    ctx.market_account = MarketStAccount {
        version: 0,
        creator: ctx.creator.key,
        token: ctx.vault_token_account.mint,
        token_amount,
        sol_amount,
        create_time: now_ts,
        state: OrderState::Open,
    };
    fund_vault_native(&mut ctx.creator, &mut ctx.vault_token_account, sol_amount);
    ctx.vault_token_account.owner = Authority::Derived { auth: derived };
    Ok(())
}

/// The wiring the runtime guarantees before a cancel is admitted: the
/// order is open and the vault is the order's own, holding no asset.
pub open spec fn cancel_wiring(ctx: MarketStCancel) -> bool {
    &&& ctx.market_account.state == OrderState::Open
    &&& ctx.vault_token_account.mint == ctx.market_account.token
    &&& ctx.vault_token_account.amount == 0
    &&& ctx.creator_token_account.mint == ctx.market_account.token
    &&& ctx.creator_token_account.owner == (Authority::Party { key: ctx.creator.key })
}

/// A cancel is admitted when the caller is the recorded creator, the
/// vault is controlled by the authority derivation reproduces, and the
/// refund cannot overflow.
pub open spec fn cancel_admitted(ctx: MarketStCancel) -> bool {
    &&& ctx.market_account.creator == ctx.creator.key
    &&& (spec_vault_authority(ctx.market_key, ctx.program_id) matches Some(auth)
        && ctx.vault_authority == auth
        && ctx.vault_token_account.owner == (Authority::Derived { auth }))
    &&& ctx.creator.lamports + ctx.vault_token_account.lamports <= u64::MAX
}

/// The error a refused cancel reports, in the order the checks run.
pub open spec fn cancel_refusal(ctx: MarketStCancel) -> Wen3ExError {
    if ctx.market_account.creator != ctx.creator.key {
        Wen3ExError::InvalidAuthority
    } else if !(spec_vault_authority(ctx.market_key, ctx.program_id) matches Some(auth)
        && ctx.vault_authority == auth) {
        Wen3ExError::IncorrectVaultAuthorityAccount
    } else if !(spec_vault_authority(ctx.market_key, ctx.program_id) matches Some(auth)
        && ctx.vault_token_account.owner == (Authority::Derived { auth })) {
        Wen3ExError::InvalidAuthority
    } else {
        Wen3ExError::NumericalOverflowError
    }
}

/// The whole effect of a successful cancel: the vault is released whole —
/// native deposit and residue alike — back to the creator, and the record
/// is closed as cancelled.
pub open spec fn cancel_effect(pre: MarketStCancel, post: MarketStCancel) -> bool {
    &&& post.creator == (PartyAccount {
        lamports: (pre.creator.lamports + pre.vault_token_account.lamports) as u64,
        ..pre.creator
    })
    &&& post.vault_token_account == (TokenAccount { lamports: 0, ..pre.vault_token_account })
    &&& post.market_account == (MarketStAccount { state: OrderState::Cancelled, ..pre.market_account })
    &&& post.creator_token_account == pre.creator_token_account
    &&& post.vault_authority == pre.vault_authority
    &&& post.market_key == pre.market_key
    &&& post.program_id == pre.program_id
}

/// Cancel an open native-currency-for-token order: only the recorded
/// creator may, and the whole native deposit plus the vault's residue
/// comes back. On refusal nothing changes.
pub fn cancel(ctx: &mut MarketStCancel) -> (r: Result<(), Wen3ExError>)
    requires
        cancel_wiring(*old(ctx)),
    ensures
        crate::lifecycle::order_evolves(
            old(ctx).market_account.state,
            final(ctx).market_account.state,
        ),
        match r {
            Ok(()) => {
                &&& cancel_admitted(*old(ctx))
                &&& cancel_effect(*old(ctx), *final(ctx))
            },
            Err(e) => {
                &&& *final(ctx) == *old(ctx)
                &&& !cancel_admitted(*old(ctx))
                &&& e == cancel_refusal(*old(ctx))
            },
        },
{
    if ctx.market_account.creator != ctx.creator.key {
        return Err(Wen3ExError::InvalidAuthority);
    }
    let derived = match derive_vault_authority(ctx.market_key, ctx.program_id) {
        Some(p) => p.0,
        None => {
            return Err(Wen3ExError::IncorrectVaultAuthorityAccount);
        },
    };
    if !(ctx.vault_authority == derived) {
        return Err(Wen3ExError::IncorrectVaultAuthorityAccount);
    }
    if !(ctx.vault_token_account.owner == (Authority::Derived { auth: derived })) {
        return Err(Wen3ExError::InvalidAuthority);
    }
    if ctx.creator.lamports > u64::MAX - ctx.vault_token_account.lamports {
        return Err(Wen3ExError::NumericalOverflowError);
    }
    release_vault(&mut ctx.vault_token_account, &mut ctx.creator);
    ctx.market_account.state = OrderState::Cancelled;
    Ok(())
}

/// The wiring the runtime guarantees before an exchange is admitted.
pub open spec fn exchange_wiring(ctx: MarketStExchange) -> bool {
    &&& ctx.market_account.state == OrderState::Open
    &&& ctx.market_account.creator == ctx.creator.key
    &&& ctx.taker_token_account.mint == ctx.market_account.token
    &&& ctx.taker_token_account.owner == (Authority::Party { key: ctx.taker.key })
    &&& ctx.vault_token_account.mint == ctx.market_account.token
    &&& ctx.vault_token_account.amount == 0
    &&& (ctx.creator_token_account matches Some(cta) ==> cta.mint == ctx.market_account.token)
}

/// The compensation the taker owes the creator besides the asset: the
/// vault's balance beyond the committed amount, covering the resources
/// the creator spent opening the vault. Meaningful only when the vault
/// covers the committed amount.
pub open spec fn compensation(ctx: MarketStExchange) -> int {
    ctx.vault_token_account.lamports - ctx.market_account.sol_amount
}

/// An exchange is admitted when a receiving account of the recorded
/// creator's is supplied, the taker's asset balance covers the order, the
/// vault covers the committed amount — the compensation differential must
/// not underflow — the taker can pay the compensation, the vault is
/// controlled by the authority derivation reproduces, and no balance
/// adjustment overflows.
pub open spec fn exchange_admitted(ctx: MarketStExchange) -> bool {
    &&& (ctx.creator_token_account matches Some(cta)
        && cta.owner == (Authority::Party { key: ctx.market_account.creator })
        && cta.amount + ctx.market_account.token_amount <= u64::MAX)
    &&& ctx.market_account.token_amount <= ctx.taker_token_account.amount
    &&& (spec_vault_authority(ctx.market_key, ctx.program_id) matches Some(auth)
        && ctx.vault_authority == auth
        && ctx.vault_token_account.owner == (Authority::Derived { auth }))
    &&& ctx.market_account.sol_amount <= ctx.vault_token_account.lamports
    &&& compensation(ctx) <= ctx.taker.lamports
    &&& ctx.creator.lamports + compensation(ctx) <= u64::MAX
    &&& ctx.taker.lamports + ctx.market_account.sol_amount <= u64::MAX
}

/// The error a refused exchange reports, in the order the checks run: a
/// missing or misowned receiving account, an uncovered asset leg, a vault
/// not under the derived authority, then any arithmetic failure — the
/// underflowing compensation differential included.
pub open spec fn exchange_refusal(ctx: MarketStExchange) -> Wen3ExError {
    if ctx.creator_token_account is None {
        Wen3ExError::NoCreatorTokenAccount
    } else if !(ctx.creator_token_account matches Some(cta)
        && cta.owner == (Authority::Party { key: ctx.market_account.creator })) {
        Wen3ExError::IncorrectCreatorTokenAccount
    } else if ctx.taker_token_account.amount < ctx.market_account.token_amount {
        Wen3ExError::InvalidAmount
    } else if !(spec_vault_authority(ctx.market_key, ctx.program_id) matches Some(auth)
        && ctx.vault_authority == auth) {
        Wen3ExError::IncorrectVaultAuthorityAccount
    } else if !(spec_vault_authority(ctx.market_key, ctx.program_id) matches Some(auth)
        && ctx.vault_token_account.owner == (Authority::Derived { auth })) {
        Wen3ExError::InvalidAuthority
    } else if !(ctx.creator_token_account matches Some(cta)
        && cta.amount + ctx.market_account.token_amount <= u64::MAX) {
        Wen3ExError::NumericalOverflowError
    } else if ctx.vault_token_account.lamports < ctx.market_account.sol_amount {
        Wen3ExError::NumericalOverflowError
    } else if ctx.taker.lamports < compensation(ctx) {
        Wen3ExError::InvalidAmount
    } else {
        Wen3ExError::NumericalOverflowError
    }
}

/// The whole effect of a successful exchange, per the settlement table:
/// the taker delivers the asset to the creator's receiving account and
/// pays the creator the compensation differential; the whole vault
/// balance is then released to the taker on close, so the taker nets
/// exactly the committed amount.
pub open spec fn exchange_effect(pre: MarketStExchange, post: MarketStExchange) -> bool {
    &&& post.taker_token_account == (TokenAccount {
        amount: (pre.taker_token_account.amount - pre.market_account.token_amount) as u64,
        ..pre.taker_token_account
    })
    &&& (pre.creator_token_account matches Some(cta)
        && post.creator_token_account == Some(TokenAccount {
            amount: (cta.amount + pre.market_account.token_amount) as u64,
            ..cta
        }))
    &&& post.creator == (PartyAccount {
        lamports: (pre.creator.lamports + compensation(pre)) as u64,
        ..pre.creator
    })
    &&& post.taker == (PartyAccount {
        lamports: (pre.taker.lamports + pre.market_account.sol_amount) as u64,
        ..pre.taker
    })
    &&& post.vault_token_account == (TokenAccount { lamports: 0, ..pre.vault_token_account })
    &&& post.market_account == (MarketStAccount { state: OrderState::Exchanged, ..pre.market_account })
    &&& post.vault_authority == pre.vault_authority
    &&& post.market_key == pre.market_key
    &&& post.program_id == pre.program_id
}

/// Exchange an open native-currency-for-token order: the taker delivers
/// the asset to the creator's supplied receiving account, pays the
/// creator the compensation differential, and takes the whole vault
/// balance on close. Both legs and the close happen, or nothing does; in
/// particular an underflowing differential aborts the exchange with
/// `NumericalOverflowError` and the order stays open.
pub fn exchange(ctx: &mut MarketStExchange) -> (r: Result<(), Wen3ExError>)
    requires
        exchange_wiring(*old(ctx)),
    ensures
        crate::lifecycle::order_evolves(
            old(ctx).market_account.state,
            final(ctx).market_account.state,
        ),
        match r {
            Ok(()) => {
                &&& exchange_admitted(*old(ctx))
                &&& exchange_effect(*old(ctx), *final(ctx))
            },
            Err(e) => {
                &&& *final(ctx) == *old(ctx)
                &&& !exchange_admitted(*old(ctx))
                &&& e == exchange_refusal(*old(ctx))
            },
        },
{
    let creator_token = match &ctx.creator_token_account {
        Some(cta) => *cta,
        None => {
            return Err(Wen3ExError::NoCreatorTokenAccount);
        },
    };
    if !(creator_token.owner == (Authority::Party { key: ctx.market_account.creator })) {
        return Err(Wen3ExError::IncorrectCreatorTokenAccount);
    }
    if ctx.taker_token_account.amount < ctx.market_account.token_amount {
        return Err(Wen3ExError::InvalidAmount);
    }
    let derived = match derive_vault_authority(ctx.market_key, ctx.program_id) {
        Some(p) => p.0,
        None => {
            return Err(Wen3ExError::IncorrectVaultAuthorityAccount);
        },
    };
    if !(ctx.vault_authority == derived) {
        return Err(Wen3ExError::IncorrectVaultAuthorityAccount);
    }
    if !(ctx.vault_token_account.owner == (Authority::Derived { auth: derived })) {
        return Err(Wen3ExError::InvalidAuthority);
    }
    if creator_token.amount > u64::MAX - ctx.market_account.token_amount {
        return Err(Wen3ExError::NumericalOverflowError);
    }
    if ctx.vault_token_account.lamports < ctx.market_account.sol_amount {
        return Err(Wen3ExError::NumericalOverflowError);
    }
    let sol_to_creator = ctx.vault_token_account.lamports - ctx.market_account.sol_amount;
    if ctx.taker.lamports < sol_to_creator {
        return Err(Wen3ExError::InvalidAmount);
    }
    if ctx.creator.lamports > u64::MAX - sol_to_creator {
        return Err(Wen3ExError::NumericalOverflowError);
    }
    if ctx.taker.lamports > u64::MAX - ctx.market_account.sol_amount {
        return Err(Wen3ExError::NumericalOverflowError);
    }
    let mut updated_creator_token = creator_token;
    move_tokens(
        &mut ctx.taker_token_account,
        &mut updated_creator_token,
        ctx.market_account.token_amount,
    );
    ctx.creator_token_account = Some(updated_creator_token);
    pay_native(&mut ctx.taker, &mut ctx.creator, sol_to_creator);
    release_vault(&mut ctx.vault_token_account, &mut ctx.taker);
    ctx.market_account.state = OrderState::Exchanged;
    Ok(())
}

} // verus!
