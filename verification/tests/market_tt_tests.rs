use wen3ex::authority::derive_vault_authority;
use wen3ex::errors::Wen3ExError;
use wen3ex::ledger::{Authority, PartyAccount, TokenAccount};
use wen3ex::lifecycle::OrderState;
use wen3ex::market_tt::{self, MarketTtCancel, MarketTtCreate, MarketTtExchange};

const ASSET_A: u64 = 1;
const ASSET_B: u64 = 2;
const CREATOR: u64 = 11;
const TAKER: u64 = 22;
const MARKET_KEY: u64 = 1000;
const PROGRAM_ID: u64 = 7;
const RENT: u64 = 10;

fn fresh_create_ctx() -> MarketTtCreate {
    MarketTtCreate {
        vault_token_account: TokenAccount {
            owner: Authority::Party { key: CREATOR },
            mint: ASSET_A,
            amount: 0,
            lamports: RENT,
        },
        market_account: wen3ex::market_tt::MarketTtAccount {
            version: 0,
            creator: 0,
            deposit_token: 0,
            deposit_amount: 0,
            receive_token: 0,
            receive_amount: 0,
            create_time: 0,
            state: OrderState::Open,
        },
        deposit_token_account: TokenAccount {
            owner: Authority::Party { key: CREATOR },
            mint: ASSET_A,
            amount: 500,
            lamports: 0,
        },
        receive_token_account: TokenAccount {
            owner: Authority::Party { key: CREATOR },
            mint: ASSET_B,
            amount: 0,
            lamports: 0,
        },
        creator: PartyAccount { key: CREATOR, lamports: 900 },
        market_key: MARKET_KEY,
        program_id: PROGRAM_ID,
    }
}

fn created_ctx() -> MarketTtCreate {
    let mut ctx = fresh_create_ctx();
    market_tt::create(&mut ctx, 100, 50, ASSET_A, ASSET_B, 777).expect("create should succeed");
    ctx
}

#[test]
fn create_opens_order_and_funds_vault() {
    let ctx = created_ctx();
    let derived = derive_vault_authority(MARKET_KEY, PROGRAM_ID).unwrap().0;
    assert_eq!(ctx.market_account.creator, CREATOR);
    assert_eq!(ctx.market_account.deposit_amount, 100);
    assert_eq!(ctx.market_account.receive_amount, 50);
    assert_eq!(ctx.market_account.create_time, 777);
    assert_eq!(ctx.market_account.state, OrderState::Open);
    assert_eq!(ctx.vault_token_account.amount, 100);
    assert_eq!(ctx.vault_token_account.owner, Authority::Derived { auth: derived });
    assert_eq!(ctx.deposit_token_account.amount, 400);
}

#[test]
fn create_rejects_zero_amounts() {
    let mut ctx = fresh_create_ctx();
    let r = market_tt::create(&mut ctx, 0, 50, ASSET_A, ASSET_B, 777);
    assert_eq!(r, Err(Wen3ExError::InvalidAmount));
    assert_eq!(ctx.deposit_token_account.amount, 500);
    let r = market_tt::create(&mut ctx, 100, 0, ASSET_A, ASSET_B, 777);
    assert_eq!(r, Err(Wen3ExError::InvalidAmount));
}

#[test]
fn create_rejects_uncovered_deposit() {
    let mut ctx = fresh_create_ctx();
    let r = market_tt::create(&mut ctx, 501, 50, ASSET_A, ASSET_B, 777);
    assert_eq!(r, Err(Wen3ExError::InvalidAmount));
    assert_eq!(ctx.vault_token_account.amount, 0);
}

fn cancel_ctx_after_create(created: &MarketTtCreate) -> MarketTtCancel {
    let derived = derive_vault_authority(MARKET_KEY, PROGRAM_ID).unwrap().0;
    MarketTtCancel {
        creator: created.creator,
        deposit_token_account: created.deposit_token_account,
        vault_token_account: created.vault_token_account,
        vault_authority: derived,
        market_account: created.market_account,
        market_key: created.market_key,
        program_id: created.program_id,
    }
}

#[test]
fn round_trip_returns_exactly_the_deposit() {
    let created = created_ctx();
    let mut ctx = cancel_ctx_after_create(&created);
    market_tt::cancel(&mut ctx).expect("cancel should succeed");
    assert_eq!(ctx.deposit_token_account.amount, 500);
    assert_eq!(ctx.vault_token_account.amount, 0);
    assert_eq!(ctx.vault_token_account.lamports, 0);
    assert_eq!(ctx.creator.lamports, 900 + RENT);
    assert_eq!(ctx.market_account.state, OrderState::Cancelled);
}

#[test]
fn tt_cancel_by_stranger_fails_with_invalid_authority() {
    let created = created_ctx();
    let mut ctx = cancel_ctx_after_create(&created);
    ctx.creator.key = TAKER;
    ctx.deposit_token_account.owner = Authority::Party { key: TAKER };
    let before = ctx;
    let r = market_tt::cancel(&mut ctx);
    assert_eq!(r, Err(Wen3ExError::InvalidAuthority));
    assert_eq!(ctx, before);
    assert_eq!(ctx.market_account.state, OrderState::Open);
}

#[test]
fn cancel_with_forged_authority_fails() {
    let created = created_ctx();
    let mut ctx = cancel_ctx_after_create(&created);
    ctx.vault_authority.w0 = ctx.vault_authority.w0.wrapping_add(1);
    let r = market_tt::cancel(&mut ctx);
    assert_eq!(r, Err(Wen3ExError::IncorrectVaultAuthorityAccount));
    assert_eq!(ctx.market_account.state, OrderState::Open);
}

fn exchange_ctx_after_create(created: &MarketTtCreate, taker_b_amount: u64) -> MarketTtExchange {
    let derived = derive_vault_authority(MARKET_KEY, PROGRAM_ID).unwrap().0;
    MarketTtExchange {
        taker: PartyAccount { key: TAKER, lamports: 50 },
        taker_deposit_token_account: TokenAccount {
            owner: Authority::Party { key: TAKER },
            mint: ASSET_B,
            amount: taker_b_amount,
            lamports: 0,
        },
        taker_receive_token_account: TokenAccount {
            owner: Authority::Party { key: TAKER },
            mint: ASSET_A,
            amount: 0,
            lamports: 0,
        },
        creator_deposit_token_account: created.deposit_token_account,
        creator_receive_token_account: created.receive_token_account,
        creator: created.creator,
        market_account: created.market_account,
        vault_token_account: created.vault_token_account,
        vault_authority: derived,
        market_key: created.market_key,
        program_id: created.program_id,
    }
}

#[test]
fn exchange_settles_both_legs_and_closes() {
    let created = created_ctx();
    let mut ctx = exchange_ctx_after_create(&created, 50);
    market_tt::exchange(&mut ctx).expect("exchange should succeed");
    assert_eq!(ctx.creator_receive_token_account.amount, 50);
    assert_eq!(ctx.taker_deposit_token_account.amount, 0);
    assert_eq!(ctx.taker_receive_token_account.amount, 100);
    assert_eq!(ctx.vault_token_account.amount, 0);
    assert_eq!(ctx.vault_token_account.lamports, 0);
    assert_eq!(ctx.creator.lamports, 900 + RENT);
    assert_eq!(ctx.taker.lamports, 50);
    assert_eq!(ctx.market_account.state, OrderState::Exchanged);
}

#[test]
fn tt_exchange_with_short_taker_leaves_order_open() {
    let created = created_ctx();
    let mut ctx = exchange_ctx_after_create(&created, 49);
    let before = ctx;
    let r = market_tt::exchange(&mut ctx);
    assert_eq!(r, Err(Wen3ExError::InvalidAmount));
    assert_eq!(ctx, before);
    assert_eq!(ctx.market_account.state, OrderState::Open);
}

#[test]
fn tt_exchange_with_misowned_creator_account_fails() {
    let created = created_ctx();
    let mut ctx = exchange_ctx_after_create(&created, 50);
    ctx.creator_receive_token_account.owner = Authority::Party { key: TAKER };
    let r = market_tt::exchange(&mut ctx);
    assert_eq!(r, Err(Wen3ExError::IncorrectCreatorTokenAccount));
    assert_eq!(ctx.market_account.state, OrderState::Open);
}

#[test]
fn exchange_overflowing_receive_account_fails() {
    let created = created_ctx();
    let mut ctx = exchange_ctx_after_create(&created, 50);
    ctx.creator_receive_token_account.amount = u64::MAX;
    let r = market_tt::exchange(&mut ctx);
    assert_eq!(r, Err(Wen3ExError::NumericalOverflowError));
    assert_eq!(ctx.market_account.state, OrderState::Open);
}

#[test]
fn settled_order_admits_no_second_settlement() {
    let created = created_ctx();
    let mut ex = exchange_ctx_after_create(&created, 50);
    market_tt::exchange(&mut ex).expect("exchange should succeed");
    assert_eq!(ex.market_account.state, OrderState::Exchanged);
    assert_ne!(ex.market_account.state, OrderState::Open);
}

#[test]
fn exchange_conserves_value_across_parties() {
    let created = created_ctx();
    let pre = exchange_ctx_after_create(&created, 50);
    let mut ctx = pre;
    market_tt::exchange(&mut ctx).expect("exchange should succeed");
    assert_eq!(
        ctx.taker_deposit_token_account.amount + ctx.creator_receive_token_account.amount,
        pre.taker_deposit_token_account.amount + pre.creator_receive_token_account.amount
    );
    assert_eq!(
        ctx.taker_receive_token_account.amount + ctx.vault_token_account.amount,
        pre.taker_receive_token_account.amount + pre.vault_token_account.amount
    );
    assert_eq!(
        ctx.creator.lamports + ctx.taker.lamports + ctx.vault_token_account.lamports,
        pre.creator.lamports + pre.taker.lamports + pre.vault_token_account.lamports
    );
}
