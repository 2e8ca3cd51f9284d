use wen3ex::authority::derive_vault_authority;
use wen3ex::errors::Wen3ExError;
use wen3ex::ledger::{Authority, PartyAccount, TokenAccount};
use wen3ex::lifecycle::OrderState;
use wen3ex::market_ts::{self, ExType, MarketTsAccount, MarketTsCancel, MarketTsCreate, MarketTsExchange};

const ASSET: u64 = 5;
const CREATOR: u64 = 11;
const TAKER: u64 = 22;
const MARKET_KEY: u64 = 3000;
const PROGRAM_ID: u64 = 7;
const RENT: u64 = 10;

fn fresh_create_ctx() -> MarketTsCreate {
    MarketTsCreate {
        market_account: MarketTsAccount {
            creator: 0,
            ex_type: ExType::TokenToSol,
            token: 0,
            token_amount: 0,
            sol_amount: 0,
            create_time: 0,
            state: OrderState::Open,
        },
        vault_token_account: TokenAccount {
            owner: Authority::Party { key: CREATOR },
            mint: ASSET,
            amount: 0,
            lamports: RENT,
        },
        creator_token_account: TokenAccount {
            owner: Authority::Party { key: CREATOR },
            mint: ASSET,
            amount: 300,
            lamports: 0,
        },
        creator: PartyAccount { key: CREATOR, lamports: 900 },
        market_key: MARKET_KEY,
        program_id: PROGRAM_ID,
    }
}

fn created_ctx(ex_type: ExType) -> MarketTsCreate {
    let mut ctx = fresh_create_ctx();
    market_ts::create(&mut ctx, 0, ASSET, 70, 200, ex_type, 777).expect("create should succeed");
    ctx
}

#[test]
fn create_selling_escrows_the_asset() {
    let ctx = created_ctx(ExType::TokenToSol);
    assert_eq!(ctx.creator_token_account.amount, 230);
    assert_eq!(ctx.vault_token_account.amount, 70);
    assert_eq!(ctx.vault_token_account.lamports, RENT);
    assert_eq!(ctx.creator.lamports, 900);
    assert_eq!(ctx.market_account.ex_type, ExType::TokenToSol);
    assert_eq!(ctx.market_account.state, OrderState::Open);
}

#[test]
fn create_buying_escrows_native_currency() {
    let ctx = created_ctx(ExType::SolToToken);
    assert_eq!(ctx.creator_token_account.amount, 300);
    assert_eq!(ctx.vault_token_account.amount, 0);
    assert_eq!(ctx.vault_token_account.lamports, RENT + 200);
    assert_eq!(ctx.creator.lamports, 700);
    assert_eq!(ctx.market_account.ex_type, ExType::SolToToken);
}

#[test]
fn create_selling_rejects_uncovered_asset() {
    let mut ctx = fresh_create_ctx();
    let r = market_ts::create(&mut ctx, 0, ASSET, 301, 200, ExType::TokenToSol, 777);
    assert_eq!(r, Err(Wen3ExError::InvalidAmount));
}

fn cancel_ctx_after_create(created: &MarketTsCreate) -> MarketTsCancel {
    let derived = derive_vault_authority(MARKET_KEY, PROGRAM_ID).unwrap().0;
    MarketTsCancel {
        creator: created.creator,
        creator_token_account: created.creator_token_account,
        vault_token_account: created.vault_token_account,
        vault_authority: derived,
        market_account: created.market_account,
        market_key: created.market_key,
        program_id: created.program_id,
    }
}

#[test]
fn cancel_selling_returns_the_asset() {
    let created = created_ctx(ExType::TokenToSol);
    let mut ctx = cancel_ctx_after_create(&created);
    market_ts::cancel(&mut ctx).expect("cancel should succeed");
    assert_eq!(ctx.creator_token_account.amount, 300);
    assert_eq!(ctx.vault_token_account.amount, 0);
    assert_eq!(ctx.vault_token_account.lamports, 0);
    assert_eq!(ctx.creator.lamports, 900 + RENT);
    assert_eq!(ctx.market_account.state, OrderState::Cancelled);
}

#[test]
fn cancel_buying_returns_the_native_deposit() {
    let created = created_ctx(ExType::SolToToken);
    let mut ctx = cancel_ctx_after_create(&created);
    market_ts::cancel(&mut ctx).expect("cancel should succeed");
    assert_eq!(ctx.creator.lamports, 900 + RENT);
    assert_eq!(ctx.vault_token_account.lamports, 0);
    assert_eq!(ctx.market_account.state, OrderState::Cancelled);
}

#[test]
fn cancel_buying_with_drained_vault_aborts() {
    let created = created_ctx(ExType::SolToToken);
    let mut ctx = cancel_ctx_after_create(&created);
    ctx.vault_token_account.lamports = 199;
    let r = market_ts::cancel(&mut ctx);
    assert_eq!(r, Err(Wen3ExError::NumericalOverflowError));
    assert_eq!(ctx.market_account.state, OrderState::Open);
}

#[test]
fn ts_cancel_by_stranger_fails_with_invalid_authority() {
    let created = created_ctx(ExType::TokenToSol);
    let mut ctx = cancel_ctx_after_create(&created);
    ctx.creator.key = TAKER;
    ctx.creator_token_account.owner = Authority::Party { key: TAKER };
    let r = market_ts::cancel(&mut ctx);
    assert_eq!(r, Err(Wen3ExError::InvalidAuthority));
    assert_eq!(ctx.market_account.state, OrderState::Open);
}

fn exchange_ctx_after_create(created: &MarketTsCreate) -> MarketTsExchange {
    let derived = derive_vault_authority(MARKET_KEY, PROGRAM_ID).unwrap().0;
    MarketTsExchange {
        taker: PartyAccount { key: TAKER, lamports: 400 },
        taker_token_account: TokenAccount {
            owner: Authority::Party { key: TAKER },
            mint: ASSET,
            amount: 90,
            lamports: 0,
        },
        creator: created.creator,
        creator_token_account: Some(TokenAccount {
            owner: Authority::Party { key: CREATOR },
            mint: ASSET,
            amount: 0,
            lamports: 0,
        }),
        market_account: created.market_account,
        vault_token_account: created.vault_token_account,
        vault_authority: derived,
        market_key: created.market_key,
        program_id: created.program_id,
    }
}

#[test]
fn exchange_selling_trades_asset_for_price() {
    let created = created_ctx(ExType::TokenToSol);
    let mut ctx = exchange_ctx_after_create(&created);
    market_ts::exchange(&mut ctx).expect("exchange should succeed");
    assert_eq!(ctx.taker.lamports, 200);
    assert_eq!(ctx.taker_token_account.amount, 90 + 70);
    assert_eq!(ctx.creator.lamports, 900 + 200 + RENT);
    assert_eq!(ctx.vault_token_account.amount, 0);
    assert_eq!(ctx.vault_token_account.lamports, 0);
    assert_eq!(ctx.market_account.state, OrderState::Exchanged);
}

#[test]
fn exchange_selling_with_short_taker_fails() {
    let created = created_ctx(ExType::TokenToSol);
    let mut ctx = exchange_ctx_after_create(&created);
    ctx.taker.lamports = 199;
    let before = ctx;
    let r = market_ts::exchange(&mut ctx);
    assert_eq!(r, Err(Wen3ExError::InvalidAmount));
    assert_eq!(ctx, before);
}

#[test]
fn exchange_buying_delivers_asset_and_pays_from_vault() {
    let created = created_ctx(ExType::SolToToken);
    let mut ctx = exchange_ctx_after_create(&created);
    market_ts::exchange(&mut ctx).expect("exchange should succeed");
    assert_eq!(ctx.taker_token_account.amount, 20);
    assert_eq!(ctx.creator_token_account.unwrap().amount, 70);
    assert_eq!(ctx.taker.lamports, 400 + 200);
    assert_eq!(ctx.creator.lamports, 700 + RENT);
    assert_eq!(ctx.vault_token_account.lamports, 0);
    assert_eq!(ctx.market_account.state, OrderState::Exchanged);
}

#[test]
fn exchange_buying_without_creator_account_fails() {
    let created = created_ctx(ExType::SolToToken);
    let mut ctx = exchange_ctx_after_create(&created);
    ctx.creator_token_account = None;
    let r = market_ts::exchange(&mut ctx);
    assert_eq!(r, Err(Wen3ExError::NoCreatorTokenAccount));
    assert_eq!(ctx.market_account.state, OrderState::Open);
}

#[test]
fn exchange_buying_with_drained_vault_aborts() {
    let created = created_ctx(ExType::SolToToken);
    let mut ctx = exchange_ctx_after_create(&created);
    ctx.vault_token_account.lamports = 199;
    let before = ctx;
    let r = market_ts::exchange(&mut ctx);
    assert_eq!(r, Err(Wen3ExError::NumericalOverflowError));
    assert_eq!(ctx, before);
    assert_eq!(ctx.market_account.state, OrderState::Open);
}
