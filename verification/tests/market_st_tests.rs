use wen3ex::authority::derive_vault_authority;
use wen3ex::errors::Wen3ExError;
use wen3ex::ledger::{Authority, PartyAccount, TokenAccount};
use wen3ex::lifecycle::OrderState;
use wen3ex::market_st::{self, MarketStAccount, MarketStCancel, MarketStCreate, MarketStExchange};

const ASSET: u64 = 3;
const CREATOR: u64 = 11;
const TAKER: u64 = 22;
const MARKET_KEY: u64 = 2000;
const PROGRAM_ID: u64 = 7;
const RENT: u64 = 10;

fn fresh_create_ctx() -> MarketStCreate {
    MarketStCreate {
        market_account: MarketStAccount {
            version: 0,
            creator: 0,
            token: 0,
            token_amount: 0,
            sol_amount: 0,
            create_time: 0,
            state: OrderState::Open,
        },
        vault_token_account: TokenAccount {
            owner: Authority::Party { key: CREATOR },
            mint: ASSET,
            amount: 0,
            lamports: RENT,
        },
        creator_token_account: TokenAccount {
            owner: Authority::Party { key: CREATOR },
            mint: ASSET,
            amount: 0,
            lamports: 0,
        },
        creator: PartyAccount { key: CREATOR, lamports: 900 },
        market_key: MARKET_KEY,
        program_id: PROGRAM_ID,
    }
}

fn created_ctx() -> MarketStCreate {
    let mut ctx = fresh_create_ctx();
    market_st::create(&mut ctx, 40, 500, 777).expect("create should succeed");
    ctx
}

#[test]
fn create_moves_native_deposit_into_vault() {
    let ctx = created_ctx();
    let derived = derive_vault_authority(MARKET_KEY, PROGRAM_ID).unwrap().0;
    assert_eq!(ctx.creator.lamports, 400);
    assert_eq!(ctx.vault_token_account.lamports, RENT + 500);
    assert_eq!(ctx.vault_token_account.owner, Authority::Derived { auth: derived });
    assert_eq!(ctx.market_account.token, ASSET);
    assert_eq!(ctx.market_account.token_amount, 40);
    assert_eq!(ctx.market_account.sol_amount, 500);
    assert_eq!(ctx.market_account.state, OrderState::Open);
}

#[test]
fn create_rejects_uncovered_native_deposit() {
    let mut ctx = fresh_create_ctx();
    let r = market_st::create(&mut ctx, 40, 901, 777);
    assert_eq!(r, Err(Wen3ExError::InvalidAmount));
    assert_eq!(ctx.creator.lamports, 900);
    assert_eq!(ctx.vault_token_account.lamports, RENT);
}

fn cancel_ctx_after_create(created: &MarketStCreate) -> MarketStCancel {
    let derived = derive_vault_authority(MARKET_KEY, PROGRAM_ID).unwrap().0;
    MarketStCancel {
        creator: created.creator,
        creator_token_account: created.creator_token_account,
        vault_token_account: created.vault_token_account,
        vault_authority: derived,
        market_account: created.market_account,
        market_key: created.market_key,
        program_id: created.program_id,
    }
}

#[test]
fn round_trip_returns_the_whole_native_deposit() {
    let created = created_ctx();
    let mut ctx = cancel_ctx_after_create(&created);
    market_st::cancel(&mut ctx).expect("cancel should succeed");
    assert_eq!(ctx.creator.lamports, 900 + RENT);
    assert_eq!(ctx.vault_token_account.lamports, 0);
    assert_eq!(ctx.vault_token_account.amount, 0);
    assert_eq!(ctx.market_account.state, OrderState::Cancelled);
}

#[test]
fn st_cancel_by_stranger_fails_with_invalid_authority() {
    let created = created_ctx();
    let mut ctx = cancel_ctx_after_create(&created);
    ctx.creator.key = TAKER;
    ctx.creator_token_account.owner = Authority::Party { key: TAKER };
    let r = market_st::cancel(&mut ctx);
    assert_eq!(r, Err(Wen3ExError::InvalidAuthority));
    assert_eq!(ctx.market_account.state, OrderState::Open);
    assert_eq!(ctx.vault_token_account.lamports, RENT + 500);
}

fn exchange_ctx_after_create(created: &MarketStCreate) -> MarketStExchange {
    let derived = derive_vault_authority(MARKET_KEY, PROGRAM_ID).unwrap().0;
    MarketStExchange {
        taker: PartyAccount { key: TAKER, lamports: 100 },
        taker_token_account: TokenAccount {
            owner: Authority::Party { key: TAKER },
            mint: ASSET,
            amount: 60,
            lamports: 0,
        },
        creator: created.creator,
        creator_token_account: Some(created.creator_token_account),
        market_account: created.market_account,
        vault_token_account: created.vault_token_account,
        vault_authority: derived,
        market_key: created.market_key,
        program_id: created.program_id,
    }
}

#[test]
fn exchange_pays_compensation_and_releases_vault_to_taker() {
    let created = created_ctx();
    let mut ctx = exchange_ctx_after_create(&created);
    market_st::exchange(&mut ctx).expect("exchange should succeed");
    // The taker delivered 40 of the asset and netted exactly the
    // committed 500; the creator got the asset and the rent-sized
    // differential back.
    assert_eq!(ctx.taker_token_account.amount, 20);
    assert_eq!(ctx.creator_token_account.unwrap().amount, 40);
    assert_eq!(ctx.taker.lamports, 100 + 500);
    assert_eq!(ctx.creator.lamports, 400 + RENT);
    assert_eq!(ctx.vault_token_account.lamports, 0);
    assert_eq!(ctx.market_account.state, OrderState::Exchanged);
}

#[test]
fn exchange_underflowing_differential_aborts_and_stays_open() {
    let created = created_ctx();
    let mut ctx = exchange_ctx_after_create(&created);
    // A vault that cannot cover the committed amount: the differential
    // computation would underflow.
    ctx.vault_token_account.lamports = 499;
    let before = ctx;
    let r = market_st::exchange(&mut ctx);
    assert_eq!(r, Err(Wen3ExError::NumericalOverflowError));
    assert_eq!(ctx, before);
    assert_eq!(ctx.market_account.state, OrderState::Open);
}

#[test]
fn exchange_without_creator_account_fails() {
    let created = created_ctx();
    let mut ctx = exchange_ctx_after_create(&created);
    ctx.creator_token_account = None;
    let r = market_st::exchange(&mut ctx);
    assert_eq!(r, Err(Wen3ExError::NoCreatorTokenAccount));
    assert_eq!(ctx.market_account.state, OrderState::Open);
}

#[test]
fn st_exchange_with_misowned_creator_account_fails() {
    let created = created_ctx();
    let mut ctx = exchange_ctx_after_create(&created);
    let mut misowned = created.creator_token_account;
    misowned.owner = Authority::Party { key: TAKER };
    ctx.creator_token_account = Some(misowned);
    let r = market_st::exchange(&mut ctx);
    assert_eq!(r, Err(Wen3ExError::IncorrectCreatorTokenAccount));
    assert_eq!(ctx.market_account.state, OrderState::Open);
}

#[test]
fn exchange_with_short_taker_asset_fails() {
    let created = created_ctx();
    let mut ctx = exchange_ctx_after_create(&created);
    ctx.taker_token_account.amount = 39;
    let r = market_st::exchange(&mut ctx);
    assert_eq!(r, Err(Wen3ExError::InvalidAmount));
    assert_eq!(ctx.market_account.state, OrderState::Open);
}

#[test]
fn exchange_conserves_native_currency_across_parties() {
    let created = created_ctx();
    let pre = exchange_ctx_after_create(&created);
    let mut ctx = pre;
    market_st::exchange(&mut ctx).expect("exchange should succeed");
    assert_eq!(
        ctx.creator.lamports + ctx.taker.lamports + ctx.vault_token_account.lamports,
        pre.creator.lamports + pre.taker.lamports + pre.vault_token_account.lamports
    );
    assert_eq!(
        ctx.taker_token_account.amount + ctx.creator_token_account.unwrap().amount,
        pre.taker_token_account.amount + pre.creator_token_account.unwrap().amount
    );
    // The creator's native gain is the negation of the taker's change in
    // vault-plus-payment terms: the taker nets the committed amount.
    assert_eq!(ctx.taker.lamports - pre.taker.lamports, pre.market_account.sol_amount);
}
