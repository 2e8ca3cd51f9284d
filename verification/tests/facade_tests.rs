use wen3ex::authority::derive_vault_authority;
use wen3ex::ledger::{Authority, PartyAccount, TokenAccount};
use wen3ex::lifecycle::OrderState;
use wen3ex::market_tt::{MarketTtAccount, MarketTtCreate, MarketTtExchange};
use wen3ex::{initialize, market_tt_create, market_tt_exchange, Initialize};

#[test]
fn initialize_is_a_no_op() {
    assert!(initialize(Initialize {}).is_ok());
}

// The concrete settlement scenario, through the program facade: an order
// of 100 of asset A against 50 of asset B, taken by a taker holding 50 of
// B and none of A.
#[test]
fn token_for_token_scenario_through_facade() {
    let creator = 11u64;
    let taker = 22u64;
    let market_key = 5000u64;
    let program_id = 7u64;
    let mut create_ctx = MarketTtCreate {
        vault_token_account: TokenAccount {
            owner: Authority::Party { key: creator },
            mint: 1,
            amount: 0,
            lamports: 10,
        },
        market_account: MarketTtAccount {
            version: 0,
            creator: 0,
            deposit_token: 0,
            deposit_amount: 0,
            receive_token: 0,
            receive_amount: 0,
            create_time: 0,
            state: OrderState::Open,
        },
        deposit_token_account: TokenAccount {
            owner: Authority::Party { key: creator },
            mint: 1,
            amount: 100,
            lamports: 0,
        },
        receive_token_account: TokenAccount {
            owner: Authority::Party { key: creator },
            mint: 2,
            amount: 0,
            lamports: 0,
        },
        creator: PartyAccount { key: creator, lamports: 0 },
        market_key,
        program_id,
    };
    market_tt_create(&mut create_ctx, 100, 50, 1, 2, 123).expect("create should succeed");

    let derived = derive_vault_authority(market_key, program_id).unwrap().0;
    let mut exchange_ctx = MarketTtExchange {
        taker: PartyAccount { key: taker, lamports: 0 },
        taker_deposit_token_account: TokenAccount {
            owner: Authority::Party { key: taker },
            mint: 2,
            amount: 50,
            lamports: 0,
        },
        taker_receive_token_account: TokenAccount {
            owner: Authority::Party { key: taker },
            mint: 1,
            amount: 0,
            lamports: 0,
        },
        creator_deposit_token_account: create_ctx.deposit_token_account,
        creator_receive_token_account: create_ctx.receive_token_account,
        creator: create_ctx.creator,
        market_account: create_ctx.market_account,
        vault_token_account: create_ctx.vault_token_account,
        vault_authority: derived,
        market_key,
        program_id,
    };
    market_tt_exchange(&mut exchange_ctx).expect("exchange should succeed");

    assert_eq!(exchange_ctx.creator_receive_token_account.amount, 50);
    assert_eq!(exchange_ctx.taker_receive_token_account.amount, 100);
    assert_eq!(exchange_ctx.taker_deposit_token_account.amount, 0);
    assert_eq!(exchange_ctx.vault_token_account.amount, 0);
    assert_ne!(exchange_ctx.market_account.state, OrderState::Open);
    assert_eq!(exchange_ctx.market_account.state, OrderState::Exchanged);
}
