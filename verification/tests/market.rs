use hypermarket::gateway::{GatewayAction, GatewayFault, GatewayReply, GatewayRequest};
use hypermarket::margin::{OrderBook, Position, PriceLevel};
use hypermarket::order::{Order, OrderSide};
use hypermarket::types::{Address, TxHash};
use hypermarket::{
    Market, MarketContract, MarketContractState, MarketError, MarketEvent, MarketStatus,
    OracleManager, OracleManagerState,
};

const EXPIRY: u64 = 1_700_086_400;
const NOW: u64 = 1_700_000_000;

fn account(tag: u8) -> Address {
    Address::from_bytes([tag; 20])
}

fn oracle() -> Address {
    account(0xaa)
}

fn oracle_text() -> String {
    format!("0x{}", "aa".repeat(20))
}

fn market() -> Market {
    Market {
        id: "MARKET_0".to_string(),
        question: "Will ETH price be above $2000 tomorrow?".to_string(),
        expiry_timestamp: EXPIRY,
        oracle_id: oracle_text(),
        collateral_token: "USDC".to_string(),
        status: MarketStatus::Active,
        yes_token_address: "MARKET_0_YES".to_string(),
        no_token_address: "MARKET_0_NO".to_string(),
        resolved_outcome: None,
    }
}

fn done(tag: u8) -> GatewayReply {
    Ok(TxHash::from_bytes([tag; 32]))
}

fn fault(action: GatewayAction) -> GatewayReply {
    Err(GatewayFault { action, detail: "venue unreachable".to_string() })
}

fn empty_book() -> OrderBook {
    OrderBook { bids: vec![], asks: vec![] }
}

fn flat() -> Position {
    Position { size: 0, entry_price: 0 }
}

fn funded(user: Address, collateral: u64, tokens: u64) -> MarketContractState {
    let mut engine = MarketContractState::new(market());
    engine.deposit_collateral(user, collateral, done(1), NOW).unwrap();
    if tokens > 0 {
        engine.mint_tokens(user, tokens, done(2), NOW).unwrap();
    }
    engine
}

fn resolved(user: Address, outcome: bool) -> MarketContractState {
    let mut engine = funded(user, 1000, 100);
    engine.burn_tokens(user, 30, 40, done(3), NOW).unwrap();
    engine.check_expiry(EXPIRY);
    engine.resolve(oracle(), Some(outcome), done(4), EXPIRY + 1).unwrap();
    engine
}

fn snapshot(engine: &MarketContractState, users: &[Address]) -> Vec<u64> {
    let mut values = vec![
        engine.total_collateral(),
        engine.yes_token_supply(),
        engine.no_token_supply(),
    ];
    for user in users {
        values.push(engine.get_collateral_balance(*user));
        values.push(engine.get_token_balance(*user).0);
        values.push(engine.get_token_balance(*user).1);
    }
    values
}

#[test]
fn new_market_has_empty_books() {
    let engine = MarketContractState::new(market());
    assert_eq!(engine.total_collateral(), 0);
    assert_eq!(engine.yes_token_supply(), 0);
    assert_eq!(engine.no_token_supply(), 0);
    assert_eq!(engine.get_collateral_balance(account(1)), 0);
    assert_eq!(engine.get_token_balance(account(1)), (0, 0));
    assert_eq!(engine.market(), &market());
}

#[test]
fn scenario_full_life_of_a_market() {
    let user = account(1);
    let mut engine = MarketContractState::new(market());

    let event = engine.deposit_collateral(user, 1000, done(1), NOW).unwrap();
    assert_eq!(
        event,
        MarketEvent::CollateralDeposited {
            market_id: "MARKET_0".to_string(),
            user,
            amount: 1000,
            timestamp: NOW,
            tx_hash: TxHash::from_bytes([1; 32]),
        }
    );
    assert_eq!(engine.get_collateral_balance(user), 1000);

    let event = engine.mint_tokens(user, 100, done(2), NOW + 1).unwrap();
    assert_eq!(
        event,
        MarketEvent::TokensMinted {
            market_id: "MARKET_0".to_string(),
            user,
            amount: 100,
            timestamp: NOW + 1,
        }
    );
    assert_eq!(engine.get_collateral_balance(user), 900);
    assert_eq!(engine.get_token_balance(user), (100, 100));
    assert_eq!(engine.yes_token_supply(), 100);
    assert_eq!(engine.no_token_supply(), 100);

    let event = engine.burn_tokens(user, 30, 40, done(3), NOW + 2).unwrap();
    assert_eq!(
        event,
        MarketEvent::TokensBurned {
            market_id: "MARKET_0".to_string(),
            user,
            yes_amount: 30,
            no_amount: 40,
            timestamp: NOW + 2,
            tx_hash: TxHash::from_bytes([3; 32]),
        }
    );
    assert_eq!(engine.get_token_balance(user), (70, 60));
    assert_eq!(engine.yes_token_supply(), 70);
    assert_eq!(engine.no_token_supply(), 60);

    let event = engine.check_expiry(EXPIRY);
    assert_eq!(
        event,
        Some(MarketEvent::MarketExpired { market_id: "MARKET_0".to_string(), timestamp: EXPIRY })
    );
    assert_eq!(engine.market().status, MarketStatus::Expired);

    let event = engine.resolve(oracle(), Some(true), done(4), EXPIRY + 1).unwrap();
    assert_eq!(
        event,
        MarketEvent::MarketResolved {
            market_id: "MARKET_0".to_string(),
            oracle: oracle(),
            outcome: true,
            timestamp: EXPIRY + 1,
            tx_hash: TxHash::from_bytes([4; 32]),
        }
    );
    assert_eq!(engine.market().status, MarketStatus::Resolved);
    assert_eq!(engine.market().resolved_outcome, Some(true));

    let (paid, event) = engine.claim_winnings(user, done(5), EXPIRY + 2).unwrap();
    assert_eq!(paid, 70);
    assert_eq!(
        event,
        MarketEvent::WinningsClaimed {
            market_id: "MARKET_0".to_string(),
            user,
            amount: 70,
            timestamp: EXPIRY + 2,
            tx_hash: TxHash::from_bytes([5; 32]),
        }
    );
    assert_eq!(engine.get_collateral_balance(user), 970);
    assert_eq!(engine.total_collateral(), 970);
    assert_eq!(engine.get_token_balance(user), (0, 0));
    assert!(!engine.holds_tokens(user));
    assert_eq!(engine.yes_token_supply(), 0);
    assert_eq!(engine.no_token_supply(), 0);
}

#[test]
fn scenario_withdrawal_after_mint_and_order() {
    let user = account(1);
    let mut engine = funded(user, 1000, 100);
    let order = Order { side: OrderSide::Buy, price: 5, amount: 10 };
    let event = engine.place_order(user, order, &flat(), &empty_book(), done(3), NOW).unwrap();
    assert_eq!(
        event,
        MarketEvent::OrderPlaced {
            market_id: "MARKET_0".to_string(),
            user,
            side: "Buy".to_string(),
            price: 5,
            amount: 10,
            timestamp: NOW,
            tx_hash: TxHash::from_bytes([3; 32]),
        }
    );
    // 1000 deposited, 100 turned into tokens, 50 locked by the order
    assert_eq!(engine.get_collateral_balance(user), 850);
    assert_eq!(engine.total_collateral(), 850);

    // the full deposit is more than the account still holds
    let before = snapshot(&engine, &[user]);
    assert_eq!(
        engine.withdraw_collateral(user, 1000, &flat(), &empty_book(), done(4), NOW),
        Err(MarketError::WithdrawalExceedsBalance)
    );
    // all that the account holds would leave nothing for the required collateral
    assert_eq!(
        engine.withdraw_collateral(user, 850, &flat(), &empty_book(), done(4), NOW),
        Err(MarketError::InsufficientCollateral)
    );
    assert_eq!(
        engine.withdraw_collateral(user, 751, &flat(), &empty_book(), done(4), NOW),
        Err(MarketError::InsufficientCollateral)
    );
    assert_eq!(snapshot(&engine, &[user]), before);

    let event = engine.withdraw_collateral(user, 750, &flat(), &empty_book(), done(4), NOW);
    assert_eq!(
        event,
        Ok(MarketEvent::CollateralWithdrawn {
            market_id: "MARKET_0".to_string(),
            user,
            amount: 750,
            timestamp: NOW,
            tx_hash: TxHash::from_bytes([4; 32]),
        })
    );
    assert_eq!(engine.get_collateral_balance(user), 100);
    assert_eq!(engine.total_collateral(), 100);
}

#[test]
fn scenario_mint_on_a_resolved_market() {
    let user = account(1);
    let mut engine = resolved(user, true);
    let before = snapshot(&engine, &[user]);
    assert_eq!(engine.mint_tokens(user, 10, done(9), NOW), Err(MarketError::MarketNotActive));
    assert_eq!(snapshot(&engine, &[user]), before);
    assert_eq!(engine.plan_mint(user, 10), Err(MarketError::MarketNotActive));
}

#[test]
fn operations_need_an_active_market() {
    let user = account(1);
    let mut engine = funded(user, 1000, 100);
    engine.check_expiry(EXPIRY);
    let order = Order { side: OrderSide::Buy, price: 1, amount: 1 };
    assert_eq!(
        engine.deposit_collateral(user, 1, done(1), NOW),
        Err(MarketError::MarketNotActive)
    );
    assert_eq!(
        engine.withdraw_collateral(user, 1, &flat(), &empty_book(), done(1), NOW),
        Err(MarketError::MarketNotActive)
    );
    assert_eq!(engine.mint_tokens(user, 1, done(1), NOW), Err(MarketError::MarketNotActive));
    assert_eq!(engine.burn_tokens(user, 1, 1, done(1), NOW), Err(MarketError::MarketNotActive));
    assert_eq!(
        engine.place_order(user, order, &flat(), &empty_book(), done(1), NOW),
        Err(MarketError::MarketNotActive)
    );
    assert_eq!(
        engine.cancel_order(user, "7".to_string(), done(1), NOW),
        Err(MarketError::MarketNotActive)
    );
    assert_eq!(
        engine.cancel_all_user_orders(user, done(1), NOW),
        Err(MarketError::MarketNotActive)
    );
    assert_eq!(engine.claim_winnings(user, done(1), NOW), Err(MarketError::MarketNotResolved));
}

#[test]
fn deposit_of_nothing_is_invalid() {
    let mut engine = MarketContractState::new(market());
    assert_eq!(
        engine.deposit_collateral(account(1), 0, done(1), NOW),
        Err(MarketError::InvalidAmount)
    );
    assert_eq!(engine.total_collateral(), 0);
}

#[test]
fn deposit_beyond_the_range_is_invalid() {
    let user = account(1);
    let mut engine = funded(user, u64::MAX - 5, 0);
    assert_eq!(engine.deposit_collateral(user, 6, done(1), NOW), Err(MarketError::InvalidAmount));
    assert_eq!(engine.deposit_collateral(account(2), 5, done(1), NOW).is_ok(), true);
    assert_eq!(engine.total_collateral(), u64::MAX);
    assert_eq!(engine.deposit_collateral(user, 1, done(1), NOW), Err(MarketError::InvalidAmount));
}

#[test]
fn mint_beyond_the_range_is_invalid() {
    let user = account(1);
    let mut engine = funded(user, u64::MAX - 5, 0);
    // collateral, YES and NO together would pass the largest number
    assert_eq!(engine.mint_tokens(user, 6, done(1), NOW), Err(MarketError::InvalidAmount));
    assert!(engine.mint_tokens(user, 5, done(1), NOW).is_ok());
    assert_eq!(engine.get_token_balance(user), (5, 5));
    assert_eq!(engine.total_collateral(), u64::MAX - 10);
}

#[test]
fn claim_at_the_edge_of_the_range_is_paid() {
    let user = account(1);
    let mut engine = funded(user, u64::MAX - 10, 5);
    assert!(engine.mint_tokens(user, 5, done(1), NOW).is_ok());
    assert_eq!(engine.total_collateral(), u64::MAX - 20);
    assert_eq!(engine.mint_tokens(user, 1, done(1), NOW), Err(MarketError::InvalidAmount));
    assert_eq!(engine.deposit_collateral(user, 1, done(1), NOW), Err(MarketError::InvalidAmount));
    engine.check_expiry(EXPIRY);
    engine.resolve(oracle(), Some(true), done(1), NOW).unwrap();
    assert_eq!(engine.claim_winnings(user, done(1), NOW).unwrap().0, 10);
    assert_eq!(engine.total_collateral(), u64::MAX - 10);
    assert_eq!(engine.get_collateral_balance(user), u64::MAX - 10);
}

#[test]
fn failed_transfer_leaves_the_deposit_out() {
    let user = account(1);
    let mut engine = MarketContractState::new(market());
    assert_eq!(
        engine.deposit_collateral(user, 1000, fault(GatewayAction::DepositCollateral), NOW),
        Err(MarketError::CollateralTransferFailed)
    );
    assert_eq!(engine.get_collateral_balance(user), 0);
    assert_eq!(engine.total_collateral(), 0);
}

#[test]
fn each_fault_has_its_error() {
    let user = account(1);
    let mut engine = funded(user, 1000, 100);
    let before = snapshot(&engine, &[user]);
    assert_eq!(
        engine.withdraw_collateral(
            user,
            10,
            &flat(),
            &empty_book(),
            fault(GatewayAction::WithdrawCollateral),
            NOW
        ),
        Err(MarketError::CollateralTransferFailed)
    );
    assert_eq!(
        engine.mint_tokens(user, 10, fault(GatewayAction::PlaceOrder), NOW),
        Err(MarketError::OrderPlacementFailed)
    );
    assert_eq!(
        engine.burn_tokens(user, 10, 10, fault(GatewayAction::CancelAllOrders), NOW),
        Err(MarketError::OrderCancellationFailed)
    );
    assert_eq!(
        engine.burn_tokens(user, 10, 10, fault(GatewayAction::SettleMarket), NOW),
        Err(MarketError::MarketSettlementFailed)
    );
    assert_eq!(
        engine.mint_tokens(user, 10, fault(GatewayAction::GetL2Book), NOW),
        Err(MarketError::ApiError("venue unreachable".to_string()))
    );
    assert_eq!(
        engine.mint_tokens(user, 10, fault(GatewayAction::GetUserPosition), NOW),
        Err(MarketError::ApiError("venue unreachable".to_string()))
    );
    assert_eq!(
        engine.mint_tokens(user, 10, fault(GatewayAction::CreateMarketPair), NOW),
        Err(MarketError::ApiError("venue unreachable".to_string()))
    );
    assert_eq!(snapshot(&engine, &[user]), before);
}

#[test]
fn refusal_comes_before_the_fault() {
    let user = account(1);
    let mut engine = funded(user, 1000, 0);
    assert_eq!(
        engine.mint_tokens(user, 0, fault(GatewayAction::PlaceOrder), NOW),
        Err(MarketError::InvalidAmount)
    );
    assert_eq!(
        engine.burn_tokens(user, 1, 0, fault(GatewayAction::PlaceOrder), NOW),
        Err(MarketError::InsufficientBalance)
    );
}

#[test]
fn mint_needs_collateral() {
    let user = account(1);
    let mut engine = funded(user, 99, 0);
    assert_eq!(engine.mint_tokens(user, 100, done(1), NOW), Err(MarketError::InsufficientCollateral));
    assert_eq!(engine.mint_tokens(account(2), 1, done(1), NOW), Err(MarketError::InsufficientCollateral));
    assert_eq!(engine.mint_tokens(user, 0, done(1), NOW), Err(MarketError::InvalidAmount));
    assert!(engine.mint_tokens(user, 99, done(1), NOW).is_ok());
    assert_eq!(engine.get_collateral_balance(user), 0);
    assert_eq!(engine.get_token_balance(user), (99, 99));
}

#[test]
fn burn_needs_each_side_on_its_own() {
    let user = account(1);
    let mut engine = funded(user, 1000, 100);
    assert_eq!(engine.burn_tokens(user, 101, 0, done(1), NOW), Err(MarketError::InsufficientBalance));
    assert_eq!(engine.burn_tokens(user, 0, 101, done(1), NOW), Err(MarketError::InsufficientBalance));
    assert_eq!(engine.burn_tokens(account(2), 1, 0, done(1), NOW), Err(MarketError::InsufficientBalance));
    assert_eq!(engine.get_token_balance(user), (100, 100));
    assert!(engine.burn_tokens(user, 100, 0, done(1), NOW).is_ok());
    assert_eq!(engine.get_token_balance(user), (0, 100));
    assert_eq!(engine.yes_token_supply(), 0);
    assert_eq!(engine.no_token_supply(), 100);
    // burning gives no collateral back
    assert_eq!(engine.get_collateral_balance(user), 900);
}

#[test]
fn mint_then_burn_restores_tokens_and_supplies() {
    let user = account(1);
    let other = account(2);
    let mut engine = funded(user, 1000, 100);
    engine.deposit_collateral(other, 500, done(1), NOW).unwrap();
    engine.mint_tokens(other, 7, done(1), NOW).unwrap();
    let tokens_before = (
        engine.get_token_balance(user),
        engine.get_token_balance(other),
        engine.yes_token_supply(),
        engine.no_token_supply(),
    );
    engine.mint_tokens(user, 250, done(1), NOW).unwrap();
    engine.burn_tokens(user, 250, 250, done(1), NOW).unwrap();
    let tokens_after = (
        engine.get_token_balance(user),
        engine.get_token_balance(other),
        engine.yes_token_supply(),
        engine.no_token_supply(),
    );
    assert_eq!(tokens_after, tokens_before);
}

#[test]
fn paired_operations_keep_the_supplies_equal() {
    let a = account(1);
    let b = account(2);
    let mut engine = MarketContractState::new(market());
    engine.deposit_collateral(a, 1000, done(1), NOW).unwrap();
    engine.deposit_collateral(b, 1000, done(1), NOW).unwrap();
    engine.mint_tokens(a, 300, done(1), NOW).unwrap();
    assert_eq!(engine.yes_token_supply(), engine.no_token_supply());
    engine.mint_tokens(b, 20, done(1), NOW).unwrap();
    assert_eq!(engine.yes_token_supply(), engine.no_token_supply());
    engine.burn_tokens(a, 120, 120, done(1), NOW).unwrap();
    assert_eq!(engine.yes_token_supply(), engine.no_token_supply());
    assert!(engine.burn_tokens(b, 21, 21, done(1), NOW).is_err());
    assert_eq!(engine.yes_token_supply(), engine.no_token_supply());
    assert_eq!(engine.yes_token_supply(), 200);
}

#[test]
fn totals_are_the_sums_of_the_balances() {
    let users = [account(1), account(2), account(3)];
    let mut engine = MarketContractState::new(market());
    engine.deposit_collateral(users[0], 1000, done(1), NOW).unwrap();
    engine.deposit_collateral(users[1], 700, done(1), NOW).unwrap();
    engine.deposit_collateral(users[2], 300, done(1), NOW).unwrap();
    engine.mint_tokens(users[0], 400, done(1), NOW).unwrap();
    engine.mint_tokens(users[1], 50, done(1), NOW).unwrap();
    engine.burn_tokens(users[0], 10, 30, done(1), NOW).unwrap();
    let order = Order { side: OrderSide::Sell, price: 3, amount: 40 };
    engine.place_order(users[0], order, &flat(), &empty_book(), done(1), NOW).unwrap();
    engine.withdraw_collateral(users[2], 150, &flat(), &empty_book(), done(1), NOW).unwrap();
    let check = |engine: &MarketContractState| {
        let mut collateral = 0;
        let mut yes = 0;
        let mut no = 0;
        for user in users.iter() {
            collateral += engine.get_collateral_balance(*user);
            yes += engine.get_token_balance(*user).0;
            no += engine.get_token_balance(*user).1;
        }
        assert_eq!(collateral, engine.total_collateral());
        assert_eq!(yes, engine.yes_token_supply());
        assert_eq!(no, engine.no_token_supply());
    };
    check(&engine);
    engine.check_expiry(EXPIRY);
    engine.resolve(oracle(), Some(false), done(1), EXPIRY).unwrap();
    check(&engine);
    engine.claim_winnings(users[0], done(1), EXPIRY).unwrap();
    check(&engine);
    engine.claim_winnings(users[1], done(1), EXPIRY).unwrap();
    check(&engine);
    assert_eq!(engine.total_collateral(), 1000 - 400 - 120 + 370 + 700 + 150);
}

#[test]
fn sell_order_needs_the_tokens() {
    let user = account(1);
    let mut engine = funded(user, 1000, 10);
    let order = Order { side: OrderSide::Sell, price: 1, amount: 11 };
    assert_eq!(
        engine.place_order(user, order, &flat(), &empty_book(), done(1), NOW),
        Err(MarketError::InsufficientBalance)
    );
    let order = Order { side: OrderSide::Buy, price: 1, amount: 11 };
    assert!(engine.place_order(user, order, &flat(), &empty_book(), done(1), NOW).is_ok());
    assert_eq!(engine.get_collateral_balance(user), 990 - 11);
}

#[test]
fn order_needs_margin_and_cost() {
    let user = account(1);
    let mut engine = funded(user, 1000, 0);
    // required 100 and cost 901
    let order = Order { side: OrderSide::Buy, price: 17, amount: 53 };
    assert_eq!(engine.plan_order(user, order, &flat(), &empty_book()), Err(MarketError::InsufficientCollateral));
    // required 100 and cost 900
    let order = Order { side: OrderSide::Buy, price: 30, amount: 30 };
    assert!(engine.plan_order(user, order, &flat(), &empty_book()).is_ok());
    let huge = Order { side: OrderSide::Buy, price: u64::MAX, amount: u64::MAX };
    assert_eq!(
        engine.place_order(user, huge, &flat(), &empty_book(), done(1), NOW),
        Err(MarketError::InsufficientCollateral)
    );
    let position = Position { size: 1000, entry_price: 1 };
    // empty book: required 400 + 100, cost 501
    let order = Order { side: OrderSide::Buy, price: 501, amount: 1 };
    assert_eq!(engine.plan_order(user, order, &position, &empty_book()), Err(MarketError::InsufficientCollateral));
    let order = Order { side: OrderSide::Buy, price: 500, amount: 1 };
    assert!(engine.plan_order(user, order, &position, &empty_book()).is_ok());
    assert!(engine.place_order(user, order, &position, &empty_book(), done(1), NOW).is_ok());
    assert_eq!(engine.get_collateral_balance(user), 500);
}

#[test]
fn order_off_the_market_is_invalid() {
    let user = account(1);
    let mut engine = funded(user, 100_000, 100);
    let book = OrderBook {
        bids: vec![PriceLevel { price: 100, size: 0 }],
        asks: vec![PriceLevel { price: 100, size: 0 }],
    };
    let buy = Order { side: OrderSide::Buy, price: 111, amount: 1 };
    assert_eq!(
        engine.place_order(user, buy, &flat(), &book, done(1), NOW),
        Err(MarketError::InvalidOrder)
    );
    let sell = Order { side: OrderSide::Sell, price: 89, amount: 1 };
    assert_eq!(
        engine.place_order(user, sell, &flat(), &book, done(1), NOW),
        Err(MarketError::InvalidOrder)
    );
    let buy = Order { side: OrderSide::Buy, price: 110, amount: 1 };
    assert!(engine.place_order(user, buy, &flat(), &book, done(1), NOW).is_ok());
    let sell = Order { side: OrderSide::Sell, price: 90, amount: 1 };
    assert!(engine.place_order(user, sell, &flat(), &book, done(1), NOW).is_ok());
    assert_eq!(engine.get_collateral_balance(user), 100_000 - 100 - 110 - 90);
}

#[test]
fn failed_order_locks_nothing() {
    let user = account(1);
    let mut engine = funded(user, 1000, 0);
    let order = Order { side: OrderSide::Buy, price: 5, amount: 10 };
    assert_eq!(
        engine.place_order(user, order, &flat(), &empty_book(), fault(GatewayAction::PlaceOrder), NOW),
        Err(MarketError::OrderPlacementFailed)
    );
    assert_eq!(engine.get_collateral_balance(user), 1000);
}

#[test]
fn cancelling_changes_no_balance() {
    let user = account(1);
    let mut engine = funded(user, 1000, 100);
    let before = snapshot(&engine, &[user]);
    assert_eq!(
        engine.cancel_order(user, "order-7".to_string(), done(6), NOW),
        Ok(MarketEvent::OrderCancelled {
            market_id: "MARKET_0".to_string(),
            user,
            order_id: "order-7".to_string(),
            timestamp: NOW,
            tx_hash: TxHash::from_bytes([6; 32]),
        })
    );
    assert_eq!(
        engine.cancel_all_user_orders(user, done(6), NOW),
        Ok(MarketEvent::OrdersCancelled {
            market_id: "MARKET_0".to_string(),
            user,
            timestamp: NOW,
        })
    );
    assert_eq!(
        engine.cancel_all_user_orders(user, fault(GatewayAction::CancelAllOrders), NOW),
        Err(MarketError::OrderCancellationFailed)
    );
    assert_eq!(snapshot(&engine, &[user]), before);
}

#[test]
fn expiry_comes_with_its_time_and_only_once() {
    let mut engine = MarketContractState::new(market());
    assert_eq!(engine.check_expiry(EXPIRY - 1), None);
    assert_eq!(engine.market().status, MarketStatus::Active);
    assert!(engine.check_expiry(EXPIRY).is_some());
    assert_eq!(engine.market().status, MarketStatus::Expired);
    assert_eq!(engine.check_expiry(EXPIRY + 10), None);
    assert_eq!(engine.market().status, MarketStatus::Expired);
    assert_eq!(engine.check_expiry(0), None);
    assert_eq!(engine.market().status, MarketStatus::Expired);
}

#[test]
fn expiry_check_leaves_a_resolved_market_alone() {
    let mut engine = resolved(account(1), true);
    assert_eq!(engine.check_expiry(u64::MAX), None);
    assert_eq!(engine.market().status, MarketStatus::Resolved);
    assert_eq!(engine.market().resolved_outcome, Some(true));
}

#[test]
fn only_the_oracle_resolves() {
    let user = account(1);
    let mut engine = funded(user, 1000, 100);
    // whatever the state of the market
    assert_eq!(engine.resolve(user, Some(true), done(1), NOW), Err(MarketError::InvalidOracle));
    engine.check_expiry(EXPIRY);
    assert_eq!(engine.resolve(user, Some(true), done(1), NOW), Err(MarketError::InvalidOracle));
    assert_eq!(engine.resolve(Address::zero(), None, done(1), NOW), Err(MarketError::InvalidOracle));
    assert_eq!(engine.market().status, MarketStatus::Expired);
    assert!(engine.resolve(oracle(), Some(true), done(1), NOW).is_ok());
    assert_eq!(engine.resolve(user, Some(true), done(1), NOW), Err(MarketError::InvalidOracle));
}

#[test]
fn resolve_needs_an_expired_market_and_an_outcome() {
    let mut engine = MarketContractState::new(market());
    assert_eq!(engine.resolve(oracle(), Some(true), done(1), NOW), Err(MarketError::MarketNotExpired));
    assert_eq!(engine.plan_resolve(oracle(), Some(true)), Err(MarketError::MarketNotExpired));
    engine.check_expiry(EXPIRY);
    assert_eq!(engine.resolve(oracle(), None, done(1), NOW), Err(MarketError::MarketNotResolved));
    assert_eq!(engine.market().status, MarketStatus::Expired);
    assert!(engine.plan_resolve(oracle(), Some(false)).is_ok());
    assert_eq!(
        engine.resolve(oracle(), Some(false), fault(GatewayAction::CancelAllOrders), NOW),
        Err(MarketError::OrderCancellationFailed)
    );
    assert_eq!(engine.market().status, MarketStatus::Expired);
    assert_eq!(engine.market().resolved_outcome, None);
    assert!(engine.resolve(oracle(), Some(false), done(1), NOW).is_ok());
    assert_eq!(engine.market().resolved_outcome, Some(false));
}

#[test]
fn resolution_takes_the_outcome_from_the_registry() {
    let admin = account(7);
    let mut registry = OracleManagerState::new(admin);
    registry.register_oracle(admin, oracle(), NOW).unwrap();
    let mut engine = funded(account(1), 1000, 100);
    engine.check_expiry(EXPIRY);
    assert_eq!(engine.plan_resolve_from(oracle(), &registry), Err(MarketError::MarketNotResolved));
    assert_eq!(
        engine.resolve_from(oracle(), &registry, done(1), NOW),
        Err(MarketError::MarketNotResolved)
    );
    registry.submit_outcome(oracle(), "MARKET_1".to_string(), true, NOW).unwrap();
    assert_eq!(
        engine.resolve_from(oracle(), &registry, done(1), NOW),
        Err(MarketError::MarketNotResolved)
    );
    registry.submit_outcome(oracle(), "MARKET_0".to_string(), false, NOW).unwrap();
    assert_eq!(
        engine.resolve_from(account(1), &registry, done(1), NOW),
        Err(MarketError::InvalidOracle)
    );
    assert!(engine.plan_resolve_from(oracle(), &registry).is_ok());
    assert_eq!(
        engine.resolve_from(oracle(), &registry, done(8), NOW),
        Ok(MarketEvent::MarketResolved {
            market_id: "MARKET_0".to_string(),
            oracle: oracle(),
            outcome: false,
            timestamp: NOW,
            tx_hash: TxHash::from_bytes([8; 32]),
        })
    );
    assert_eq!(engine.market().resolved_outcome, Some(false));
    assert_eq!(engine.claim_winnings(account(1), done(1), NOW).unwrap().0, 100);
}

#[test]
fn second_resolution_is_refused() {
    let mut engine = resolved(account(1), true);
    assert_eq!(
        engine.resolve(oracle(), Some(false), done(1), NOW),
        Err(MarketError::MarketAlreadyResolved)
    );
    assert_eq!(
        engine.resolve(oracle(), None, done(1), NOW),
        Err(MarketError::MarketAlreadyResolved)
    );
    assert_eq!(engine.market().resolved_outcome, Some(true));
    assert_eq!(engine.market().status, MarketStatus::Resolved);
}

#[test]
fn oracle_is_told_by_the_text_of_its_address() {
    let mut named = market();
    named.oracle_id = "the oracle".to_string();
    named.status = MarketStatus::Expired;
    let mut engine = MarketContractState::new(named);
    assert_eq!(engine.resolve(oracle(), Some(true), done(1), NOW), Err(MarketError::InvalidOracle));
    let mut upper = market();
    upper.oracle_id = format!("0x{}", "AA".repeat(20));
    upper.status = MarketStatus::Expired;
    let mut engine = MarketContractState::new(upper);
    assert_eq!(engine.resolve(oracle(), Some(true), done(1), NOW), Err(MarketError::InvalidOracle));
    let mut mixed = market();
    mixed.oracle_id = "0x000102030405060708090a0b0c0d0e0f10111213".to_string();
    mixed.status = MarketStatus::Expired;
    let mut engine = MarketContractState::new(mixed);
    let mut bytes = [0u8; 20];
    let mut i = 0;
    while i < 20 {
        bytes[i] = i as u8;
        i += 1;
    }
    assert!(engine.resolve(Address::from_bytes(bytes), Some(true), done(1), NOW).is_ok());
}

#[test]
fn claim_pays_the_winning_side_once() {
    let user = account(1);
    let mut engine = resolved(user, false);
    assert_eq!(engine.claim_winnings(user, done(1), NOW).unwrap().0, 60);
    assert_eq!(engine.get_collateral_balance(user), 960);
    assert_eq!(engine.get_token_balance(user), (0, 0));
    assert_eq!(engine.claim_winnings(user, done(1), NOW), Err(MarketError::InsufficientBalance));
    assert_eq!(engine.get_collateral_balance(user), 960);
    assert_eq!(engine.total_collateral(), 960);
}

#[test]
fn claim_without_winning_tokens_is_refused() {
    let user = account(1);
    let mut engine = funded(user, 1000, 100);
    engine.burn_tokens(user, 100, 0, done(1), NOW).unwrap();
    engine.check_expiry(EXPIRY);
    engine.resolve(oracle(), Some(true), done(1), NOW).unwrap();
    // the account holds NO tokens only, and YES has won
    assert_eq!(engine.claim_winnings(user, done(1), NOW), Err(MarketError::InsufficientBalance));
    assert_eq!(engine.get_token_balance(user), (0, 100));
    assert_eq!(engine.claim_winnings(account(2), done(1), NOW), Err(MarketError::InsufficientBalance));
}

#[test]
fn failed_settlement_pays_nothing() {
    let user = account(1);
    let mut engine = resolved(user, true);
    let before = snapshot(&engine, &[user]);
    assert_eq!(
        engine.claim_winnings(user, fault(GatewayAction::SettleMarket), NOW),
        Err(MarketError::MarketSettlementFailed)
    );
    assert_eq!(
        engine.claim_winnings(user, fault(GatewayAction::CancelAllOrders), NOW),
        Err(MarketError::OrderCancellationFailed)
    );
    assert_eq!(snapshot(&engine, &[user]), before);
    assert_eq!(engine.claim_winnings(user, done(1), NOW).unwrap().0, 70);
}

#[test]
fn claim_on_a_market_without_recorded_outcome_is_refused() {
    let mut odd = market();
    odd.status = MarketStatus::Resolved;
    let mut engine = MarketContractState::new(odd);
    assert_eq!(engine.claim_winnings(account(1), done(1), NOW), Err(MarketError::MarketNotResolved));
}

#[test]
fn resolved_market_stays_resolved() {
    let user = account(1);
    let mut engine = resolved(user, true);
    let order = Order { side: OrderSide::Buy, price: 1, amount: 1 };
    let _ = engine.deposit_collateral(user, 1, done(1), NOW);
    let _ = engine.withdraw_collateral(user, 1, &flat(), &empty_book(), done(1), NOW);
    let _ = engine.mint_tokens(user, 1, done(1), NOW);
    let _ = engine.burn_tokens(user, 1, 1, done(1), NOW);
    let _ = engine.place_order(user, order, &flat(), &empty_book(), done(1), NOW);
    let _ = engine.cancel_all_user_orders(user, done(1), NOW);
    let _ = engine.check_expiry(u64::MAX);
    let _ = engine.resolve(oracle(), Some(false), done(1), NOW);
    let _ = engine.claim_winnings(user, done(1), NOW);
    assert_eq!(engine.market().status, MarketStatus::Resolved);
    assert_eq!(engine.market().resolved_outcome, Some(true));
}

fn yes() -> String {
    "MARKET_0_YES".to_string()
}

fn no() -> String {
    "MARKET_0_NO".to_string()
}

#[test]
fn plans_refuse_what_the_operations_refuse() {
    let user = account(1);
    let engine = funded(user, 1000, 100);
    assert_eq!(engine.plan_deposit(user, 0), Err(MarketError::InvalidAmount));
    assert_eq!(
        engine.plan_withdrawal(user, 801, &flat(), &empty_book()),
        Err(MarketError::InsufficientCollateral)
    );
    assert_eq!(
        engine.plan_withdrawal(user, 901, &flat(), &empty_book()),
        Err(MarketError::WithdrawalExceedsBalance)
    );
    assert_eq!(engine.plan_mint(user, 901), Err(MarketError::InsufficientCollateral));
    assert_eq!(engine.plan_burn(user, 100, 101), Err(MarketError::InsufficientBalance));
    assert_eq!(engine.plan_claim(user), Err(MarketError::MarketNotResolved));
    let mut engine = engine;
    engine.check_expiry(EXPIRY);
    assert_eq!(engine.plan_cancel(), Err(MarketError::MarketNotActive));
    assert_eq!(engine.plan_resolve(user, Some(true)), Err(MarketError::InvalidOracle));
}

#[test]
fn transfers_are_planned_in_the_collateral_asset() {
    let user = account(1);
    let engine = funded(user, 1000, 100);
    assert_eq!(
        engine.plan_deposit(user, 5),
        Ok(vec![GatewayRequest::DepositCollateral { token: "USDC".to_string(), amount: 5 }])
    );
    assert_eq!(
        engine.plan_withdrawal(user, 800, &flat(), &empty_book()),
        Ok(vec![GatewayRequest::WithdrawCollateral { token: "USDC".to_string(), amount: 800 }])
    );
}

#[test]
fn mint_and_burn_are_planned_as_orders_in_both_tokens() {
    let user = account(1);
    let engine = funded(user, 1000, 100);
    assert_eq!(
        engine.plan_mint(user, 900),
        Ok(vec![
            GatewayRequest::PlaceOrder {
                token: yes(),
                side: OrderSide::Buy,
                limit: None,
                amount: 900
            },
            GatewayRequest::PlaceOrder {
                token: no(),
                side: OrderSide::Buy,
                limit: None,
                amount: 900
            },
        ])
    );
    assert_eq!(
        engine.plan_burn(user, 100, 7),
        Ok(vec![
            GatewayRequest::PlaceOrder {
                token: yes(),
                side: OrderSide::Sell,
                limit: None,
                amount: 100
            },
            GatewayRequest::PlaceOrder {
                token: no(),
                side: OrderSide::Sell,
                limit: None,
                amount: 7
            },
        ])
    );
}

#[test]
fn order_is_planned_in_the_yes_token_with_its_limit() {
    let user = account(1);
    let engine = funded(user, 1000, 100);
    let order = Order { side: OrderSide::Sell, price: 3, amount: 40 };
    assert_eq!(
        engine.plan_order(user, order, &flat(), &empty_book()),
        Ok(vec![GatewayRequest::PlaceOrder {
            token: yes(),
            side: OrderSide::Sell,
            limit: Some(3),
            amount: 40
        }])
    );
    assert_eq!(
        engine.risk_requests(user),
        vec![
            GatewayRequest::GetL2Book { token: yes() },
            GatewayRequest::GetUserPosition { user, token: yes() },
        ]
    );
}

#[test]
fn cancellation_and_resolution_cancel_in_both_tokens() {
    let user = account(1);
    let mut engine = funded(user, 1000, 100);
    let both = vec![
        GatewayRequest::CancelAllOrders { token: yes() },
        GatewayRequest::CancelAllOrders { token: no() },
    ];
    assert_eq!(engine.plan_cancel(), Ok(both.clone()));
    engine.check_expiry(EXPIRY);
    assert_eq!(engine.plan_resolve(oracle(), Some(false)), Ok(both));
}

#[test]
fn claim_is_planned_in_the_winning_token() {
    let user = account(1);
    assert_eq!(
        resolved(user, true).plan_claim(user),
        Ok(vec![
            GatewayRequest::CancelAllOrders { token: yes() },
            GatewayRequest::SettleMarket { token: yes(), amount: 70 },
        ])
    );
    assert_eq!(
        resolved(user, false).plan_claim(user),
        Ok(vec![
            GatewayRequest::CancelAllOrders { token: no() },
            GatewayRequest::SettleMarket { token: no(), amount: 60 },
        ])
    );
}

#[test]
fn request_knows_its_action_and_its_fault() {
    let request = GatewayRequest::SettleMarket { token: yes(), amount: 1 };
    assert_eq!(request.action(), GatewayAction::SettleMarket);
    assert_eq!(
        request.failed("down".to_string()),
        GatewayFault { action: GatewayAction::SettleMarket, detail: "down".to_string() }
    );
    assert_eq!(GatewayRequest::GetL2Book { token: yes() }.action(), GatewayAction::GetL2Book);
    assert_eq!(
        GatewayRequest::CreateMarketPair { market_id: yes(), collateral_token: no() }.action(),
        GatewayAction::CreateMarketPair
    );
}

#[test]
fn market_error_messages() {
    assert_eq!(MarketError::MarketNotActive.message(), "Market is not active");
    assert_eq!(MarketError::MarketNotExpired.message(), "Market is not expired");
    assert_eq!(MarketError::MarketNotResolved.message(), "Market is not resolved");
    assert_eq!(MarketError::InsufficientBalance.message(), "Insufficient balance");
    assert_eq!(MarketError::InvalidOrder.message(), "Invalid order");
    assert_eq!(MarketError::InvalidAmount.message(), "Invalid amount");
    assert_eq!(MarketError::Unauthorized.message(), "Unauthorized");
    assert_eq!(MarketError::MarketAlreadyResolved.message(), "Market already resolved");
    assert_eq!(MarketError::InvalidOracle.message(), "Invalid oracle");
    assert_eq!(
        MarketError::from(hypermarket::AuthError::NotAuthenticated).message(),
        "Authentication error: Not authenticated"
    );
    assert_eq!(MarketError::ApiError("down".to_string()).message(), "API error: down");
    assert_eq!(MarketError::InsufficientCollateral.message(), "Insufficient collateral");
    assert_eq!(MarketError::InvalidCollateralToken.message(), "Invalid collateral token");
    assert_eq!(MarketError::CollateralTransferFailed.message(), "Collateral transfer failed");
    assert_eq!(
        MarketError::WithdrawalExceedsBalance.message(),
        "Withdrawal amount exceeds available balance"
    );
    assert_eq!(MarketError::OrderPlacementFailed.message(), "Order placement failed");
    assert_eq!(MarketError::OrderCancellationFailed.message(), "Order cancellation failed");
    assert_eq!(MarketError::MarketSettlementFailed.message(), "Market settlement failed");
    assert_eq!(MarketError::InvalidSignature.message(), "Invalid signature");
}
