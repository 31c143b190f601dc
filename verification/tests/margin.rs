use hypermarket::margin::{
    mark_price_of, required_collateral, OrderBook, Position, PriceLevel, INITIAL_MARGIN_RATE,
    MAINTENANCE_MARGIN_RATE, MINIMUM_MARGIN,
};
use hypermarket::order::{Order, OrderSide};

fn level(price: u64, size: u64) -> PriceLevel {
    PriceLevel { price, size }
}

fn book(bids: Vec<PriceLevel>, asks: Vec<PriceLevel>) -> OrderBook {
    OrderBook { bids, asks }
}

#[test]
fn the_rates_are_twenty_and_ten_percent() {
    assert_eq!(INITIAL_MARGIN_RATE, 20);
    assert_eq!(MAINTENANCE_MARGIN_RATE, 10);
}

#[test]
fn top_of_book() {
    let b = book(vec![level(99, 1), level(98, 5)], vec![level(101, 2)]);
    assert_eq!(b.top_bid(), Some(99));
    assert_eq!(b.top_ask(), Some(101));
    let empty = book(vec![], vec![]);
    assert_eq!(empty.top_bid(), None);
    assert_eq!(empty.top_ask(), None);
}

#[test]
fn mark_price_is_mid_or_entry() {
    let position = Position { size: 3, entry_price: 77 };
    assert_eq!(mark_price_of(&position, &book(vec![level(99, 1)], vec![level(102, 1)])), 100);
    assert_eq!(mark_price_of(&position, &book(vec![], vec![])), 77);
    assert_eq!(mark_price_of(&position, &book(vec![level(99, 1)], vec![])), 77);
    assert_eq!(mark_price_of(&position, &book(vec![], vec![level(102, 1)])), 77);
    assert_eq!(
        mark_price_of(&position, &book(vec![level(u64::MAX, 1)], vec![level(u64::MAX, 1)])),
        u64::MAX
    );
}

#[test]
fn volatility_steps() {
    // mid 10000: a gap of g is g basis points
    assert_eq!(book(vec![level(9976, 1)], vec![level(10025, 1)]).volatility_multiplier(), 10);
    assert_eq!(book(vec![level(9975, 1)], vec![level(10025, 1)]).volatility_multiplier(), 12);
    assert_eq!(book(vec![level(9951, 1)], vec![level(10050, 1)]).volatility_multiplier(), 12);
    assert_eq!(book(vec![level(9950, 1)], vec![level(10050, 1)]).volatility_multiplier(), 15);
    assert_eq!(book(vec![level(9901, 1)], vec![level(10100, 1)]).volatility_multiplier(), 15);
    assert_eq!(book(vec![level(9900, 1)], vec![level(10100, 1)]).volatility_multiplier(), 20);
    assert_eq!(book(vec![level(10000, 1)], vec![level(10000, 1)]).volatility_multiplier(), 10);
}

#[test]
fn volatility_without_a_spread_is_the_highest() {
    assert_eq!(book(vec![], vec![]).volatility_multiplier(), 20);
    assert_eq!(book(vec![level(10, 1)], vec![]).volatility_multiplier(), 20);
    assert_eq!(book(vec![], vec![level(10, 1)]).volatility_multiplier(), 20);
    assert_eq!(book(vec![level(0, 1)], vec![level(0, 1)]).volatility_multiplier(), 20);
}

#[test]
fn volatility_of_a_crossed_book_goes_by_the_distance() {
    assert_eq!(book(vec![level(10100, 1)], vec![level(9900, 1)]).volatility_multiplier(), 20);
    assert_eq!(book(vec![level(10010, 1)], vec![level(9990, 1)]).volatility_multiplier(), 10);
}

#[test]
fn bid_margin_sums_a_fifth_of_each_level() {
    assert_eq!(book(vec![], vec![level(5, 5)]).bid_margin(), 0);
    // 7*3/5 = 4, 11*9/5 = 19, 100*100/5 = 2000
    assert_eq!(book(vec![level(7, 3), level(11, 9), level(100, 100)], vec![]).bid_margin(), 2023);
}

#[test]
fn bid_margin_is_cut_off_at_the_largest_number() {
    let mut bids = Vec::new();
    let mut i = 0;
    while i < 8 {
        bids.push(level(u64::MAX, u64::MAX));
        i += 1;
    }
    assert_eq!(book(bids, vec![]).bid_margin(), u128::MAX);
}

#[test]
fn required_collateral_is_floored_at_the_minimum() {
    let nothing = Position { size: 0, entry_price: 0 };
    assert_eq!(required_collateral(&nothing, &book(vec![], vec![])), MINIMUM_MARGIN as u128);
    assert_eq!(MINIMUM_MARGIN, 100);
    let small = Position { size: 1, entry_price: 10 };
    // value 10: margin 10*20*20/1000 = 4, buffer 1
    assert_eq!(required_collateral(&small, &book(vec![], vec![])), 100);
}

#[test]
fn required_collateral_exact_values() {
    let position = Position { size: 1000, entry_price: 1 };
    // mid 10000, spread 0: multiplier 1.0; value 10_000_000
    // position margin 2_000_000, buffer 1_000_000, bids 10000*2/5 = 4000
    let tight = book(vec![level(10000, 2)], vec![level(10000, 1)]);
    assert_eq!(required_collateral(&position, &tight), 3_004_000);
    // spread 50 bps: multiplier 1.2: margin 2_400_000; bids 9975*2/5 = 3990
    let wider = book(vec![level(9975, 2)], vec![level(10025, 1)]);
    assert_eq!(required_collateral(&position, &wider), 2_400_000 + 1_000_000 + 3990);
    // spread 100 bps: multiplier 1.5: margin 3_000_000; bids 9950*2/5 = 3980
    let wide = book(vec![level(9950, 2)], vec![level(10050, 1)]);
    assert_eq!(required_collateral(&position, &wide), 3_000_000 + 1_000_000 + 3980);
    // empty book: mark is the entry price, multiplier 2.0: value 1000
    assert_eq!(required_collateral(&position, &book(vec![], vec![])), 400 + 100);
}

#[test]
fn required_collateral_rounds_down_once() {
    let position = Position { size: 7, entry_price: 9 };
    // empty book: multiplier 2.0: value 63: 63*400/1000 = 25, buffer 63/10 = 6: below the floor
    assert_eq!(required_collateral(&position, &book(vec![], vec![])), 100);
    let position = Position { size: 700, entry_price: 9 };
    // value 6300: 6300*400/1000 = 2520, buffer 630
    assert_eq!(required_collateral(&position, &book(vec![], vec![])), 3150);
    let position = Position { size: 33, entry_price: 0 };
    // mid 10000, gap 60: 60 bps: multiplier 1.2; value 330000: 330000*240/1000 = 79200
    let b = book(vec![level(9970, 0)], vec![level(10030, 1)]);
    assert_eq!(required_collateral(&position, &b), 79200 + 33000);
    let position = Position { size: 1, entry_price: 0 };
    // value 10000 at 1.2: 2400, buffer 1000
    assert_eq!(required_collateral(&position, &b), 3400);
    let position = Position { size: 3, entry_price: 0 };
    // mid 37, gap 0: 1.0: value 111: 111*200/1000 = 22, buffer 11: below the floor
    let b = book(vec![level(37, 0)], vec![level(37, 0)]);
    assert_eq!(required_collateral(&position, &b), 100);
}

#[test]
fn required_collateral_of_the_largest_position_does_not_overflow() {
    let position = Position { size: u64::MAX, entry_price: u64::MAX };
    let value = (u64::MAX as u128) * (u64::MAX as u128);
    // empty book: multiplier 2.0: two fifths, and a tenth
    let expected = 2 * (value / 5) + (2 * (value % 5)) / 5 + value / 10;
    assert_eq!(required_collateral(&position, &book(vec![], vec![])), expected);
}

#[test]
fn order_cost_is_price_times_amount() {
    assert_eq!(Order { side: OrderSide::Buy, price: 60, amount: 50 }.cost(), 3000);
    assert_eq!(Order { side: OrderSide::Sell, price: 0, amount: 50 }.cost(), 0);
    assert_eq!(
        Order { side: OrderSide::Buy, price: u64::MAX, amount: u64::MAX }.cost(),
        (u64::MAX as u128) * (u64::MAX as u128)
    );
}

#[test]
fn buy_price_band_is_110_percent_of_best_ask() {
    let b = book(vec![level(90, 1)], vec![level(100, 1)]);
    assert!(Order { side: OrderSide::Buy, price: 110, amount: 1 }.price_in_band(&b));
    assert!(!Order { side: OrderSide::Buy, price: 111, amount: 1 }.price_in_band(&b));
    assert!(Order { side: OrderSide::Buy, price: 1, amount: 1 }.price_in_band(&b));
}

#[test]
fn sell_price_band_is_90_percent_of_best_bid() {
    let b = book(vec![level(100, 1)], vec![level(120, 1)]);
    assert!(Order { side: OrderSide::Sell, price: 90, amount: 1 }.price_in_band(&b));
    assert!(!Order { side: OrderSide::Sell, price: 89, amount: 1 }.price_in_band(&b));
    assert!(Order { side: OrderSide::Sell, price: 500, amount: 1 }.price_in_band(&b));
}

#[test]
fn every_price_passes_without_an_opposing_quote() {
    let only_bids = book(vec![level(100, 1)], vec![]);
    let only_asks = book(vec![], vec![level(100, 1)]);
    assert!(Order { side: OrderSide::Buy, price: u64::MAX, amount: 1 }.price_in_band(&only_bids));
    assert!(Order { side: OrderSide::Sell, price: 0, amount: 1 }.price_in_band(&only_asks));
}

#[test]
fn side_names() {
    assert_eq!(OrderSide::Buy.name(), "Buy");
    assert_eq!(OrderSide::Sell.name(), "Sell");
}
