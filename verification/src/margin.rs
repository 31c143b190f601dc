use vstd::prelude::*;

verus! {

/// Initial margin rate, in percent.
pub const INITIAL_MARGIN_RATE: u64 = 20;

/// Maintenance margin rate, in percent.
pub const MAINTENANCE_MARGIN_RATE: u64 = 10;

/// The least collateral that is ever required of an account.
pub const MINIMUM_MARGIN: u64 = 100;

/// One resting level of an order book.
#[derive(Clone, Copy, Debug, PartialEq, Eq)]
pub struct PriceLevel {
    pub price: u64,
    pub size: u64,
}

/// The two sides of a token's order book, each with its best level first.
#[derive(Clone, Debug, PartialEq, Eq)]
pub struct OrderBook {
    pub bids: Vec<PriceLevel>,
    pub asks: Vec<PriceLevel>,
}

/// What an account holds of a token at the trading venue.
#[derive(Clone, Copy, Debug, PartialEq, Eq)]
pub struct Position {
    pub size: u64,
    pub entry_price: u64,
}

/// The price of the best bid, where there is a bid.
pub open spec fn best_bid(book: OrderBook) -> Option<u64> {
    if book.bids@.len() > 0 {
        Some(book.bids@[0].price)
    } else {
        None
    }
}

/// The price of the best ask, where there is an ask.
pub open spec fn best_ask(book: OrderBook) -> Option<u64> {
    if book.asks@.len() > 0 {
        Some(book.asks@[0].price)
    } else {
        None
    }
}

/// The middle between best bid and best ask, where both sides are quoted.
pub open spec fn mid_price(book: OrderBook) -> Option<nat> {
    match (best_bid(book), best_ask(book)) {
        (Some(bid), Some(ask)) => Some(((bid + ask) / 2) as nat),
        _ => None,
    }
}

/// The reference price of a position: the book's mid price, or the entry
/// price where the book has no mid price.
pub open spec fn mark_price(position: Position, book: OrderBook) -> nat {
    match mid_price(book) {
        Some(mid) => mid,
        None => position.entry_price as nat,
    }
}

/// The distance between best bid and best ask in hundredths of a percent of
/// the mid price, where both sides are quoted and the mid price is not zero.
pub open spec fn spread_bps(book: OrderBook) -> Option<nat> {
    match (best_bid(book), best_ask(book)) {
        (Some(bid), Some(ask)) => {
            let mid = (bid + ask) / 2;
            let gap = if ask >= bid {
                ask - bid
            } else {
                bid - ask
            };
            if mid > 0 {
                Some(((gap * 10000) / mid) as nat)
            } else {
                None
            }
        },
        _ => None,
    }
}

/// The volatility multiplier in tenths: 1.0 below 50 basis points of spread,
/// 1.2 below 100, 1.5 below 200, and 2.0 from there on and where no spread
/// can be measured.
pub open spec fn volatility_tenths(book: OrderBook) -> nat {
    match spread_bps(book) {
        Some(bps) => if bps < 50 {
            10
        } else if bps < 100 {
            12
        } else if bps < 200 {
            15
        } else {
            20
        },
        None => 20,
    }
}

/// Size times mark price.
pub open spec fn position_value(position: Position, book: OrderBook) -> nat {
    position.size as nat * mark_price(position, book)
}

/// The initial margin on the position, scaled by the volatility multiplier.
pub open spec fn position_margin(position: Position, book: OrderBook) -> nat {
    (position_value(position, book) * INITIAL_MARGIN_RATE as nat * volatility_tenths(book)) / 1000
}

/// The initial margin on one resting level.
pub open spec fn level_margin(level: PriceLevel) -> nat {
    (level.size as nat * level.price as nat * INITIAL_MARGIN_RATE as nat) / 100
}

/// The sum of the margins on all the given levels.
pub open spec fn order_margin(levels: Seq<PriceLevel>) -> nat
    decreases levels.len(),
{
    if levels.len() == 0 {
        0
    } else {
        order_margin(levels.drop_last()) + level_margin(levels.last())
    }
}

/// The buffer held against liquidation.
pub open spec fn liquidation_buffer(position: Position, book: OrderBook) -> nat {
    (position_value(position, book) * MAINTENANCE_MARGIN_RATE as nat) / 100
}

/// The collateral required of an account: position margin, margin on the
/// resting bids and liquidation buffer together, and never less than the
/// minimum.
pub open spec fn required_margin(position: Position, book: OrderBook) -> nat {
    let sum = position_margin(position, book) + order_margin(book.bids@) + liquidation_buffer(
        position,
        book,
    );
    if sum < MINIMUM_MARGIN as nat {
        MINIMUM_MARGIN as nat
    } else {
        sum
    }
}

/// The required collateral is never below the minimum.
pub proof fn lemma_required_margin_floor(position: Position, book: OrderBook)
    ensures
        required_margin(position, book) >= MINIMUM_MARGIN,
{
}

/// A number cut off at the largest `u128`.
pub open spec fn capped(n: nat) -> nat {
    if n > u128::MAX as nat {
        u128::MAX as nat
    } else {
        n
    }
}

proof fn lemma_product_fits(a: u64, b: u64)
    ensures
        a as nat * b as nat <= 0xffff_ffff_ffff_ffff * 0xffff_ffff_ffff_ffff,
        (a as u128) * (b as u128) == a as nat * b as nat,
{
    assert(a as nat * b as nat <= 0xffff_ffff_ffff_ffff * 0xffff_ffff_ffff_ffff) by (nonlinear_arith)
        requires
            a <= 0xffff_ffff_ffff_ffff,
            b <= 0xffff_ffff_ffff_ffff,
    ;
}

impl OrderBook {
    /// The price of the best bid.
    pub fn top_bid(&self) -> (r: Option<u64>)
        ensures
            r == best_bid(*self),
    {
        if self.bids.len() > 0 {
            Some(self.bids[0].price)
        } else {
            None
        }
    }

    /// The price of the best ask.
    pub fn top_ask(&self) -> (r: Option<u64>)
        ensures
            r == best_ask(*self),
    {
        if self.asks.len() > 0 {
            Some(self.asks[0].price)
        } else {
            None
        }
    }

    /// The volatility multiplier in tenths.
    pub fn volatility_multiplier(&self) -> (r: u64)
        ensures
            r == volatility_tenths(*self),
    {
        match (self.top_bid(), self.top_ask()) {
            (Some(bid), Some(ask)) => {
                let mid: u128 = (bid as u128 + ask as u128) / 2;
                let gap: u128 = if ask >= bid {
                    (ask - bid) as u128
                } else {
                    (bid - ask) as u128
                };
                if mid > 0 {
                    let bps: u128 = gap * 10000 / mid;
                    if bps < 50 {
                        10
                    } else if bps < 100 {
                        12
                    } else if bps < 200 {
                        15
                    } else {
                        20
                    }
                } else {
                    20
                }
            },
            _ => 20,
        }
    }

    /// The margin on the resting bids, cut off at the largest `u128`.
    pub fn bid_margin(&self) -> (r: u128)
        ensures
            r == capped(order_margin(self.bids@)),
    {
        let mut sum: u128 = 0;
        let mut i: usize = 0;
        while i < self.bids.len()
            invariant
                i <= self.bids@.len(),
                sum == capped(order_margin(self.bids@.take(i as int))),
            decreases self.bids@.len() - i,
        {
            let level = self.bids[i];
            proof {
                lemma_product_fits(level.size, level.price);
                assert(self.bids@.take(i + 1).drop_last() =~= self.bids@.take(i as int));
            }
            let value: u128 = (level.size as u128) * (level.price as u128);
            let term: u128 = value / 5;
            assert(term == level_margin(level));
            sum = sum.saturating_add(term);
            i += 1;
        }
        assert(self.bids@.take(i as int) =~= self.bids@);
        sum
    }
}

/// The reference price of a position.
pub fn mark_price_of(position: &Position, book: &OrderBook) -> (r: u64)
    ensures
        r == mark_price(*position, *book),
{
    match (book.top_bid(), book.top_ask()) {
        (Some(bid), Some(ask)) => ((bid as u128 + ask as u128) / 2) as u64,
        _ => position.entry_price,
    }
}

/// The collateral required of an account, cut off at the largest `u128`.
pub fn required_collateral(position: &Position, book: &OrderBook) -> (r: u128)
    ensures
        r == capped(required_margin(*position, *book)),
{
    let mark = mark_price_of(position, book);
    let tenths = book.volatility_multiplier();
    proof {
        lemma_product_fits(position.size, mark);
    }
    let value: u128 = (position.size as u128) * (mark as u128);
    let on_position: u128 = if tenths == 10 {
        value / 5
    } else if tenths == 12 {
        6 * (value / 25) + (6 * (value % 25)) / 25
    } else if tenths == 15 {
        3 * (value / 10) + (3 * (value % 10)) / 10
    } else {
        2 * (value / 5) + (2 * (value % 5)) / 5
    };
    assert(on_position == position_margin(*position, *book)) by {
        let v = value as int;
        assert(v == position_value(*position, *book));
        assert(v * 20 * 10 / 1000 == v / 5);
        assert(v * 20 * 12 / 1000 == 6 * (v / 25) + (6 * (v % 25)) / 25);
        assert(v * 20 * 15 / 1000 == 3 * (v / 10) + (3 * (v % 10)) / 10);
        assert(v * 20 * 20 / 1000 == 2 * (v / 5) + (2 * (v % 5)) / 5);
    }
    let buffer: u128 = value / 10;
    assert(buffer == liquidation_buffer(*position, *book));
    let on_orders = book.bid_margin();
    let sum = on_position.saturating_add(buffer).saturating_add(on_orders);
    if sum < MINIMUM_MARGIN as u128 {
        MINIMUM_MARGIN as u128
    } else {
        sum
    }
}

} // verus!
