use crate::margin::{best_ask, best_bid, OrderBook};
use vstd::prelude::*;
use vstd::string::StringExecFns;

verus! {

/// The direction of an order for YES tokens.
#[derive(Clone, Copy, Debug, PartialEq, Eq, Structural)]
pub enum OrderSide {
    Buy,
    Sell,
}

impl OrderSide {
    /// The name under which the side is reported.
    pub open spec fn name_text(self) -> Seq<char> {
        match self {
            OrderSide::Buy => "Buy"@,
            OrderSide::Sell => "Sell"@,
        }
    }

    /// The name under which the side is reported.
    pub fn name(&self) -> (text: String)
        ensures
            text@ == self.name_text(),
    {
        match self {
            OrderSide::Buy => String::from_str("Buy"),
            OrderSide::Sell => String::from_str("Sell"),
        }
    }
}

/// An intent to buy or sell `amount` tokens at `price` units of collateral
/// each.
#[derive(Clone, Copy, Debug, PartialEq, Eq)]
pub struct Order {
    pub side: OrderSide,
    pub price: u64,
    pub amount: u64,
}

/// The collateral that an order locks: price times amount.
pub open spec fn order_cost(price: u64, amount: u64) -> nat {
    price as nat * amount as nat
}

/// Whether a price is close enough to the best opposing quote: a buy at no
/// more than 110% of the best ask, a sell at no less than 90% of the best
/// bid. Without an opposing quote every price passes.
pub open spec fn within_price_band(side: OrderSide, price: u64, book: OrderBook) -> bool {
    match side {
        OrderSide::Buy => match best_ask(book) {
            Some(ask) => price * 100 <= ask * 110,
            None => true,
        },
        OrderSide::Sell => match best_bid(book) {
            Some(bid) => price * 100 >= bid * 90,
            None => true,
        },
    }
}

impl Order {
    /// The collateral that the order locks.
    pub fn cost(&self) -> (c: u128)
        ensures
            c == order_cost(self.price, self.amount),
    {
        assert(self.price as nat * self.amount as nat <= 0xffff_ffff_ffff_ffff
            * 0xffff_ffff_ffff_ffff) by (nonlinear_arith)
            requires
                self.price <= 0xffff_ffff_ffff_ffff,
                self.amount <= 0xffff_ffff_ffff_ffff,
        ;
        (self.price as u128) * (self.amount as u128)
    }

    /// Whether the order's price is within the band round the book.
    pub fn price_in_band(&self, book: &OrderBook) -> (b: bool)
        ensures
            b == within_price_band(self.side, self.price, *book),
    {
        match self.side {
            OrderSide::Buy => match book.top_ask() {
                Some(ask) => (self.price as u128) * 100 <= (ask as u128) * 110,
                None => true,
            },
            OrderSide::Sell => match book.top_bid() {
                Some(bid) => (self.price as u128) * 100 >= (bid as u128) * 90,
                None => true,
            },
        }
    }
}

} // verus!
