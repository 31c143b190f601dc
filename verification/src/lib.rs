//! Binary-outcome prediction markets with verified books.
//!
//! A market takes collateral from its accounts, turns it into pairs of YES
//! and NO tokens, takes orders, is resolved by its oracle once it has
//! expired, and pays the winning tokens out as collateral. What a market
//! does is defined over plain mathematical books in [`books`]; the running
//! state in [`market`] is proved to follow that definition, call by call,
//! and the laws of the books are proved there once and for all: totals are
//! sums of balances, the status only moves forward, winnings are paid once.
//!
//! The trading venue, the wallet and the clock stay outside. Every call
//! takes the caller, the time and the venue's answer as values: ask the
//! market what to request of the venue (`plan_...`), make the requests, and
//! hand the answer to the operation itself.
//!
//! - [`types`]: addresses and transaction references.
//! - [`ledger`], [`assoc`]: balances with their total, kept as lists.
//! - [`margin`], [`order`]: required collateral, order cost and price band.
//! - [`books`]: the rules of a market and their laws.
//! - [`market`]: the running market.
//! - [`oracle`]: the registry of oracles and outcomes.
//! - [`market_factory`]: the registry of markets.
//! - [`gateway`], [`hyperliquid_client`]: requests to the venue and its
//!   answers, and a stand-in for the venue.
//! - [`auth`], [`events`], [`encoding`]: the acting identity, what is
//!   reported, and texts of numbers, bytes and addresses.

pub mod assoc;
pub mod auth;
pub mod books;
pub mod encoding;
pub mod events;
pub mod gateway;
pub mod hyperliquid_client;
pub mod ledger;
pub mod margin;
pub mod market;
pub mod market_factory;
pub mod oracle;
pub mod order;
pub mod types;

pub use auth::{AuthError, AuthManager};
pub use events::{EventLogger, MarketEvent, OracleEvent};
pub use hyperliquid_client::HyperliquidClient;
pub use market::{Market, MarketContractState, MarketError, MarketStatus};
pub use market_factory::{
    MarketFactory, MarketFactoryError, MarketFactoryEvent, MarketFactoryState,
};
pub use oracle::{OracleError, OracleManager, OracleManagerState};

use books::{outcome, Books, Operation};
use gateway::GatewayReply;
use types::Address;
use vstd::prelude::*;

verus! {

/// The token side of a market: minting and burning pairs, resolving, and
/// paying out. Every call is made for `caller`, with what the trading venue
/// answered to the request that goes with it, at the time `now`; it changes
/// the books as `outcome` says and reports what happened.
pub trait MarketContract {
    /// The books that the implementation keeps.
    spec fn books(&self) -> Books;

    /// Turns `amount` of the caller's collateral into `amount` YES and
    /// `amount` NO tokens.
    fn mint_tokens(&mut self, caller: Address, amount: u64, reply: GatewayReply, now: u64) -> (r:
        Result<MarketEvent, MarketError>)
        ensures
            match outcome(old(self).books(), Operation::Mint { caller, amount }, reply) {
                Ok(after) => final(self).books() == after && r == Ok::<MarketEvent, MarketError>(
                    MarketEvent::TokensMinted {
                        market_id: old(self).books().market.id,
                        user: caller,
                        amount,
                        timestamp: now,
                    },
                ),
                Err(e) => final(self).books() == old(self).books() && r == Err::<
                    MarketEvent,
                    MarketError,
                >(e),
            },
    ;

    /// Destroys the given amounts of the caller's YES and NO tokens.
    fn burn_tokens(
        &mut self,
        caller: Address,
        yes_amount: u64,
        no_amount: u64,
        reply: GatewayReply,
        now: u64,
    ) -> (r: Result<MarketEvent, MarketError>)
        ensures
            match outcome(
                old(self).books(),
                Operation::Burn { caller, yes_amount, no_amount },
                reply,
            ) {
                Ok(after) => final(self).books() == after && r == Ok::<MarketEvent, MarketError>(
                    MarketEvent::TokensBurned {
                        market_id: old(self).books().market.id,
                        user: caller,
                        yes_amount,
                        no_amount,
                        timestamp: now,
                        tx_hash: reply->Ok_0,
                    },
                ),
                Err(e) => final(self).books() == old(self).books() && r == Err::<
                    MarketEvent,
                    MarketError,
                >(e),
            },
    ;

    /// Resolves the expired market to the outcome that the oracle registry
    /// holds for it, `reported`. Only the market's oracle may do so.
    fn resolve(&mut self, caller: Address, reported: Option<bool>, reply: GatewayReply, now: u64)
        -> (r: Result<MarketEvent, MarketError>)
        ensures
            match outcome(old(self).books(), Operation::Resolve { caller, reported }, reply) {
                Ok(after) => final(self).books() == after && r == Ok::<MarketEvent, MarketError>(
                    MarketEvent::MarketResolved {
                        market_id: old(self).books().market.id,
                        oracle: caller,
                        outcome: reported->0,
                        timestamp: now,
                        tx_hash: reply->Ok_0,
                    },
                ),
                Err(e) => final(self).books() == old(self).books() && r == Err::<
                    MarketEvent,
                    MarketError,
                >(e),
            },
    ;

    /// Pays the caller's winning tokens out as collateral, one for one, and
    /// removes all the caller's tokens. Returns what was paid.
    fn claim_winnings(&mut self, caller: Address, reply: GatewayReply, now: u64) -> (r: Result<
        (u64, MarketEvent),
        MarketError,
    >)
        ensures
            match outcome(old(self).books(), Operation::Claim { caller }, reply) {
                Ok(after) => final(self).books() == after && r == Ok::<
                    (u64, MarketEvent),
                    MarketError,
                >(
                    (
                        old(self).books().winnings(caller) as u64,
                        MarketEvent::WinningsClaimed {
                            market_id: old(self).books().market.id,
                            user: caller,
                            amount: old(self).books().winnings(caller) as u64,
                            timestamp: now,
                            tx_hash: reply->Ok_0,
                        },
                    ),
                ) && old(self).books().winnings(caller) <= u64::MAX,
                Err(e) => final(self).books() == old(self).books() && r == Err::<
                    (u64, MarketEvent),
                    MarketError,
                >(e),
            },
    ;
}

} // verus!
