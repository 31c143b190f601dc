use crate::auth::AuthError;
use crate::encoding::address_debug_text;
use crate::events::MarketEvent;
use crate::books::{
    outcome, plan, rejection, risk_queries, step, winning_token, Books, Operation,
};
use crate::gateway::{GatewayAction, GatewayFault, GatewayReply, GatewayRequest};
use crate::ledger::{balance, credited, debited, Ledger};
use crate::margin::{required_collateral, OrderBook, Position};
use crate::oracle::OracleManager;
use crate::order::{order_cost, Order, OrderSide};
use crate::types::{Address, TxHash};
use crate::MarketContract;
use vstd::prelude::*;
use vstd::string::StringExecFns;

verus! {

/// Why a market refused an operation.
#[derive(Clone, Debug, PartialEq, Eq)]
pub enum MarketError {
    MarketNotActive,
    MarketNotExpired,
    MarketNotResolved,
    InsufficientBalance,
    InvalidOrder,
    InvalidAmount,
    Unauthorized,
    MarketAlreadyResolved,
    InvalidOracle,
    AuthError(AuthError),
    ApiError(String),
    InsufficientCollateral,
    InvalidCollateralToken,
    CollateralTransferFailed,
    WithdrawalExceedsBalance,
    OrderPlacementFailed,
    OrderCancellationFailed,
    MarketSettlementFailed,
    InvalidSignature,
}

impl MarketError {
    /// The text that describes the error.
    pub open spec fn message_text(self) -> Seq<char> {
        match self {
            MarketError::MarketNotActive => "Market is not active"@,
            MarketError::MarketNotExpired => "Market is not expired"@,
            MarketError::MarketNotResolved => "Market is not resolved"@,
            MarketError::InsufficientBalance => "Insufficient balance"@,
            MarketError::InvalidOrder => "Invalid order"@,
            MarketError::InvalidAmount => "Invalid amount"@,
            MarketError::Unauthorized => "Unauthorized"@,
            MarketError::MarketAlreadyResolved => "Market already resolved"@,
            MarketError::InvalidOracle => "Invalid oracle"@,
            MarketError::AuthError(e) => "Authentication error: "@ + e.message_text(),
            MarketError::ApiError(detail) => "API error: "@ + detail@,
            MarketError::InsufficientCollateral => "Insufficient collateral"@,
            MarketError::InvalidCollateralToken => "Invalid collateral token"@,
            MarketError::CollateralTransferFailed => "Collateral transfer failed"@,
            MarketError::WithdrawalExceedsBalance => "Withdrawal amount exceeds available balance"@,
            MarketError::OrderPlacementFailed => "Order placement failed"@,
            MarketError::OrderCancellationFailed => "Order cancellation failed"@,
            MarketError::MarketSettlementFailed => "Market settlement failed"@,
            MarketError::InvalidSignature => "Invalid signature"@,
        }
    }

    /// The text that describes the error.
    pub fn message(&self) -> (text: String)
        ensures
            text@ == self.message_text(),
    {
        match self {
            MarketError::MarketNotActive => String::from_str("Market is not active"),
            MarketError::MarketNotExpired => String::from_str("Market is not expired"),
            MarketError::MarketNotResolved => String::from_str("Market is not resolved"),
            MarketError::InsufficientBalance => String::from_str("Insufficient balance"),
            MarketError::InvalidOrder => String::from_str("Invalid order"),
            MarketError::InvalidAmount => String::from_str("Invalid amount"),
            MarketError::Unauthorized => String::from_str("Unauthorized"),
            MarketError::MarketAlreadyResolved => String::from_str("Market already resolved"),
            MarketError::InvalidOracle => String::from_str("Invalid oracle"),
            MarketError::AuthError(e) => String::from_str("Authentication error: ").concat(
                e.message().as_str(),
            ),
            MarketError::ApiError(detail) => String::from_str("API error: ").concat(
                detail.as_str(),
            ),
            MarketError::InsufficientCollateral => String::from_str("Insufficient collateral"),
            MarketError::InvalidCollateralToken => String::from_str("Invalid collateral token"),
            MarketError::CollateralTransferFailed => String::from_str(
                "Collateral transfer failed",
            ),
            MarketError::WithdrawalExceedsBalance => String::from_str(
                "Withdrawal amount exceeds available balance",
            ),
            MarketError::OrderPlacementFailed => String::from_str("Order placement failed"),
            MarketError::OrderCancellationFailed => String::from_str("Order cancellation failed"),
            MarketError::MarketSettlementFailed => String::from_str("Market settlement failed"),
            MarketError::InvalidSignature => String::from_str("Invalid signature"),
        }
    }
}

impl From<AuthError> for MarketError {
    fn from(e: AuthError) -> (r: MarketError) {
        MarketError::AuthError(e)
    }
}

impl vstd::std_specs::convert::FromSpecImpl<AuthError> for MarketError {
    open spec fn obeys_from_spec() -> bool {
        true
    }

    open spec fn from_spec(e: AuthError) -> MarketError {
        MarketError::AuthError(e)
    }
}

/// Where a market stands in its life.
#[derive(Clone, Copy, Debug, PartialEq, Eq, Structural)]
pub enum MarketStatus {
    Active,
    Expired,
    Resolved,
}

impl MarketStatus {
    /// How far the status is along the way from active to resolved.
    pub open spec fn rank(self) -> nat {
        match self {
            MarketStatus::Active => 0,
            MarketStatus::Expired => 1,
            MarketStatus::Resolved => 2,
        }
    }
}

/// One question with two outcomes.
#[derive(Debug, PartialEq, Eq)]
pub struct Market {
    pub id: String,
    pub question: String,
    pub expiry_timestamp: u64,
    pub oracle_id: String,
    pub collateral_token: String,
    pub status: MarketStatus,
    pub yes_token_address: String,
    pub no_token_address: String,
    pub resolved_outcome: Option<bool>,
}

/// A market as plain values: its texts as sequences of characters.
pub struct MarketRecord {
    pub id: Seq<char>,
    pub question: Seq<char>,
    pub expiry_timestamp: u64,
    pub oracle_id: Seq<char>,
    pub collateral_token: Seq<char>,
    pub status: MarketStatus,
    pub yes_token_address: Seq<char>,
    pub no_token_address: Seq<char>,
    pub resolved_outcome: Option<bool>,
}

impl View for Market {
    type V = MarketRecord;

    open spec fn view(&self) -> MarketRecord {
        MarketRecord {
            id: self.id@,
            question: self.question@,
            expiry_timestamp: self.expiry_timestamp,
            oracle_id: self.oracle_id@,
            collateral_token: self.collateral_token@,
            status: self.status,
            yes_token_address: self.yes_token_address@,
            no_token_address: self.no_token_address@,
            resolved_outcome: self.resolved_outcome,
        }
    }
}

impl Market {
    /// An outcome is recorded only on a resolved market.
    pub open spec fn well_formed(self) -> bool {
        self.resolved_outcome is Some ==> self.status is Resolved
    }
}

impl Clone for Market {
    fn clone(&self) -> (r: Market)
        ensures
            r == *self,
    {
        Market {
            id: self.id.clone(),
            question: self.question.clone(),
            expiry_timestamp: self.expiry_timestamp,
            oracle_id: self.oracle_id.clone(),
            collateral_token: self.collateral_token.clone(),
            status: self.status,
            yes_token_address: self.yes_token_address.clone(),
            no_token_address: self.no_token_address.clone(),
            resolved_outcome: self.resolved_outcome,
        }
    }
}

/// The error under which a fault of the trading venue is reported.
pub open spec fn fault_error(fault: GatewayFault) -> MarketError {
    match fault.action {
        GatewayAction::DepositCollateral => MarketError::CollateralTransferFailed,
        GatewayAction::WithdrawCollateral => MarketError::CollateralTransferFailed,
        GatewayAction::PlaceOrder => MarketError::OrderPlacementFailed,
        GatewayAction::CancelAllOrders => MarketError::OrderCancellationFailed,
        GatewayAction::SettleMarket => MarketError::MarketSettlementFailed,
        GatewayAction::CreateMarketPair => MarketError::ApiError(fault.detail),
        GatewayAction::GetL2Book => MarketError::ApiError(fault.detail),
        GatewayAction::GetUserPosition => MarketError::ApiError(fault.detail),
    }
}

impl GatewayFault {
    /// The error under which the fault is reported.
    pub fn into_error(self) -> (e: MarketError)
        ensures
            e == fault_error(self),
    {
        match self.action {
            GatewayAction::DepositCollateral => MarketError::CollateralTransferFailed,
            GatewayAction::WithdrawCollateral => MarketError::CollateralTransferFailed,
            GatewayAction::PlaceOrder => MarketError::OrderPlacementFailed,
            GatewayAction::CancelAllOrders => MarketError::OrderCancellationFailed,
            GatewayAction::SettleMarket => MarketError::MarketSettlementFailed,
            GatewayAction::CreateMarketPair => MarketError::ApiError(self.detail),
            GatewayAction::GetL2Book => MarketError::ApiError(self.detail),
            GatewayAction::GetUserPosition => MarketError::ApiError(self.detail),
        }
    }
}

/// Whether `event` reports that the given order was placed.
pub open spec fn reports_order(
    event: MarketEvent,
    market: String,
    caller: Address,
    order: Order,
    now: u64,
    reference: TxHash,
) -> bool {
    &&& event matches MarketEvent::OrderPlaced {
        market_id,
        user,
        side,
        price,
        amount,
        timestamp,
        tx_hash,
    }
    &&& market_id == market
    &&& user == caller
    &&& side@ == order.side.name_text()
    &&& price == order.price
    &&& amount == order.amount
    &&& timestamp == now
    &&& tx_hash == reference
}

/// What the trading venue is asked to settle for a claim.
struct Settlement {
    token: String,
    amount: u64,
}

/// The books of one market as they are kept while it runs.
#[derive(Debug)]
pub struct MarketContractState {
    market: Market,
    collateral: Ledger,
    yes_tokens: Ledger,
    no_tokens: Ledger,
}

impl View for MarketContractState {
    type V = Books;

    closed spec fn view(&self) -> Books {
        Books {
            market: self.market,
            collateral: self.collateral@,
            total_collateral: self.collateral.total_spec(),
            yes_tokens: self.yes_tokens@,
            yes_supply: self.yes_tokens.total_spec(),
            no_tokens: self.no_tokens@,
            no_supply: self.no_tokens.total_spec(),
        }
    }
}

impl MarketContractState {
    /// Collateral and both supplies together stay within the range of 64
    /// bits, so that no payout can exceed it.
    #[verifier::type_invariant]
    spec fn bounded(self) -> bool {
        self.collateral.total_spec() + self.yes_tokens.total_spec() + self.no_tokens.total_spec()
            <= u64::MAX
    }

    /// The books of a market in which nothing has happened yet.
    pub fn new(market: Market) -> (s: MarketContractState)
        ensures
            s@ == (Books {
                market,
                collateral: Map::<Address, nat>::empty(),
                total_collateral: 0,
                yes_tokens: Map::<Address, nat>::empty(),
                yes_supply: 0,
                no_tokens: Map::<Address, nat>::empty(),
                no_supply: 0,
            }),
    {
        MarketContractState {
            market,
            collateral: Ledger::new(),
            yes_tokens: Ledger::new(),
            no_tokens: Ledger::new(),
        }
    }

    /// The market.
    pub fn market(&self) -> (m: &Market)
        ensures
            *m == self@.market,
    {
        &self.market
    }

    /// All the collateral in the market: the sum of what the accounts hold.
    pub fn total_collateral(&self) -> (t: u64)
        ensures
            t == self@.total_collateral,
            self@.conserved(),
            self@.has_room(0),
    {
        proof {
            use_type_invariant(self);
        }
        let _ = self.yes_tokens.total();
        let _ = self.no_tokens.total();
        self.collateral.total()
    }

    fn give_collateral(&mut self, who: Address, amount: u64)
        requires
            old(self)@.has_room(amount),
        ensures
            final(self)@ == (Books {
                collateral: credited(old(self)@.collateral, who, amount as nat),
                total_collateral: old(self)@.total_collateral + amount as nat,
                ..old(self)@
            }),
    {
        proof {
            use_type_invariant(&*self);
        }
        let mut ledger = Ledger::new();
        core::mem::swap(&mut ledger, &mut self.collateral);
        let ledger = ledger.credit(who, amount);
        self.collateral = ledger;
    }

    /// Whether a deposit of `amount` would be accepted.
    fn vet_deposit(&self, caller: Address, amount: u64) -> (r: Result<(), MarketError>)
        ensures
            r == match rejection(self@, Operation::Deposit { caller, amount }) {
                Some(e) => Err::<(), MarketError>(e),
                None => Ok::<(), MarketError>(()),
            },
    {
        proof {
            use_type_invariant(self);
        }
        match self.market.status {
            MarketStatus::Active => {},
            _ => {
                return Err(MarketError::MarketNotActive);
            },
        }
        let held: u64 = self.collateral.total() + self.yes_tokens.total() + self.no_tokens.total();
        if amount == 0 || amount > u64::MAX - held {
            return Err(MarketError::InvalidAmount);
        }
        Ok(())
    }

    /// Takes `amount` of collateral from `caller` into the market, once the
    /// trading venue has moved the asset.
    pub fn deposit_collateral(
        &mut self,
        caller: Address,
        amount: u64,
        reply: GatewayReply,
        now: u64,
    ) -> (r: Result<MarketEvent, MarketError>)
        ensures
            match outcome(old(self)@, Operation::Deposit { caller, amount }, reply) {
                Ok(after) => final(self)@ == after && r == Ok::<MarketEvent, MarketError>(
                    MarketEvent::CollateralDeposited {
                        market_id: old(self)@.market.id,
                        user: caller,
                        amount,
                        timestamp: now,
                        tx_hash: reply->Ok_0,
                    },
                ),
                Err(e) => final(self)@ == old(self)@ && r == Err::<MarketEvent, MarketError>(e),
            },
    {
        match self.vet_deposit(caller, amount) {
            Err(e) => {
                return Err(e);
            },
            Ok(_) => {},
        }
        match reply {
            Err(fault) => Err(fault.into_error()),
            Ok(tx_hash) => {
                self.give_collateral(caller, amount);
                Ok(
                    MarketEvent::CollateralDeposited {
                        market_id: self.market.id.clone(),
                        user: caller,
                        amount,
                        timestamp: now,
                        tx_hash,
                    },
                )
            },
        }
    }

    fn take_collateral(&mut self, who: Address, amount: u64)
        requires
            amount <= balance(old(self)@.collateral, who),
        ensures
            final(self)@ == (Books {
                collateral: debited(old(self)@.collateral, who, amount as nat),
                total_collateral: (old(self)@.total_collateral - amount) as nat,
                ..old(self)@
            }),
            amount <= old(self)@.total_collateral,
    {
        proof {
            use_type_invariant(&*self);
        }
        let mut ledger = Ledger::new();
        core::mem::swap(&mut ledger, &mut self.collateral);
        let ghost before = ledger.total_spec();
        let ledger = ledger.debit(who, amount);
        assert(amount <= before);
        self.collateral = ledger;
    }

    fn give_tokens(&mut self, who: Address, amount: u64)
        requires
            old(self)@.total_collateral + old(self)@.yes_supply + old(self)@.no_supply + 2 * amount
                <= u64::MAX,
        ensures
            final(self)@ == (Books {
                yes_tokens: credited(old(self)@.yes_tokens, who, amount as nat),
                yes_supply: old(self)@.yes_supply + amount as nat,
                no_tokens: credited(old(self)@.no_tokens, who, amount as nat),
                no_supply: old(self)@.no_supply + amount as nat,
                ..old(self)@
            }),
    {
        proof {
            use_type_invariant(&*self);
        }
        let mut yes = Ledger::new();
        core::mem::swap(&mut yes, &mut self.yes_tokens);
        let yes = yes.credit(who, amount);
        self.yes_tokens = yes;
        let mut no = Ledger::new();
        core::mem::swap(&mut no, &mut self.no_tokens);
        let no = no.credit(who, amount);
        self.no_tokens = no;
    }

    fn take_tokens(&mut self, who: Address, yes_amount: u64, no_amount: u64)
        requires
            yes_amount <= balance(old(self)@.yes_tokens, who),
            no_amount <= balance(old(self)@.no_tokens, who),
        ensures
            final(self)@ == (Books {
                yes_tokens: debited(old(self)@.yes_tokens, who, yes_amount as nat),
                yes_supply: (old(self)@.yes_supply - yes_amount) as nat,
                no_tokens: debited(old(self)@.no_tokens, who, no_amount as nat),
                no_supply: (old(self)@.no_supply - no_amount) as nat,
                ..old(self)@
            }),
    {
        proof {
            use_type_invariant(&*self);
        }
        let mut yes = Ledger::new();
        core::mem::swap(&mut yes, &mut self.yes_tokens);
        let yes = yes.debit(who, yes_amount);
        self.yes_tokens = yes;
        let mut no = Ledger::new();
        core::mem::swap(&mut no, &mut self.no_tokens);
        let no = no.debit(who, no_amount);
        self.no_tokens = no;
    }

    fn clear_tokens(&mut self, who: Address)
        ensures
            final(self)@ == (Books {
                yes_tokens: old(self)@.yes_tokens.remove(who),
                yes_supply: (old(self)@.yes_supply - balance(old(self)@.yes_tokens, who)) as nat,
                no_tokens: old(self)@.no_tokens.remove(who),
                no_supply: (old(self)@.no_supply - balance(old(self)@.no_tokens, who)) as nat,
                ..old(self)@
            }),
            balance(old(self)@.yes_tokens, who) <= old(self)@.yes_supply,
            balance(old(self)@.no_tokens, who) <= old(self)@.no_supply,
    {
        proof {
            use_type_invariant(&*self);
        }
        let mut yes = Ledger::new();
        core::mem::swap(&mut yes, &mut self.yes_tokens);
        let (yes, _) = yes.clear(who);
        self.yes_tokens = yes;
        let mut no = Ledger::new();
        core::mem::swap(&mut no, &mut self.no_tokens);
        let (no, _) = no.clear(who);
        self.no_tokens = no;
    }

    /// The collateral that `user` holds in the market.
    pub fn get_collateral_balance(&self, user: Address) -> (b: u64)
        ensures
            b == balance(self@.collateral, user),
    {
        self.collateral.balance_of(&user)
    }

    /// The YES and NO tokens that `user` holds.
    pub fn get_token_balance(&self, user: Address) -> (b: (u64, u64))
        ensures
            b.0 == balance(self@.yes_tokens, user),
            b.1 == balance(self@.no_tokens, user),
    {
        (self.yes_tokens.balance_of(&user), self.no_tokens.balance_of(&user))
    }

    /// Whether `user` has an entry among the holders of tokens.
    pub fn holds_tokens(&self, user: Address) -> (b: bool)
        ensures
            b == (self@.yes_tokens.contains_key(user) || self@.no_tokens.contains_key(user)),
    {
        self.yes_tokens.has_entry(&user) || self.no_tokens.has_entry(&user)
    }

    /// All the YES tokens in being: the sum of what the accounts hold.
    pub fn yes_token_supply(&self) -> (t: u64)
        ensures
            t == self@.yes_supply,
            self@.conserved(),
    {
        let _ = self.total_collateral();
        self.yes_tokens.total()
    }

    /// All the NO tokens in being: the sum of what the accounts hold.
    pub fn no_token_supply(&self) -> (t: u64)
        ensures
            t == self@.no_supply,
            self@.conserved(),
    {
        let _ = self.total_collateral();
        self.no_tokens.total()
    }

    fn is_active(&self) -> (b: bool)
        ensures
            b == (self@.market.status is Active),
    {
        match self.market.status {
            MarketStatus::Active => true,
            _ => false,
        }
    }

    /// Whether a withdrawal of `amount` would be accepted, given what the
    /// trading venue says of the caller's position and of the book.
    fn vet_withdrawal(
        &self,
        caller: Address,
        amount: u64,
        position: &Position,
        book: &OrderBook,
    ) -> (r: Result<(), MarketError>)
        ensures
            r == match rejection(
                self@,
                Operation::Withdraw { caller, amount, position: *position, book: *book },
            ) {
                Some(e) => Err::<(), MarketError>(e),
                None => Ok::<(), MarketError>(()),
            },
    {
        if !self.is_active() {
            return Err(MarketError::MarketNotActive);
        }
        let held = self.collateral.balance_of(&caller);
        if amount > held {
            return Err(MarketError::WithdrawalExceedsBalance);
        }
        let required = required_collateral(position, book);
        if ((held - amount) as u128) < required {
            return Err(MarketError::InsufficientCollateral);
        }
        Ok(())
    }

    /// Hands `amount` of collateral back to `caller`, once the trading venue
    /// has moved the asset.
    pub fn withdraw_collateral(
        &mut self,
        caller: Address,
        amount: u64,
        position: &Position,
        book: &OrderBook,
        reply: GatewayReply,
        now: u64,
    ) -> (r: Result<MarketEvent, MarketError>)
        ensures
            match outcome(
                old(self)@,
                Operation::Withdraw { caller, amount, position: *position, book: *book },
                reply,
            ) {
                Ok(after) => final(self)@ == after && r == Ok::<MarketEvent, MarketError>(
                    MarketEvent::CollateralWithdrawn {
                        market_id: old(self)@.market.id,
                        user: caller,
                        amount,
                        timestamp: now,
                        tx_hash: reply->Ok_0,
                    },
                ),
                Err(e) => final(self)@ == old(self)@ && r == Err::<MarketEvent, MarketError>(e),
            },
    {
        match self.vet_withdrawal(caller, amount, position, book) {
            Err(e) => {
                return Err(e);
            },
            Ok(_) => {},
        }
        match reply {
            Err(fault) => Err(fault.into_error()),
            Ok(tx_hash) => {
                self.take_collateral(caller, amount);
                Ok(
                    MarketEvent::CollateralWithdrawn {
                        market_id: self.market.id.clone(),
                        user: caller,
                        amount,
                        timestamp: now,
                        tx_hash,
                    },
                )
            },
        }
    }

    /// Whether `amount` pairs of tokens could be minted for `caller`.
    fn vet_mint(&self, caller: Address, amount: u64) -> (r: Result<(), MarketError>)
        ensures
            r == match rejection(self@, Operation::Mint { caller, amount }) {
                Some(e) => Err::<(), MarketError>(e),
                None => Ok::<(), MarketError>(()),
            },
    {
        proof {
            use_type_invariant(self);
        }
        if !self.is_active() {
            return Err(MarketError::MarketNotActive);
        }
        let held: u64 = self.collateral.total() + self.yes_tokens.total() + self.no_tokens.total();
        if amount == 0 || amount > u64::MAX - held {
            return Err(MarketError::InvalidAmount);
        }
        if self.collateral.balance_of(&caller) < amount {
            return Err(MarketError::InsufficientCollateral);
        }
        Ok(())
    }

    /// Whether `caller` could burn the given amounts of tokens.
    fn vet_burn(&self, caller: Address, yes_amount: u64, no_amount: u64) -> (r: Result<
        (),
        MarketError,
    >)
        ensures
            r == match rejection(self@, Operation::Burn { caller, yes_amount, no_amount }) {
                Some(e) => Err::<(), MarketError>(e),
                None => Ok::<(), MarketError>(()),
            },
    {
        if !self.is_active() {
            return Err(MarketError::MarketNotActive);
        }
        if self.yes_tokens.balance_of(&caller) < yes_amount || self.no_tokens.balance_of(&caller)
            < no_amount {
            return Err(MarketError::InsufficientBalance);
        }
        Ok(())
    }

    /// Whether the order would be accepted, and the collateral that it
    /// would lock.
    fn vet_order(&self, caller: Address, order: Order, position: &Position, book: &OrderBook)
        -> (r: Result<u64, MarketError>)
        ensures
            match rejection(
                self@,
                Operation::PlaceOrder { caller, order, position: *position, book: *book },
            ) {
                Some(e) => r == Err::<u64, MarketError>(e),
                None => r is Ok && r->Ok_0 == order_cost(order.price, order.amount),
            },
    {
        if !self.is_active() {
            return Err(MarketError::MarketNotActive);
        }
        match order.side {
            OrderSide::Sell => {
                if self.yes_tokens.balance_of(&caller) < order.amount {
                    return Err(MarketError::InsufficientBalance);
                }
            },
            OrderSide::Buy => {},
        }
        let held = self.collateral.balance_of(&caller);
        let required = required_collateral(position, book);
        let cost = order.cost();
        match required.checked_add(cost) {
            None => {
                return Err(MarketError::InsufficientCollateral);
            },
            Some(needed) => {
                if (held as u128) < needed {
                    return Err(MarketError::InsufficientCollateral);
                }
            },
        }
        if !order.price_in_band(book) {
            return Err(MarketError::InvalidOrder);
        }
        Ok(cost as u64)
    }

    /// Places an order for `caller` and locks its cost, once the trading
    /// venue has taken the order.
    pub fn place_order(
        &mut self,
        caller: Address,
        order: Order,
        position: &Position,
        book: &OrderBook,
        reply: GatewayReply,
        now: u64,
    ) -> (r: Result<MarketEvent, MarketError>)
        ensures
            match outcome(
                old(self)@,
                Operation::PlaceOrder { caller, order, position: *position, book: *book },
                reply,
            ) {
                Ok(after) => final(self)@ == after && r is Ok && reports_order(
                    r->Ok_0,
                    old(self)@.market.id,
                    caller,
                    order,
                    now,
                    reply->Ok_0,
                ),
                Err(e) => final(self)@ == old(self)@ && r == Err::<MarketEvent, MarketError>(e),
            },
    {
        let locked = match self.vet_order(caller, order, position, book) {
            Err(e) => {
                return Err(e);
            },
            Ok(locked) => locked,
        };
        match reply {
            Err(fault) => Err(fault.into_error()),
            Ok(tx_hash) => {
                self.take_collateral(caller, locked);
                Ok(
                    MarketEvent::OrderPlaced {
                        market_id: self.market.id.clone(),
                        user: caller,
                        side: order.side.name(),
                        price: order.price,
                        amount: order.amount,
                        timestamp: now,
                        tx_hash,
                    },
                )
            },
        }
    }

    /// Whether orders can be cancelled now.
    fn vet_cancel(&self) -> (r: Result<(), MarketError>)
        ensures
            r == match rejection(self@, Operation::CancelOrders) {
                Some(e) => Err::<(), MarketError>(e),
                None => Ok::<(), MarketError>(()),
            },
    {
        if !self.is_active() {
            return Err(MarketError::MarketNotActive);
        }
        Ok(())
    }

    /// Records that the order `order_id` of `caller` was cancelled. The
    /// books do not change.
    pub fn cancel_order(&mut self, caller: Address, order_id: String, reply: GatewayReply, now: u64)
        -> (r: Result<MarketEvent, MarketError>)
        ensures
            final(self)@ == old(self)@,
            match outcome(old(self)@, Operation::CancelOrders, reply) {
                Ok(_) => r == Ok::<MarketEvent, MarketError>(
                    MarketEvent::OrderCancelled {
                        market_id: old(self)@.market.id,
                        user: caller,
                        order_id,
                        timestamp: now,
                        tx_hash: reply->Ok_0,
                    },
                ),
                Err(e) => r == Err::<MarketEvent, MarketError>(e),
            },
    {
        match self.vet_cancel() {
            Err(e) => {
                return Err(e);
            },
            Ok(_) => {},
        }
        match reply {
            Err(fault) => Err(fault.into_error()),
            Ok(tx_hash) => Ok(
                MarketEvent::OrderCancelled {
                    market_id: self.market.id.clone(),
                    user: caller,
                    order_id,
                    timestamp: now,
                    tx_hash,
                },
            ),
        }
    }

    /// Records that all the orders of `caller` were cancelled. The books do
    /// not change.
    pub fn cancel_all_user_orders(&mut self, caller: Address, reply: GatewayReply, now: u64) -> (r:
        Result<MarketEvent, MarketError>)
        ensures
            final(self)@ == old(self)@,
            match outcome(old(self)@, Operation::CancelOrders, reply) {
                Ok(_) => r == Ok::<MarketEvent, MarketError>(
                    MarketEvent::OrdersCancelled {
                        market_id: old(self)@.market.id,
                        user: caller,
                        timestamp: now,
                    },
                ),
                Err(e) => r == Err::<MarketEvent, MarketError>(e),
            },
    {
        match self.vet_cancel() {
            Err(e) => {
                return Err(e);
            },
            Ok(_) => {},
        }
        match reply {
            Err(fault) => Err(fault.into_error()),
            Ok(_) => Ok(
                MarketEvent::OrdersCancelled {
                    market_id: self.market.id.clone(),
                    user: caller,
                    timestamp: now,
                },
            ),
        }
    }

    /// Lets an active market expire once its time has come. At any other
    /// time, and on a market that is not active, nothing happens.
    pub fn check_expiry(&mut self, now: u64) -> (r: Option<MarketEvent>)
        ensures
            final(self)@ == step(old(self)@, Operation::CheckExpiry { now }),
            r == (if old(self)@.market.status is Active && now >= old(self)@.market.expiry_timestamp {
                Some(MarketEvent::MarketExpired { market_id: old(self)@.market.id, timestamp: now })
            } else {
                None
            }),
    {
        proof {
            use_type_invariant(&*self);
        }
        if self.is_active() && now >= self.market.expiry_timestamp {
            self.market.status = MarketStatus::Expired;
            Some(MarketEvent::MarketExpired { market_id: self.market.id.clone(), timestamp: now })
        } else {
            None
        }
    }

    /// Whether `caller` may resolve the market to what the oracle registry
    /// holds for it, and that outcome.
    fn vet_resolve(&self, caller: Address, reported: Option<bool>) -> (r: Result<
        bool,
        MarketError,
    >)
        ensures
            r == match rejection(self@, Operation::Resolve { caller, reported }) {
                Some(e) => Err::<bool, MarketError>(e),
                None => Ok::<bool, MarketError>(reported->0),
            },
    {
        let text = address_debug_text(&caller);
        if text != self.market.oracle_id {
            return Err(MarketError::InvalidOracle);
        }
        if self.market.resolved_outcome.is_some() {
            return Err(MarketError::MarketAlreadyResolved);
        }
        match self.market.status {
            MarketStatus::Expired => {},
            _ => {
                return Err(MarketError::MarketNotExpired);
            },
        }
        match reported {
            None => Err(MarketError::MarketNotResolved),
            Some(outcome) => Ok(outcome),
        }
    }

    /// What `caller` would be paid now, and in which token.
    fn vet_claim(&self, caller: Address) -> (r: Result<Settlement, MarketError>)
        ensures
            match rejection(self@, Operation::Claim { caller }) {
                Some(e) => r == Err::<Settlement, MarketError>(e),
                None => r matches Ok(s) && s.amount == self@.winnings(caller) && s.token
                    == winning_token(self@),
            },
    {
        match self.market.status {
            MarketStatus::Resolved => {},
            _ => {
                return Err(MarketError::MarketNotResolved);
            },
        }
        match self.market.resolved_outcome {
            None => Err(MarketError::MarketNotResolved),
            Some(true) => {
                let amount = self.yes_tokens.balance_of(&caller);
                if amount == 0 {
                    Err(MarketError::InsufficientBalance)
                } else {
                    Ok(Settlement { token: self.market.yes_token_address.clone(), amount })
                }
            },
            Some(false) => {
                let amount = self.no_tokens.balance_of(&caller);
                if amount == 0 {
                    Err(MarketError::InsufficientBalance)
                } else {
                    Ok(Settlement { token: self.market.no_token_address.clone(), amount })
                }
            },
        }
    }
}

impl MarketContractState {
    /// What to ask the venue before a withdrawal or an order of `caller`
    /// can be judged: the book of the traded token, and the caller's
    /// position in it.
    pub fn risk_requests(&self, caller: Address) -> (r: Vec<GatewayRequest>)
        ensures
            r@ == risk_queries(self@, caller),
    {
        let mut requests: Vec<GatewayRequest> = Vec::new();
        requests.push(GatewayRequest::GetL2Book { token: self.market.yes_token_address.clone() });
        requests.push(
            GatewayRequest::GetUserPosition {
                user: caller,
                token: self.market.yes_token_address.clone(),
            },
        );
        assert(requests@ =~= risk_queries(self@, caller));
        requests
    }

    fn both_tokens(&self, side: Option<OrderSide>, yes_amount: u64, no_amount: u64) -> (r: Vec<
        GatewayRequest,
    >)
        ensures
            r@ == (match side {
                Some(side) => seq![
                    GatewayRequest::PlaceOrder {
                        token: self@.market.yes_token_address,
                        side,
                        limit: None,
                        amount: yes_amount,
                    },
                    GatewayRequest::PlaceOrder {
                        token: self@.market.no_token_address,
                        side,
                        limit: None,
                        amount: no_amount,
                    },
                ],
                None => seq![
                    GatewayRequest::CancelAllOrders { token: self@.market.yes_token_address },
                    GatewayRequest::CancelAllOrders { token: self@.market.no_token_address },
                ],
            }),
    {
        let mut requests: Vec<GatewayRequest> = Vec::new();
        match side {
            Some(side) => {
                requests.push(
                    GatewayRequest::PlaceOrder {
                        token: self.market.yes_token_address.clone(),
                        side,
                        limit: None,
                        amount: yes_amount,
                    },
                );
                requests.push(
                    GatewayRequest::PlaceOrder {
                        token: self.market.no_token_address.clone(),
                        side,
                        limit: None,
                        amount: no_amount,
                    },
                );
            },
            None => {
                requests.push(
                    GatewayRequest::CancelAllOrders {
                        token: self.market.yes_token_address.clone(),
                    },
                );
                requests.push(
                    GatewayRequest::CancelAllOrders { token: self.market.no_token_address.clone() },
                );
            },
        }
        requests
    }

    /// Whether a deposit of `amount` by `caller` can go ahead, and what to
    /// ask of the venue for it.
    pub fn plan_deposit(&self, caller: Address, amount: u64) -> (r: Result<
        Vec<GatewayRequest>,
        MarketError,
    >)
        ensures
            match plan(self@, Operation::Deposit { caller, amount }) {
                Ok(requests) => r is Ok && r->Ok_0@ == requests,
                Err(e) => r == Err::<Vec<GatewayRequest>, MarketError>(e),
            },
    {
        match self.vet_deposit(caller, amount) {
            Err(e) => Err(e),
            Ok(_) => {
                let mut requests: Vec<GatewayRequest> = Vec::new();
                requests.push(
                    GatewayRequest::DepositCollateral {
                        token: self.market.collateral_token.clone(),
                        amount,
                    },
                );
                Ok(requests)
            },
        }
    }

    /// Whether a withdrawal of `amount` by `caller` can go ahead, given
    /// what the venue says of the caller's position and of the book, and
    /// what to ask of the venue for it.
    pub fn plan_withdrawal(
        &self,
        caller: Address,
        amount: u64,
        position: &Position,
        book: &OrderBook,
    ) -> (r: Result<Vec<GatewayRequest>, MarketError>)
        ensures
            match plan(
                self@,
                Operation::Withdraw { caller, amount, position: *position, book: *book },
            ) {
                Ok(requests) => r is Ok && r->Ok_0@ == requests,
                Err(e) => r == Err::<Vec<GatewayRequest>, MarketError>(e),
            },
    {
        match self.vet_withdrawal(caller, amount, position, book) {
            Err(e) => Err(e),
            Ok(_) => {
                let mut requests: Vec<GatewayRequest> = Vec::new();
                requests.push(
                    GatewayRequest::WithdrawCollateral {
                        token: self.market.collateral_token.clone(),
                        amount,
                    },
                );
                Ok(requests)
            },
        }
    }

    /// Whether `amount` pairs of tokens can be minted for `caller`, and
    /// what to ask of the venue for it.
    pub fn plan_mint(&self, caller: Address, amount: u64) -> (r: Result<
        Vec<GatewayRequest>,
        MarketError,
    >)
        ensures
            match plan(self@, Operation::Mint { caller, amount }) {
                Ok(requests) => r is Ok && r->Ok_0@ == requests,
                Err(e) => r == Err::<Vec<GatewayRequest>, MarketError>(e),
            },
    {
        match self.vet_mint(caller, amount) {
            Err(e) => Err(e),
            Ok(_) => Ok(self.both_tokens(Some(OrderSide::Buy), amount, amount)),
        }
    }

    /// Whether `caller` can burn the given amounts of tokens, and what to
    /// ask of the venue for it.
    pub fn plan_burn(&self, caller: Address, yes_amount: u64, no_amount: u64) -> (r: Result<
        Vec<GatewayRequest>,
        MarketError,
    >)
        ensures
            match plan(self@, Operation::Burn { caller, yes_amount, no_amount }) {
                Ok(requests) => r is Ok && r->Ok_0@ == requests,
                Err(e) => r == Err::<Vec<GatewayRequest>, MarketError>(e),
            },
    {
        match self.vet_burn(caller, yes_amount, no_amount) {
            Err(e) => Err(e),
            Ok(_) => Ok(self.both_tokens(Some(OrderSide::Sell), yes_amount, no_amount)),
        }
    }

    /// Whether the order of `caller` can be taken, given what the venue
    /// says of the caller's position and of the book, and what to ask of
    /// the venue for it.
    pub fn plan_order(&self, caller: Address, order: Order, position: &Position, book: &OrderBook)
        -> (r: Result<Vec<GatewayRequest>, MarketError>)
        ensures
            match plan(
                self@,
                Operation::PlaceOrder { caller, order, position: *position, book: *book },
            ) {
                Ok(requests) => r is Ok && r->Ok_0@ == requests,
                Err(e) => r == Err::<Vec<GatewayRequest>, MarketError>(e),
            },
    {
        match self.vet_order(caller, order, position, book) {
            Err(e) => Err(e),
            Ok(_) => {
                let mut requests: Vec<GatewayRequest> = Vec::new();
                requests.push(
                    GatewayRequest::PlaceOrder {
                        token: self.market.yes_token_address.clone(),
                        side: order.side,
                        limit: Some(order.price),
                        amount: order.amount,
                    },
                );
                Ok(requests)
            },
        }
    }

    /// Whether orders can be cancelled now, and what to ask of the venue
    /// for it. The venue cancels by token, so that one order is cancelled
    /// with all the others.
    pub fn plan_cancel(&self) -> (r: Result<Vec<GatewayRequest>, MarketError>)
        ensures
            match plan(self@, Operation::CancelOrders) {
                Ok(requests) => r is Ok && r->Ok_0@ == requests,
                Err(e) => r == Err::<Vec<GatewayRequest>, MarketError>(e),
            },
    {
        match self.vet_cancel() {
            Err(e) => Err(e),
            Ok(_) => Ok(self.both_tokens(None, 0, 0)),
        }
    }

    /// Whether `caller` may resolve the market to `reported`, the outcome
    /// that the oracle registry holds for it, and what to ask of the venue
    /// for it.
    pub fn plan_resolve(&self, caller: Address, reported: Option<bool>) -> (r: Result<
        Vec<GatewayRequest>,
        MarketError,
    >)
        ensures
            match plan(self@, Operation::Resolve { caller, reported }) {
                Ok(requests) => r is Ok && r->Ok_0@ == requests,
                Err(e) => r == Err::<Vec<GatewayRequest>, MarketError>(e),
            },
    {
        match self.vet_resolve(caller, reported) {
            Err(e) => Err(e),
            Ok(_) => Ok(self.both_tokens(None, 0, 0)),
        }
    }

    /// Whether `caller` can be paid now, and what to ask of the venue for
    /// it.
    pub fn plan_claim(&self, caller: Address) -> (r: Result<Vec<GatewayRequest>, MarketError>)
        ensures
            match plan(self@, Operation::Claim { caller }) {
                Ok(requests) => r is Ok && r->Ok_0@ == requests,
                Err(e) => r == Err::<Vec<GatewayRequest>, MarketError>(e),
            },
    {
        match self.vet_claim(caller) {
            Err(e) => Err(e),
            Ok(settlement) => {
                let mut requests: Vec<GatewayRequest> = Vec::new();
                requests.push(GatewayRequest::CancelAllOrders { token: settlement.token.clone() });
                requests.push(
                    GatewayRequest::SettleMarket {
                        token: settlement.token,
                        amount: settlement.amount,
                    },
                );
                Ok(requests)
            },
        }
    }
}

/// The outcome that a registry holds for a market, if it holds one.
pub open spec fn outcome_held(outcomes: Map<Seq<char>, bool>, market_id: Seq<char>) -> Option<
    bool,
> {
    if outcomes.contains_key(market_id) {
        Some(outcomes[market_id])
    } else {
        None
    }
}

impl MarketContractState {
    /// Whether `caller` may resolve the market to the outcome that
    /// `registry` holds for it, and what to ask of the venue for it.
    pub fn plan_resolve_from<R: OracleManager>(&self, caller: Address, registry: &R) -> (r: Result<
        Vec<GatewayRequest>,
        MarketError,
    >)
        ensures
            match plan(
                self@,
                Operation::Resolve {
                    caller,
                    reported: outcome_held(registry.outcomes(), self@.market.id@),
                },
            ) {
                Ok(requests) => r is Ok && r->Ok_0@ == requests,
                Err(e) => r == Err::<Vec<GatewayRequest>, MarketError>(e),
            },
    {
        let reported = registry.get_outcome(self.market.id.clone());
        self.plan_resolve(caller, reported)
    }

    /// Resolves the expired market to the outcome that `registry` holds for
    /// it. Only the market's oracle may do so.
    pub fn resolve_from<R: OracleManager>(
        &mut self,
        caller: Address,
        registry: &R,
        reply: GatewayReply,
        now: u64,
    ) -> (r: Result<MarketEvent, MarketError>)
        ensures
            match outcome(
                old(self)@,
                Operation::Resolve {
                    caller,
                    reported: outcome_held(registry.outcomes(), old(self)@.market.id@),
                },
                reply,
            ) {
                Ok(after) => final(self)@ == after && r == Ok::<MarketEvent, MarketError>(
                    MarketEvent::MarketResolved {
                        market_id: old(self)@.market.id,
                        oracle: caller,
                        outcome: registry.outcomes()[old(self)@.market.id@],
                        timestamp: now,
                        tx_hash: reply->Ok_0,
                    },
                ),
                Err(e) => final(self)@ == old(self)@ && r == Err::<MarketEvent, MarketError>(e),
            },
    {
        let reported = registry.get_outcome(self.market.id.clone());
        self.resolve(caller, reported, reply, now)
    }
}

impl MarketContract for MarketContractState {
    open spec fn books(&self) -> Books {
        self@
    }

    fn mint_tokens(&mut self, caller: Address, amount: u64, reply: GatewayReply, now: u64) -> (r:
        Result<MarketEvent, MarketError>) {
        match self.vet_mint(caller, amount) {
            Err(e) => {
                return Err(e);
            },
            Ok(_) => {},
        }
        match reply {
            Err(fault) => Err(fault.into_error()),
            Ok(_) => {
                self.take_collateral(caller, amount);
                self.give_tokens(caller, amount);
                Ok(
                    MarketEvent::TokensMinted {
                        market_id: self.market.id.clone(),
                        user: caller,
                        amount,
                        timestamp: now,
                    },
                )
            },
        }
    }

    fn burn_tokens(
        &mut self,
        caller: Address,
        yes_amount: u64,
        no_amount: u64,
        reply: GatewayReply,
        now: u64,
    ) -> (r: Result<MarketEvent, MarketError>) {
        match self.vet_burn(caller, yes_amount, no_amount) {
            Err(e) => {
                return Err(e);
            },
            Ok(_) => {},
        }
        match reply {
            Err(fault) => Err(fault.into_error()),
            Ok(tx_hash) => {
                self.take_tokens(caller, yes_amount, no_amount);
                Ok(
                    MarketEvent::TokensBurned {
                        market_id: self.market.id.clone(),
                        user: caller,
                        yes_amount,
                        no_amount,
                        timestamp: now,
                        tx_hash,
                    },
                )
            },
        }
    }

    fn resolve(&mut self, caller: Address, reported: Option<bool>, reply: GatewayReply, now: u64)
        -> (r: Result<MarketEvent, MarketError>) {
        let decided = match self.vet_resolve(caller, reported) {
            Err(e) => {
                return Err(e);
            },
            Ok(decided) => decided,
        };
        match reply {
            Err(fault) => Err(fault.into_error()),
            Ok(tx_hash) => {
                proof {
                    use_type_invariant(&*self);
                }
                self.market.status = MarketStatus::Resolved;
                self.market.resolved_outcome = Some(decided);
                Ok(
                    MarketEvent::MarketResolved {
                        market_id: self.market.id.clone(),
                        oracle: caller,
                        outcome: decided,
                        timestamp: now,
                        tx_hash,
                    },
                )
            },
        }
    }

    fn claim_winnings(&mut self, caller: Address, reply: GatewayReply, now: u64) -> (r: Result<
        (u64, MarketEvent),
        MarketError,
    >) {
        let owed = match self.vet_claim(caller) {
            Err(e) => {
                return Err(e);
            },
            Ok(settlement) => settlement.amount,
        };
        match reply {
            Err(fault) => Err(fault.into_error()),
            Ok(tx_hash) => {
                proof {
                    use_type_invariant(&*self);
                }
                self.clear_tokens(caller);
                self.give_collateral(caller, owed);
                Ok(
                    (
                        owed,
                        MarketEvent::WinningsClaimed {
                            market_id: self.market.id.clone(),
                            user: caller,
                            amount: owed,
                            timestamp: now,
                            tx_hash,
                        },
                    ),
                )
            },
        }
    }
}

} // verus!
