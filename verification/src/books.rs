use crate::encoding::{address_text, lemma_address_text_injective};
use crate::gateway::{GatewayReply, GatewayRequest};
use crate::ledger::{
    balance, credited, debited, lemma_balance_le_sum, lemma_sum_insert, lemma_sum_remove, sum_of,
};
use crate::margin::{required_margin, OrderBook, Position};
use crate::market::{fault_error, Market, MarketError, MarketStatus};
use crate::order::{order_cost, within_price_band, Order, OrderSide};
use crate::types::Address;
use vstd::prelude::*;

verus! {

/// The books of one market: the market itself, each account's collateral
/// and its YES and NO tokens, and the three totals.
pub struct Books {
    pub market: Market,
    pub collateral: Map<Address, nat>,
    pub total_collateral: nat,
    pub yes_tokens: Map<Address, nat>,
    pub yes_supply: nat,
    pub no_tokens: Map<Address, nat>,
    pub no_supply: nat,
}

impl Books {
    /// Each total is the sum of the balances that it stands for.
    pub open spec fn conserved(self) -> bool {
        &&& self.collateral.dom().finite()
        &&& self.yes_tokens.dom().finite()
        &&& self.no_tokens.dom().finite()
        &&& sum_of(self.collateral) == self.total_collateral
        &&& sum_of(self.yes_tokens) == self.yes_supply
        &&& sum_of(self.no_tokens) == self.no_supply
    }

    /// Whether `amount` more can be taken on without a total leaving the
    /// range of the machine's numbers.
    pub open spec fn has_room(self, amount: u64) -> bool {
        self.total_collateral + self.yes_supply + self.no_supply + amount <= u64::MAX
    }

    /// What `who` would be paid on the recorded outcome.
    pub open spec fn winnings(self, who: Address) -> nat {
        match self.market.resolved_outcome {
            Some(true) => balance(self.yes_tokens, who),
            Some(false) => balance(self.no_tokens, who),
            None => 0,
        }
    }
}

/// What can be asked of a market.
pub enum Operation {
    Deposit { caller: Address, amount: u64 },
    Withdraw { caller: Address, amount: u64, position: Position, book: OrderBook },
    Mint { caller: Address, amount: u64 },
    Burn { caller: Address, yes_amount: u64, no_amount: u64 },
    PlaceOrder { caller: Address, order: Order, position: Position, book: OrderBook },
    CancelOrders,
    CheckExpiry { now: u64 },
    Resolve { caller: Address, reported: Option<bool> },
    Claim { caller: Address },
}

/// The error with which the market refuses the operation, if it does. The
/// conditions are looked at in the order in which they stand here.
///
/// - Deposit, withdrawal, mint, burn, order and cancellation need an active
///   market (`MarketNotActive`).
/// - A deposit and a mint must be of more than nothing, and must leave
///   collateral and both supplies together within the range of 64 bits
///   (`InvalidAmount`). A mint moreover needs that much collateral
///   (`InsufficientCollateral`).
/// - A withdrawal must not exceed what the account holds
///   (`WithdrawalExceedsBalance`) and must leave the required collateral
///   (`InsufficientCollateral`).
/// - A burn needs the tokens on each side (`InsufficientBalance`).
/// - A sell order needs the YES tokens that it sells
///   (`InsufficientBalance`); every order needs the required collateral and
///   its own cost on top of it (`InsufficientCollateral`) and a price within
///   the band round the book (`InvalidOrder`).
/// - The check for expiry is never refused.
/// - A resolution must come from the market's oracle (`InvalidOracle`), on a
///   market without a recorded outcome (`MarketAlreadyResolved`) that has
///   expired (`MarketNotExpired`), with an outcome from the registry
///   (`MarketNotResolved`).
/// - A claim needs a resolved market with its outcome (`MarketNotResolved`)
///   and tokens of the winning side (`InsufficientBalance`).
pub open spec fn rejection(b: Books, op: Operation) -> Option<MarketError> {
    match op {
        Operation::Deposit { caller, amount } => {
            if !(b.market.status is Active) {
                Some(MarketError::MarketNotActive)
            } else if amount == 0 || !b.has_room(amount) {
                Some(MarketError::InvalidAmount)
            } else {
                None
            }
        },
        Operation::Withdraw { caller, amount, position, book } => {
            if !(b.market.status is Active) {
                Some(MarketError::MarketNotActive)
            } else if amount > balance(b.collateral, caller) {
                Some(MarketError::WithdrawalExceedsBalance)
            } else if balance(b.collateral, caller) - amount < required_margin(position, book) {
                Some(MarketError::InsufficientCollateral)
            } else {
                None
            }
        },
        Operation::Mint { caller, amount } => {
            if !(b.market.status is Active) {
                Some(MarketError::MarketNotActive)
            } else if amount == 0 || !b.has_room(amount) {
                Some(MarketError::InvalidAmount)
            } else if balance(b.collateral, caller) < amount {
                Some(MarketError::InsufficientCollateral)
            } else {
                None
            }
        },
        Operation::Burn { caller, yes_amount, no_amount } => {
            if !(b.market.status is Active) {
                Some(MarketError::MarketNotActive)
            } else if balance(b.yes_tokens, caller) < yes_amount || balance(b.no_tokens, caller)
                < no_amount {
                Some(MarketError::InsufficientBalance)
            } else {
                None
            }
        },
        Operation::PlaceOrder { caller, order, position, book } => {
            if !(b.market.status is Active) {
                Some(MarketError::MarketNotActive)
            } else if order.side is Sell && balance(b.yes_tokens, caller) < order.amount {
                Some(MarketError::InsufficientBalance)
            } else if balance(b.collateral, caller) < required_margin(position, book) + order_cost(
                order.price,
                order.amount,
            ) {
                Some(MarketError::InsufficientCollateral)
            } else if !within_price_band(order.side, order.price, book) {
                Some(MarketError::InvalidOrder)
            } else {
                None
            }
        },
        Operation::CancelOrders => {
            if !(b.market.status is Active) {
                Some(MarketError::MarketNotActive)
            } else {
                None
            }
        },
        Operation::CheckExpiry { now } => None,
        Operation::Resolve { caller, reported } => {
            if address_text(caller) != b.market.oracle_id@ {
                Some(MarketError::InvalidOracle)
            } else if b.market.resolved_outcome is Some {
                Some(MarketError::MarketAlreadyResolved)
            } else if !(b.market.status is Expired) {
                Some(MarketError::MarketNotExpired)
            } else if reported is None {
                Some(MarketError::MarketNotResolved)
            } else {
                None
            }
        },
        Operation::Claim { caller } => {
            if !(b.market.status is Resolved) || b.market.resolved_outcome is None {
                Some(MarketError::MarketNotResolved)
            } else if b.winnings(caller) == 0 {
                Some(MarketError::InsufficientBalance)
            } else {
                None
            }
        },
    }
}

/// The books after the operation has been carried out. It says what a
/// market does with an operation that it does not refuse.
///
/// - A deposit adds to the caller's collateral, a withdrawal takes from it.
/// - A mint turns collateral into as many YES and as many NO tokens; a burn
///   destroys tokens and gives nothing back.
/// - An order locks its cost: the cost leaves the caller's collateral.
///   Cancelling changes nothing in the books.
/// - The check for expiry lets an active market expire from its expiry time
///   on.
/// - A resolution records the outcome and makes the market resolved.
/// - A claim pays the caller's tokens of the winning side as collateral,
///   one for one, and removes all the caller's tokens.
pub open spec fn effect(b: Books, op: Operation) -> Books {
    match op {
        Operation::Deposit { caller, amount } => Books {
            collateral: credited(b.collateral, caller, amount as nat),
            total_collateral: b.total_collateral + amount as nat,
            ..b
        },
        Operation::Withdraw { caller, amount, position, book } => Books {
            collateral: debited(b.collateral, caller, amount as nat),
            total_collateral: (b.total_collateral - amount) as nat,
            ..b
        },
        Operation::Mint { caller, amount } => Books {
            collateral: debited(b.collateral, caller, amount as nat),
            total_collateral: (b.total_collateral - amount) as nat,
            yes_tokens: credited(b.yes_tokens, caller, amount as nat),
            yes_supply: b.yes_supply + amount as nat,
            no_tokens: credited(b.no_tokens, caller, amount as nat),
            no_supply: b.no_supply + amount as nat,
            ..b
        },
        Operation::Burn { caller, yes_amount, no_amount } => Books {
            yes_tokens: debited(b.yes_tokens, caller, yes_amount as nat),
            yes_supply: (b.yes_supply - yes_amount) as nat,
            no_tokens: debited(b.no_tokens, caller, no_amount as nat),
            no_supply: (b.no_supply - no_amount) as nat,
            ..b
        },
        Operation::PlaceOrder { caller, order, position, book } => Books {
            collateral: debited(b.collateral, caller, order_cost(order.price, order.amount)),
            total_collateral: (b.total_collateral - order_cost(order.price, order.amount)) as nat,
            ..b
        },
        Operation::CancelOrders => b,
        Operation::CheckExpiry { now } => {
            if b.market.status is Active && now >= b.market.expiry_timestamp {
                Books { market: Market { status: MarketStatus::Expired, ..b.market }, ..b }
            } else {
                b
            }
        },
        Operation::Resolve { caller, reported } => Books {
            market: Market {
                status: MarketStatus::Resolved,
                resolved_outcome: reported,
                ..b.market
            },
            ..b
        },
        Operation::Claim { caller } => Books {
            collateral: credited(b.collateral, caller, b.winnings(caller)),
            total_collateral: b.total_collateral + b.winnings(caller),
            yes_tokens: b.yes_tokens.remove(caller),
            yes_supply: (b.yes_supply - balance(b.yes_tokens, caller)) as nat,
            no_tokens: b.no_tokens.remove(caller),
            no_supply: (b.no_supply - balance(b.no_tokens, caller)) as nat,
            ..b
        },
    }
}

/// The token whose book and whose positions the margin of this market goes
/// by, and in which its orders are placed: the YES token.
pub open spec fn traded_token(b: Books) -> String {
    b.market.yes_token_address
}

/// The token that pays out on the recorded outcome.
pub open spec fn winning_token(b: Books) -> String {
    if b.market.resolved_outcome == Some(true) {
        b.market.yes_token_address
    } else {
        b.market.no_token_address
    }
}

/// What is asked of the venue before a withdrawal or an order of `caller`
/// can be judged: the book of the traded token and the caller's position
/// in it.
pub open spec fn risk_queries(b: Books, caller: Address) -> Seq<GatewayRequest> {
    seq![
        GatewayRequest::GetL2Book { token: traded_token(b) },
        GatewayRequest::GetUserPosition { user: caller, token: traded_token(b) },
    ]
}

/// The requests that go to the trading venue for an operation that the
/// market does not refuse, in their order: the transfer of the asset for a
/// deposit or a withdrawal; orders without a limit for both tokens for a
/// mint or a burn; the order itself for an order; the cancellation of all
/// orders in both tokens to cancel and before a resolution; and for a claim
/// the cancellation of the orders in the winning token and the settlement
/// of the winnings.
pub open spec fn planned(b: Books, op: Operation) -> Seq<GatewayRequest> {
    let yes = b.market.yes_token_address;
    let no = b.market.no_token_address;
    match op {
        Operation::Deposit { caller, amount } => seq![
            GatewayRequest::DepositCollateral { token: b.market.collateral_token, amount },
        ],
        Operation::Withdraw { caller, amount, position, book } => seq![
            GatewayRequest::WithdrawCollateral { token: b.market.collateral_token, amount },
        ],
        Operation::Mint { caller, amount } => seq![
            GatewayRequest::PlaceOrder { token: yes, side: OrderSide::Buy, limit: None, amount },
            GatewayRequest::PlaceOrder { token: no, side: OrderSide::Buy, limit: None, amount },
        ],
        Operation::Burn { caller, yes_amount, no_amount } => seq![
            GatewayRequest::PlaceOrder {
                token: yes,
                side: OrderSide::Sell,
                limit: None,
                amount: yes_amount,
            },
            GatewayRequest::PlaceOrder {
                token: no,
                side: OrderSide::Sell,
                limit: None,
                amount: no_amount,
            },
        ],
        Operation::PlaceOrder { caller, order, position, book } => seq![
            GatewayRequest::PlaceOrder {
                token: traded_token(b),
                side: order.side,
                limit: Some(order.price),
                amount: order.amount,
            },
        ],
        Operation::CancelOrders => seq![
            GatewayRequest::CancelAllOrders { token: yes },
            GatewayRequest::CancelAllOrders { token: no },
        ],
        Operation::CheckExpiry { now } => Seq::<GatewayRequest>::empty(),
        Operation::Resolve { caller, reported } => seq![
            GatewayRequest::CancelAllOrders { token: yes },
            GatewayRequest::CancelAllOrders { token: no },
        ],
        Operation::Claim { caller } => seq![
            GatewayRequest::CancelAllOrders { token: winning_token(b) },
            GatewayRequest::SettleMarket {
                token: winning_token(b),
                amount: b.winnings(caller) as u64,
            },
        ],
    }
}

/// What is asked of the market before anything goes to the venue: the
/// error with which the market refuses, or the requests to make.
pub open spec fn plan(b: Books, op: Operation) -> Result<Seq<GatewayRequest>, MarketError> {
    match rejection(b, op) {
        Some(e) => Err(e),
        None => Ok(planned(b, op)),
    }
}

/// The books after a call: changed as `effect` says where the market does
/// not refuse, and untouched where it does.
pub open spec fn step(b: Books, op: Operation) -> Books {
    if rejection(b, op) is None {
        effect(b, op)
    } else {
        b
    }
}

/// What a call comes to, given what the trading venue answered: the market
/// refuses first, a fault of the venue comes second, and only then do the
/// books change.
pub open spec fn outcome(b: Books, op: Operation, reply: GatewayReply) -> Result<
    Books,
    MarketError,
> {
    match rejection(b, op) {
        Some(e) => Err(e),
        None => match reply {
            Err(fault) => Err(fault_error(fault)),
            Ok(_) => Ok(effect(b, op)),
        },
    }
}

/// A successful call changes the books as `step` says, and a failed call
/// leaves them as they were.
pub proof fn lemma_outcome_follows_step(b: Books, op: Operation, reply: GatewayReply)
    ensures
        outcome(b, op, reply) matches Ok(after) ==> after == step(b, op),
        outcome(b, op, reply) is Err ==> rejection(b, op) is Some || reply is Err,
{
}

/// Conservation: where every total is the sum of its balances before a
/// call, it is so after the call, whatever was asked.
pub proof fn lemma_step_conserves(b: Books, op: Operation)
    requires
        b.conserved(),
    ensures
        step(b, op).conserved(),
{
    if rejection(b, op) is None {
        match op {
            Operation::Deposit { caller, amount } => {
                lemma_sum_insert(b.collateral, caller, balance(b.collateral, caller) + amount as nat);
            },
            Operation::Withdraw { caller, amount, position, book } => {
                lemma_debit_sum(b.collateral, caller, amount as nat);
            },
            Operation::Mint { caller, amount } => {
                lemma_debit_sum(b.collateral, caller, amount as nat);
                lemma_sum_insert(b.yes_tokens, caller, balance(b.yes_tokens, caller) + amount as nat);
                lemma_sum_insert(b.no_tokens, caller, balance(b.no_tokens, caller) + amount as nat);
            },
            Operation::Burn { caller, yes_amount, no_amount } => {
                lemma_debit_sum(b.yes_tokens, caller, yes_amount as nat);
                lemma_debit_sum(b.no_tokens, caller, no_amount as nat);
            },
            Operation::PlaceOrder { caller, order, position, book } => {
                lemma_debit_sum(b.collateral, caller, order_cost(order.price, order.amount));
            },
            Operation::CancelOrders => {},
            Operation::CheckExpiry { now } => {},
            Operation::Resolve { caller, reported } => {},
            Operation::Claim { caller } => {
                lemma_sum_insert(
                    b.collateral,
                    caller,
                    balance(b.collateral, caller) + b.winnings(caller),
                );
                lemma_remove_sum(b.yes_tokens, caller);
                lemma_remove_sum(b.no_tokens, caller);
            },
        }
    }
}

proof fn lemma_debit_sum(m: Map<Address, nat>, who: Address, amount: nat)
    requires
        m.dom().finite(),
        amount <= balance(m, who),
    ensures
        debited(m, who, amount).dom().finite(),
        sum_of(debited(m, who, amount)) == sum_of(m) - amount,
        amount <= sum_of(m),
{
    lemma_balance_le_sum(m, who);
    if m.contains_key(who) {
        lemma_sum_insert(m, who, (m[who] - amount) as nat);
    }
}

proof fn lemma_remove_sum(m: Map<Address, nat>, who: Address)
    requires
        m.dom().finite(),
    ensures
        m.remove(who).dom().finite(),
        sum_of(m.remove(who)) == sum_of(m) - balance(m, who),
{
    if m.contains_key(who) {
        lemma_sum_remove(m, who);
    } else {
        assert(m.remove(who) =~= m);
    }
}

/// A market that has room for its totals keeps it: no call makes the three
/// totals together exceed the machine's range.
pub proof fn lemma_step_keeps_room(b: Books, op: Operation)
    requires
        b.conserved(),
        b.has_room(0),
    ensures
        step(b, op).has_room(0),
{
    if rejection(b, op) is None {
        match op {
            Operation::Withdraw { caller, amount, position, book } => {
                lemma_debit_sum(b.collateral, caller, amount as nat);
            },
            Operation::Mint { caller, amount } => {
                lemma_debit_sum(b.collateral, caller, amount as nat);
            },
            Operation::Burn { caller, yes_amount, no_amount } => {
                lemma_debit_sum(b.yes_tokens, caller, yes_amount as nat);
                lemma_debit_sum(b.no_tokens, caller, no_amount as nat);
            },
            Operation::PlaceOrder { caller, order, position, book } => {
                lemma_debit_sum(b.collateral, caller, order_cost(order.price, order.amount));
            },
            Operation::Claim { caller } => {
                lemma_balance_le_sum(b.yes_tokens, caller);
                lemma_balance_le_sum(b.no_tokens, caller);
            },
            _ => {},
        }
    }
}

/// Whether an operation mints pairs, or burns as many YES as NO tokens.
pub open spec fn is_paired(op: Operation) -> bool {
    match op {
        Operation::Mint { caller, amount } => true,
        Operation::Burn { caller, yes_amount, no_amount } => yes_amount == no_amount,
        _ => false,
    }
}

/// The books after a series of calls, the first of the series first.
pub open spec fn run(b: Books, ops: Seq<Operation>) -> Books
    decreases ops.len(),
{
    if ops.len() == 0 {
        b
    } else {
        step(run(b, ops.drop_last()), ops.last())
    }
}

/// Paired issuance: where there are as many YES as NO tokens, there still
/// are after any series of mints and of burns of equal amounts on both
/// sides.
pub proof fn lemma_paired_supply(b: Books, ops: Seq<Operation>)
    requires
        b.yes_supply == b.no_supply,
        forall|i: int| 0 <= i < ops.len() ==> is_paired(#[trigger] ops[i]),
    ensures
        run(b, ops).yes_supply == run(b, ops).no_supply,
    decreases ops.len(),
{
    if ops.len() > 0 {
        lemma_paired_supply(b, ops.drop_last());
        assert(is_paired(ops[ops.len() - 1]));
    }
}

/// Minting an amount and at once burning it on both sides is accepted, and
/// gives every account the tokens, and the market the supplies, that there
/// were before the mint.
pub proof fn lemma_mint_then_burn(b: Books, caller: Address, amount: u64)
    requires
        rejection(b, Operation::Mint { caller, amount }) is None,
    ensures
        ({
            let minted = step(b, Operation::Mint { caller, amount });
            let burn = Operation::Burn { caller, yes_amount: amount, no_amount: amount };
            let after = step(minted, burn);
            &&& rejection(minted, burn) is None
            &&& after.yes_supply == b.yes_supply
            &&& after.no_supply == b.no_supply
            &&& forall|who: Address|
                balance(after.yes_tokens, who) == balance(b.yes_tokens, who) && balance(
                    after.no_tokens,
                    who,
                ) == balance(b.no_tokens, who)
        }),
{
}

/// No withdrawal is accepted that would leave the account with less than
/// the collateral required of it.
pub proof fn lemma_withdrawal_keeps_margin(
    b: Books,
    caller: Address,
    amount: u64,
    position: Position,
    book: OrderBook,
    reply: GatewayReply,
)
    requires
        balance(b.collateral, caller) - amount < required_margin(position, book),
    ensures
        rejection(b, Operation::Withdraw { caller, amount, position, book }) is Some,
        outcome(b, Operation::Withdraw { caller, amount, position, book }, reply) is Err,
{
}

/// After an accepted withdrawal the account still holds the collateral
/// required of it.
pub proof fn lemma_accepted_withdrawal_leaves_margin(
    b: Books,
    caller: Address,
    amount: u64,
    position: Position,
    book: OrderBook,
)
    requires
        rejection(b, Operation::Withdraw { caller, amount, position, book }) is None,
    ensures
        balance(step(b, Operation::Withdraw { caller, amount, position, book }).collateral, caller)
            >= required_margin(position, book),
{
}

/// Winnings are paid once: after an accepted claim, the same account's next
/// claim is refused for want of tokens, and the account holds no tokens.
pub proof fn lemma_claim_once(b: Books, caller: Address)
    requires
        rejection(b, Operation::Claim { caller }) is None,
    ensures
        rejection(step(b, Operation::Claim { caller }), Operation::Claim { caller }) == Some(
            MarketError::InsufficientBalance,
        ),
        !step(b, Operation::Claim { caller }).yes_tokens.contains_key(caller),
        !step(b, Operation::Claim { caller }).no_tokens.contains_key(caller),
{
}

/// Only the oracle resolves: on a market whose oracle is `oracle`, every
/// other caller is refused as not being the oracle, whatever the state of
/// the market.
pub proof fn lemma_resolve_needs_oracle(
    b: Books,
    oracle: Address,
    caller: Address,
    reported: Option<bool>,
)
    requires
        b.market.oracle_id@ == address_text(oracle),
        caller != oracle,
    ensures
        rejection(b, Operation::Resolve { caller, reported }) == Some(MarketError::InvalidOracle),
{
    if address_text(caller) == address_text(oracle) {
        lemma_address_text_injective(caller, oracle);
    }
}

/// A market is resolved once: after the oracle has resolved it, the
/// oracle's next attempt is refused as already resolved.
pub proof fn lemma_resolve_once(
    b: Books,
    caller: Address,
    reported: Option<bool>,
    again: Option<bool>,
)
    requires
        rejection(b, Operation::Resolve { caller, reported }) is None,
    ensures
        rejection(
            step(b, Operation::Resolve { caller, reported }),
            Operation::Resolve { caller, reported: again },
        ) == Some(MarketError::MarketAlreadyResolved),
{
}

/// The status only moves forward, from active to expired to resolved: no
/// call takes a market back.
pub proof fn lemma_status_monotone(b: Books, op: Operation)
    ensures
        step(b, op).market.status.rank() >= b.market.status.rank(),
        b.market.status is Resolved ==> step(b, op).market.status is Resolved,
        b.market.well_formed() ==> step(b, op).market.well_formed(),
{
}

/// No series of calls takes a resolved market back.
pub proof fn lemma_resolved_is_final(b: Books, ops: Seq<Operation>)
    requires
        b.market.status is Resolved,
    ensures
        run(b, ops).market.status is Resolved,
    decreases ops.len(),
{
    if ops.len() > 0 {
        lemma_resolved_is_final(b, ops.drop_last());
        lemma_status_monotone(run(b, ops.drop_last()), ops.last());
    }
}

/// A call that the market refuses changes nothing, and is refused whatever
/// the trading venue answered.
pub proof fn lemma_refusal_changes_nothing(b: Books, op: Operation, reply: GatewayReply)
    requires
        rejection(b, op) is Some,
    ensures
        step(b, op) == b,
        outcome(b, op, reply) == Err::<Books, MarketError>(rejection(b, op)->0),
        plan(b, op) == Err::<Seq<GatewayRequest>, MarketError>(rejection(b, op)->0),
{
}

/// Checking for expiry twice at the same time does no more than checking
/// once, and a market that is not active is never changed by the check.
pub proof fn lemma_expiry_check_idempotent(b: Books, now: u64)
    ensures
        step(step(b, Operation::CheckExpiry { now }), Operation::CheckExpiry { now }) == step(
            b,
            Operation::CheckExpiry { now },
        ),
        !(b.market.status is Active) ==> step(b, Operation::CheckExpiry { now }) == b,
{
}

} // verus!
