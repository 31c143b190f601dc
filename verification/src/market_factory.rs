use crate::assoc::{
    assoc_map, distinct_keys, lemma_assoc_absent, lemma_assoc_at, lemma_assoc_push,
};
use crate::auth::AuthError;
use crate::encoding::{
    address_debug_text, address_text, decimal_string, decimal_text, keccak256_digest,
    lemma_decimal_text_injective, prefixed_hex_string, token_address_text, token_suffix,
};
use crate::events::MarketEvent;
use crate::gateway::GatewayRequest;
use crate::market::{Market, MarketRecord, MarketStatus};
use crate::types::Address;
use vstd::prelude::*;
use vstd::string::{StrSliceExecFns, StringExecFns};

verus! {

/// Why the registry of markets refused a call.
#[derive(Clone, Debug, PartialEq, Eq)]
pub enum MarketFactoryError {
    InvalidExpiryTime,
    InvalidOracle,
    AuthError(AuthError),
    ApiError(String),
    Unauthorized,
}

impl MarketFactoryError {
    /// The text that describes the error.
    pub open spec fn message_text(self) -> Seq<char> {
        match self {
            MarketFactoryError::InvalidExpiryTime => "Invalid expiry time"@,
            MarketFactoryError::InvalidOracle => "Invalid oracle"@,
            MarketFactoryError::AuthError(e) => "Authentication error: "@ + e.message_text(),
            MarketFactoryError::ApiError(detail) => "API error: "@ + detail@,
            MarketFactoryError::Unauthorized => "Unauthorized"@,
        }
    }

    /// The text that describes the error.
    pub fn message(&self) -> (text: String)
        ensures
            text@ == self.message_text(),
    {
        match self {
            MarketFactoryError::InvalidExpiryTime => String::from_str("Invalid expiry time"),
            MarketFactoryError::InvalidOracle => String::from_str("Invalid oracle"),
            MarketFactoryError::AuthError(e) => String::from_str("Authentication error: ").concat(
                e.message().as_str(),
            ),
            MarketFactoryError::ApiError(detail) => String::from_str("API error: ").concat(
                detail.as_str(),
            ),
            MarketFactoryError::Unauthorized => String::from_str("Unauthorized"),
        }
    }
}

impl From<AuthError> for MarketFactoryError {
    fn from(e: AuthError) -> (r: MarketFactoryError) {
        MarketFactoryError::AuthError(e)
    }
}

impl vstd::std_specs::convert::FromSpecImpl<AuthError> for MarketFactoryError {
    open spec fn obeys_from_spec() -> bool {
        true
    }

    open spec fn from_spec(e: AuthError) -> MarketFactoryError {
        MarketFactoryError::AuthError(e)
    }
}

/// What the registry of markets has to tell.
#[derive(Clone, Debug, PartialEq, Eq)]
pub enum MarketFactoryEvent {
    MarketCreated {
        market_id: String,
        question: String,
        expiry_timestamp: u64,
        oracle_id: Address,
        collateral_token: String,
        creator: Address,
    },
    OracleAdded { oracle_address: Address, timestamp: u64 },
}

/// The name of the market with the given number.
pub open spec fn market_id_text(n: nat) -> Seq<char> {
    seq!['M', 'A', 'R', 'K', 'E', 'T', '_'] + decimal_text(n)
}

/// Markets with different numbers have different names.
pub proof fn lemma_market_id_injective(a: nat, b: nat)
    requires
        market_id_text(a) == market_id_text(b),
    ensures
        a == b,
{
    assert(decimal_text(a) =~= market_id_text(a).subrange(7, market_id_text(a).len() as int));
    assert(decimal_text(b) =~= market_id_text(b).subrange(7, market_id_text(b).len() as int));
    lemma_decimal_text_injective(a, b);
}

/// What the registry holds: who administers it, the markets by name, the
/// oracles that markets may name, the number of the next market, and the
/// listing fee.
pub struct Factory {
    pub admin: Address,
    pub markets: Map<Seq<char>, MarketRecord>,
    pub oracle_whitelist: Seq<Address>,
    pub next_market_id: nat,
    pub listing_fee: u64,
}

/// The error with which the creation of a market is refused, if it is: the
/// expiry must lie after `now`, and the oracle must be on the whitelist.
pub open spec fn creation_refused(f: Factory, expiry_timestamp: u64, oracle: Address, now: u64)
    -> Option<MarketFactoryError> {
    if expiry_timestamp <= now {
        Some(MarketFactoryError::InvalidExpiryTime)
    } else if !f.oracle_whitelist.contains(oracle) {
        Some(MarketFactoryError::InvalidOracle)
    } else {
        None
    }
}

/// The market that is created from the given values as number `f.next_market_id`.
pub open spec fn created_market(
    f: Factory,
    question: Seq<char>,
    expiry_timestamp: u64,
    oracle: Address,
    collateral_token: Seq<char>,
    yes_token: Seq<char>,
    no_token: Seq<char>,
) -> MarketRecord {
    MarketRecord {
        id: market_id_text(f.next_market_id),
        question,
        expiry_timestamp,
        oracle_id: address_text(oracle),
        collateral_token,
        status: MarketStatus::Active,
        yes_token_address: yes_token,
        no_token_address: no_token,
        resolved_outcome: None,
    }
}

/// The pairs of name and market in a list of markets.
pub open spec fn market_pairs(s: Seq<Market>) -> Seq<(Seq<char>, MarketRecord)> {
    s.map_values(|m: Market| (m.id@, m@))
}

/// The pairs of name and market in a listing.
pub open spec fn listing_pairs(s: Seq<(String, Market)>) -> Seq<(Seq<char>, MarketRecord)> {
    s.map_values(|e: (String, Market)| (e.0@, e.1@))
}

/// The creation and the keeping of markets.
pub trait MarketFactory {
    /// What the implementation holds.
    spec fn state(&self) -> Factory;

    /// Creates a market for `caller` at the time `now`, with the pair of
    /// token names that the trading venue provisioned for it, or its fault.
    /// Returns the market's name and the event that reports the creation.
    fn create_market(
        &mut self,
        caller: Address,
        question: String,
        expiry_timestamp: u64,
        oracle_id: Address,
        collateral_token: String,
        pair: Result<(String, String), String>,
        now: u64,
    ) -> (r: Result<(String, MarketEvent), MarketFactoryError>)
        ensures
            match creation_refused(old(self).state(), expiry_timestamp, oracle_id, now) {
                Some(e) => final(self).state() == old(self).state() && r == Err::<
                    (String, MarketEvent),
                    MarketFactoryError,
                >(e),
                None => match pair {
                    Err(detail) => r == Err::<(String, MarketEvent), MarketFactoryError>(
                        MarketFactoryError::ApiError(detail),
                    ) && final(self).state() == old(self).state(),
                    Ok(tokens) => {
                        &&& r is Ok
                        &&& r->Ok_0.0@ == market_id_text(old(self).state().next_market_id)
                        &&& reports_creation(
                            r->Ok_0.1,
                            r->Ok_0.0@,
                            caller,
                            question,
                            expiry_timestamp,
                            oracle_id,
                            tokens,
                            now,
                        )
                        &&& !old(self).state().markets.contains_key(r->Ok_0.0@)
                        &&& final(self).state() == (Factory {
                            markets: old(self).state().markets.insert(
                                r->Ok_0.0@,
                                created_market(
                                    old(self).state(),
                                    question@,
                                    expiry_timestamp,
                                    oracle_id,
                                    collateral_token@,
                                    tokens.0@,
                                    tokens.1@,
                                ),
                            ),
                            next_market_id: old(self).state().next_market_id + 1,
                            ..old(self).state()
                        })
                    },
                },
            },
    ;

    /// The market of the given name, if there is one.
    fn get_market(&self, market_id: String) -> (r: Option<Market>)
        ensures
            match r {
                Some(m) => self.state().markets.contains_key(market_id@) && m@
                    == self.state().markets[market_id@],
                None => !self.state().markets.contains_key(market_id@),
            },
    ;

    /// All the markets, each with its name.
    fn list_markets(&self) -> (r: Vec<(String, Market)>)
        ensures
            distinct_keys(listing_pairs(r@)),
            assoc_map(listing_pairs(r@)) == self.state().markets,
    ;

    /// Puts `oracle_address` on the whitelist. Only the administrator may
    /// do so.
    fn add_oracle(&mut self, caller: Address, oracle_address: Address, now: u64) -> (r: Result<
        MarketEvent,
        MarketFactoryError,
    >)
        ensures
            caller != old(self).state().admin ==> r == Err::<MarketEvent, MarketFactoryError>(
                MarketFactoryError::Unauthorized,
            ) && final(self).state() == old(self).state(),
            caller == old(self).state().admin ==> r == Ok::<MarketEvent, MarketFactoryError>(
                MarketEvent::OracleAdded { oracle_id: oracle_address, timestamp: now },
            ) && final(self).state() == (Factory {
                oracle_whitelist: old(self).state().oracle_whitelist.push(oracle_address),
                ..old(self).state()
            }),
    ;
}

/// Whether `event` reports the creation of the market `market`.
pub open spec fn reports_creation(
    event: MarketEvent,
    market: Seq<char>,
    caller: Address,
    asked: String,
    expiry: u64,
    oracle: Address,
    tokens: (String, String),
    now: u64,
) -> bool {
    &&& event matches MarketEvent::MarketCreated {
        market_id,
        creator,
        question,
        expiry_timestamp,
        oracle_id,
        yes_token,
        no_token,
        timestamp,
    }
    &&& market_id@ == market
    &&& creator == caller
    &&& question@ == asked@
    &&& expiry_timestamp == expiry
    &&& oracle_id == oracle
    &&& yes_token@ == tokens.0@
    &&& no_token@ == tokens.1@
    &&& timestamp == now
}

/// The registry of markets.
#[derive(Debug)]
pub struct MarketFactoryState {
    markets: Vec<Market>,
    oracle_whitelist: Vec<Address>,
    admin: Address,
    listing_fee: u64,
}

impl View for MarketFactoryState {
    type V = Factory;

    closed spec fn view(&self) -> Factory {
        Factory {
            admin: self.admin,
            markets: assoc_map(market_pairs(self.markets@)),
            oracle_whitelist: self.oracle_whitelist@,
            next_market_id: self.markets@.len(),
            listing_fee: self.listing_fee,
        }
    }
}

proof fn lemma_numbered_markets_distinct(s: Seq<Market>)
    requires
        forall|i: int| 0 <= i < s.len() ==> (#[trigger] s[i]).id@ == market_id_text(i as nat),
    ensures
        distinct_keys(market_pairs(s)),
        !assoc_map(market_pairs(s)).contains_key(market_id_text(s.len())),
{
    assert forall|i: int, j: int| 0 <= i < j < s.len() implies market_pairs(s)[i].0 != market_pairs(
        s,
    )[j].0 by {
        assert(s[i].id@ == market_id_text(i as nat));
        assert(s[j].id@ == market_id_text(j as nat));
        if market_id_text(i as nat) == market_id_text(j as nat) {
            lemma_market_id_injective(i as nat, j as nat);
        }
    }
    assert forall|i: int| 0 <= i < s.len() implies market_pairs(s)[i].0 != market_id_text(
        s.len(),
    ) by {
        assert(s[i].id@ == market_id_text(i as nat));
        if market_id_text(i as nat) == market_id_text(s.len()) {
            lemma_market_id_injective(i as nat, s.len());
        }
    }
    lemma_assoc_absent(market_pairs(s), market_id_text(s.len()));
}

/// The name of the market with the given number.
pub fn market_id_string(n: u64) -> (text: String)
    ensures
        text@ == market_id_text(n as nat),
{
    proof {
        reveal_strlit("MARKET_");
        assert("MARKET_"@ =~= seq!['M', 'A', 'R', 'K', 'E', 'T', '_']);
    }
    String::from_str("MARKET_").concat(decimal_string(n).as_str())
}

impl MarketFactoryState {
    /// The markets are named after their place in the list.
    #[verifier::type_invariant]
    spec fn numbered(self) -> bool {
        forall|i: int|
            0 <= i < self.markets@.len() ==> (#[trigger] self.markets@[i]).id@ == market_id_text(
                i as nat,
            )
    }

    /// An empty registry that `admin` administers.
    pub fn new(_api_url: &str, admin: Address, listing_fee: u64) -> (r: Result<
        MarketFactoryState,
        MarketFactoryError,
    >)
        ensures
            r is Ok,
            r->Ok_0@ == (Factory {
                admin,
                markets: Map::<Seq<char>, MarketRecord>::empty(),
                oracle_whitelist: Seq::<Address>::empty(),
                next_market_id: 0,
                listing_fee,
            }),
    {
        Ok(
            MarketFactoryState {
                markets: Vec::new(),
                oracle_whitelist: Vec::new(),
                admin,
                listing_fee,
            },
        )
    }

    /// The address text of a market's YES or NO token.
    pub fn generate_token_address(market_id: &str, is_yes: bool) -> (text: String)
        ensures
            text@ == token_address_text(market_id@, is_yes),
    {
        let mut data: Vec<u8> = market_id.as_bytes_vec();
        let ghost name = data@;
        if is_yes {
            data.push(89u8);
            data.push(69u8);
            data.push(83u8);
            data.push(0u8);
            data.push(0u8);
        } else {
            data.push(78u8);
            data.push(79u8);
            data.push(0u8);
            data.push(0u8);
            data.push(0u8);
        }
        assert(data@ =~= name + token_suffix(is_yes));
        let digest = keccak256_digest(data.as_slice());
        prefixed_hex_string(digest.as_slice())
    }

    /// The name that the next market will get.
    pub fn next_market_id(&self) -> (text: String)
        ensures
            text@ == market_id_text(self@.next_market_id),
            !self@.markets.contains_key(text@),
    {
        proof {
            use_type_invariant(self);
            lemma_numbered_markets_distinct(self.markets@);
        }
        market_id_string(self.markets.len() as u64)
    }

    /// The fee for listing a market.
    pub fn listing_fee(&self) -> (fee: u64)
        ensures
            fee == self@.listing_fee,
    {
        self.listing_fee
    }

    /// Whether `oracle` is on the whitelist.
    pub fn is_whitelisted(&self, oracle: &Address) -> (b: bool)
        ensures
            b == self@.oracle_whitelist.contains(*oracle),
    {
        let mut i: usize = 0;
        while i < self.oracle_whitelist.len()
            invariant
                i <= self.oracle_whitelist@.len(),
                forall|j: int| 0 <= j < i ==> self.oracle_whitelist@[j] != *oracle,
            decreases self.oracle_whitelist@.len() - i,
        {
            if self.oracle_whitelist[i].same(oracle) {
                return true;
            }
            i += 1;
        }
        false
    }

    fn vet_market(&self, expiry_timestamp: u64, oracle_id: Address, now: u64) -> (r: Result<
        (),
        MarketFactoryError,
    >)
        ensures
            r == match creation_refused(self@, expiry_timestamp, oracle_id, now) {
                Some(e) => Err::<(), MarketFactoryError>(e),
                None => Ok::<(), MarketFactoryError>(()),
            },
    {
        if expiry_timestamp <= now {
            return Err(MarketFactoryError::InvalidExpiryTime);
        }
        if !self.is_whitelisted(&oracle_id) {
            return Err(MarketFactoryError::InvalidOracle);
        }
        Ok(())
    }

    /// Whether a market with these values can be created at the time
    /// `now`, and what to ask of the venue for it: the pair of tokens for
    /// the name that the market will get.
    pub fn plan_market(
        &self,
        expiry_timestamp: u64,
        oracle_id: Address,
        collateral_token: &str,
        now: u64,
    ) -> (r: Result<GatewayRequest, MarketFactoryError>)
        ensures
            match creation_refused(self@, expiry_timestamp, oracle_id, now) {
                Some(e) => r == Err::<GatewayRequest, MarketFactoryError>(e),
                None => r matches Ok(GatewayRequest::CreateMarketPair { market_id, collateral_token: asset })
                    && market_id@ == market_id_text(self@.next_market_id) && asset@
                    == collateral_token@,
            },
    {
        match self.vet_market(expiry_timestamp, oracle_id, now) {
            Err(e) => Err(e),
            Ok(_) => Ok(
                GatewayRequest::CreateMarketPair {
                    market_id: self.next_market_id(),
                    collateral_token: String::from_str(collateral_token),
                },
            ),
        }
    }

    fn find_market(&self, market_id: &String) -> (r: Option<usize>)
        ensures
            r is Some <==> self@.markets.contains_key(market_id@),
            r matches Some(i) ==> i < self.markets@.len() && self@.markets[market_id@]
                == self.markets@[i as int]@,
    {
        proof {
            use_type_invariant(self);
            lemma_numbered_markets_distinct(self.markets@);
        }
        let mut i: usize = 0;
        while i < self.markets.len()
            invariant
                i <= self.markets@.len(),
                distinct_keys(market_pairs(self.markets@)),
                forall|j: int| 0 <= j < i ==> market_pairs(self.markets@)[j].0 != market_id@,
            decreases self.markets@.len() - i,
        {
            if self.markets[i].id == *market_id {
                proof {
                    lemma_assoc_at(market_pairs(self.markets@), i as int);
                }
                return Some(i);
            }
            i += 1;
        }
        proof {
            lemma_assoc_absent(market_pairs(self.markets@), market_id@);
        }
        None
    }
}

impl MarketFactory for MarketFactoryState {
    open spec fn state(&self) -> Factory {
        self@
    }

    fn create_market(
        &mut self,
        caller: Address,
        question: String,
        expiry_timestamp: u64,
        oracle_id: Address,
        collateral_token: String,
        pair: Result<(String, String), String>,
        now: u64,
    ) -> (r: Result<(String, MarketEvent), MarketFactoryError>) {
        match self.vet_market(expiry_timestamp, oracle_id, now) {
            Err(e) => {
                return Err(e);
            },
            Ok(_) => {},
        }
        let (yes_token, no_token) = match pair {
            Err(detail) => {
                return Err(MarketFactoryError::ApiError(detail));
            },
            Ok(tokens) => tokens,
        };
        proof {
            use_type_invariant(&*self);
            lemma_numbered_markets_distinct(self.markets@);
        }
        let mut markets: Vec<Market> = Vec::new();
        core::mem::swap(&mut markets, &mut self.markets);
        let market_id = market_id_string(markets.len() as u64);
        let market = Market {
            id: market_id.clone(),
            question: question.clone(),
            expiry_timestamp,
            oracle_id: address_debug_text(&oracle_id),
            collateral_token,
            status: MarketStatus::Active,
            yes_token_address: yes_token.clone(),
            no_token_address: no_token.clone(),
            resolved_outcome: None,
        };
        proof {
            lemma_assoc_push(market_pairs(markets@), market.id@, market@);
            assert(market_pairs(markets@.push(market)) =~= market_pairs(markets@).push(
                (market.id@, market@),
            ));
        }
        markets.push(market);
        self.markets = markets;
        let event = MarketEvent::MarketCreated {
            market_id: market_id.clone(),
            creator: caller,
            question,
            expiry_timestamp,
            oracle_id,
            yes_token,
            no_token,
            timestamp: now,
        };
        Ok((market_id, event))
    }

    fn get_market(&self, market_id: String) -> (r: Option<Market>) {
        match self.find_market(&market_id) {
            Some(i) => Some(self.markets[i].clone()),
            None => None,
        }
    }

    fn list_markets(&self) -> (r: Vec<(String, Market)>) {
        proof {
            use_type_invariant(self);
            lemma_numbered_markets_distinct(self.markets@);
        }
        let mut out: Vec<(String, Market)> = Vec::new();
        let mut i: usize = 0;
        while i < self.markets.len()
            invariant
                i <= self.markets@.len(),
                listing_pairs(out@) =~= market_pairs(self.markets@.take(i as int)),
            decreases self.markets@.len() - i,
        {
            let market = self.markets[i].clone();
            let ghost before = out@;
            out.push((market.id.clone(), market));
            proof {
                assert(self.markets@.take(i + 1) =~= self.markets@.take(i as int).push(
                    self.markets@[i as int],
                ));
                assert(listing_pairs(out@) =~= listing_pairs(before).push(
                    (self.markets@[i as int].id@, self.markets@[i as int]@),
                ));
            }
            i += 1;
        }
        assert(self.markets@.take(i as int) =~= self.markets@);
        out
    }

    fn add_oracle(&mut self, caller: Address, oracle_address: Address, now: u64) -> (r: Result<
        MarketEvent,
        MarketFactoryError,
    >) {
        proof {
            use_type_invariant(&*self);
        }
        if !caller.same(&self.admin) {
            return Err(MarketFactoryError::Unauthorized);
        }
        let mut whitelist: Vec<Address> = Vec::new();
        core::mem::swap(&mut whitelist, &mut self.oracle_whitelist);
        whitelist.push(oracle_address);
        self.oracle_whitelist = whitelist;
        Ok(MarketEvent::OracleAdded { oracle_id: oracle_address, timestamp: now })
    }
}

} // verus!
