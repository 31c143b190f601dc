use crate::assoc::{
    assoc_map, distinct_keys, lemma_assoc_absent, lemma_assoc_at, lemma_assoc_push,
    lemma_assoc_update,
};
use crate::auth::AuthError;
use crate::encoding::{address_debug_text, address_text, decimal_string, decimal_text};
use crate::events::OracleEvent;
use crate::types::Address;
use vstd::prelude::*;
use vstd::string::StringExecFns;

verus! {

/// Why the registry of oracles refused a call.
#[derive(Clone, Copy, Debug, PartialEq, Eq)]
pub enum OracleError {
    Unauthorized,
    InvalidMarket,
    MarketAlreadyResolved,
    AuthError(AuthError),
    OracleNotRegistered,
    OutcomeAlreadySubmitted,
    InvalidSignature,
}

impl OracleError {
    /// The text that describes the error.
    pub open spec fn message_text(self) -> Seq<char> {
        match self {
            OracleError::Unauthorized => "Unauthorized"@,
            OracleError::InvalidMarket => "Invalid market"@,
            OracleError::MarketAlreadyResolved => "Market already resolved"@,
            OracleError::AuthError(e) => "Authentication error: "@ + e.message_text(),
            OracleError::OracleNotRegistered => "Oracle not registered"@,
            OracleError::OutcomeAlreadySubmitted => "Outcome already submitted"@,
            OracleError::InvalidSignature => "Invalid signature"@,
        }
    }

    /// The text that describes the error.
    pub fn message(&self) -> (text: String)
        ensures
            text@ == self.message_text(),
    {
        match self {
            OracleError::Unauthorized => String::from_str("Unauthorized"),
            OracleError::InvalidMarket => String::from_str("Invalid market"),
            OracleError::MarketAlreadyResolved => String::from_str("Market already resolved"),
            OracleError::AuthError(e) => String::from_str("Authentication error: ").concat(
                e.message().as_str(),
            ),
            OracleError::OracleNotRegistered => String::from_str("Oracle not registered"),
            OracleError::OutcomeAlreadySubmitted => String::from_str("Outcome already submitted"),
            OracleError::InvalidSignature => String::from_str("Invalid signature"),
        }
    }
}

impl From<AuthError> for OracleError {
    fn from(e: AuthError) -> (r: OracleError) {
        OracleError::AuthError(e)
    }
}

impl vstd::std_specs::convert::FromSpecImpl<AuthError> for OracleError {
    open spec fn obeys_from_spec() -> bool {
        true
    }

    open spec fn from_spec(e: AuthError) -> OracleError {
        OracleError::AuthError(e)
    }
}

/// A store of outcomes, at most one for each market and never changed once
/// it is written.
pub trait OracleManager {
    /// The outcomes that were submitted, by market.
    spec fn outcomes(&self) -> Map<Seq<char>, bool>;

    /// Records `outcome` for the market on behalf of `caller`, unless the
    /// market has an outcome already.
    fn submit_outcome(&mut self, caller: Address, market_id: String, outcome: bool, now: u64) -> (r:
        Result<OracleEvent, OracleError>)
        ensures
            old(self).outcomes().contains_key(market_id@) ==> r is Err,
            r is Ok ==> final(self).outcomes() == old(self).outcomes().insert(market_id@, outcome),
            r is Err ==> final(self).outcomes() == old(self).outcomes(),
    ;

    /// The outcome of the market, where one was submitted.
    fn get_outcome(&self, market_id: String) -> (r: Option<bool>)
        ensures
            r == (if self.outcomes().contains_key(market_id@) {
                Some(self.outcomes()[market_id@])
            } else {
                None
            }),
    ;
}

/// An oracle with the number of its accepted submissions.
#[derive(Clone, Copy, Debug)]
pub struct OracleRecord {
    pub oracle: Address,
    pub reputation: u64,
}

/// The outcome that was submitted for one market.
#[derive(Clone, Debug)]
pub struct OutcomeRecord {
    pub market_id: String,
    pub outcome: bool,
}

/// What the registry holds: who administers it, the registered oracles with
/// their reputation, and the outcomes by market.
pub struct Registry {
    pub admin: Address,
    pub reputation: Map<Address, nat>,
    pub outcomes: Map<Seq<char>, bool>,
}

/// The pairs of oracle and reputation in a list of records.
pub open spec fn oracle_pairs(s: Seq<OracleRecord>) -> Seq<(Address, nat)> {
    s.map_values(|r: OracleRecord| (r.oracle, r.reputation as nat))
}

/// The pairs of market and outcome in a list of records.
pub open spec fn outcome_pairs(s: Seq<OutcomeRecord>) -> Seq<(Seq<char>, bool)> {
    s.map_values(|r: OutcomeRecord| (r.market_id@, r.outcome))
}

/// The error with which a submission is refused, if it is.
pub open spec fn submission_refused(g: Registry, caller: Address, market_id: Seq<char>) -> Option<
    OracleError,
> {
    if !g.reputation.contains_key(caller) {
        Some(OracleError::Unauthorized)
    } else if g.outcomes.contains_key(market_id) {
        Some(OracleError::MarketAlreadyResolved)
    } else {
        None
    }
}

/// A detached signature: the two scalars as 32 bytes each, the high byte
/// first, and the recovery value.
#[derive(Clone, Copy, Debug, PartialEq, Eq)]
pub struct OutcomeSignature {
    pub r: [u8; 32],
    pub s: [u8; 32],
    pub v: u64,
}

/// The text that an oracle signs to submit an outcome: the market, the
/// outcome as `true` or `false`, the time in decimal and the oracle's
/// address, with a colon between each two.
pub open spec fn outcome_message_text(
    market_id: Seq<char>,
    outcome: bool,
    timestamp: u64,
    oracle: Address,
) -> Seq<char> {
    market_id + seq![':'] + (if outcome {
        seq!['t', 'r', 'u', 'e']
    } else {
        seq!['f', 'a', 'l', 's', 'e']
    }) + seq![':'] + decimal_text(timestamp as nat) + seq![':'] + address_text(oracle)
}

/// The text that an oracle signs to submit an outcome.
pub fn outcome_message(market_id: &str, outcome: bool, timestamp: u64, oracle: &Address) -> (text:
    String)
    ensures
        text@ == outcome_message_text(market_id@, outcome, timestamp, *oracle),
{
    proof {
        reveal_strlit(":");
        reveal_strlit("true");
        reveal_strlit("false");
        assert(":"@ =~= seq![':']);
        assert("true"@ =~= seq!['t', 'r', 'u', 'e']);
        assert("false"@ =~= seq!['f', 'a', 'l', 's', 'e']);
    }
    let mut text = String::from_str(market_id);
    text.append(":");
    if outcome {
        text.append("true");
    } else {
        text.append("false");
    }
    text.append(":");
    text.append(decimal_string(timestamp).as_str());
    text.append(":");
    text.append(address_debug_text(oracle).as_str());
    text
}

/// The bytes of the account that signed `message` with the signature of
/// the given scalars and recovery value, as `ethers` recovers it; nothing
/// where no account can be recovered.
pub uninterp spec fn recovered_signer(message: Seq<u8>, r: Seq<u8>, s: Seq<u8>, v: u64) -> Option<
    Seq<u8>,
>;

/// Whether the signature on `message` is that of `who`.
pub open spec fn signed_by(message: Seq<u8>, signature: OutcomeSignature, who: Address) -> bool {
    recovered_signer(message, signature.r@, signature.s@, signature.v) == Some(who.bytes@)
}

/// `ethers::types::Signature::recover` on the message bytes: the account
/// whose key made the signature, or nothing where `ethers` reports an
/// error. The contract only gives the result its name; nothing is proved
/// of the signature scheme.
#[verifier::external_body]
pub(crate) fn recover_signer(message: &[u8], signature: &OutcomeSignature) -> (signer: Option<
    Address,
>)
    ensures
        match signer {
            Some(a) => recovered_signer(message@, signature.r@, signature.s@, signature.v) == Some(
                a.bytes@,
            ),
            None => recovered_signer(message@, signature.r@, signature.s@, signature.v) is None,
        },
{
    let parsed = ethers::types::Signature {
        r: ethers::types::U256::from_big_endian(&signature.r),
        s: ethers::types::U256::from_big_endian(&signature.s),
        v: signature.v,
    };
    match parsed.recover(message.to_vec()) {
        Ok(account) => Some(Address { bytes: account.0 }),
        Err(_) => None,
    }
}

/// The error with which a signed submission is refused, if it is: the
/// caller must be registered, the signature must be the caller's, and the
/// market must have no outcome yet.
pub open spec fn signed_submission_refused(
    g: Registry,
    caller: Address,
    market_id: Seq<char>,
    valid: bool,
) -> Option<OracleError> {
    if !g.reputation.contains_key(caller) {
        Some(OracleError::OracleNotRegistered)
    } else if !valid {
        Some(OracleError::InvalidSignature)
    } else if g.outcomes.contains_key(market_id) {
        Some(OracleError::OutcomeAlreadySubmitted)
    } else {
        None
    }
}

/// Outcomes are written once: when a submission has been accepted, every
/// further submission for the same market is refused, signed or not and
/// whoever makes it, and the outcome stays as it was written.
pub proof fn lemma_outcome_written_once(
    g: Registry,
    caller: Address,
    market_id: Seq<char>,
    outcome: bool,
    next: Address,
    valid: bool,
)
    requires
        submission_refused(g, caller, market_id) is None,
    ensures
        ({
            let after = Registry { outcomes: g.outcomes.insert(market_id, outcome), ..g };
            &&& submission_refused(after, next, market_id) is Some
            &&& signed_submission_refused(after, next, market_id, valid) is Some
            &&& after.outcomes[market_id] == outcome
        }),
{
}

/// A reputation after one more accepted submission; it stays at the
/// largest number once it is there.
pub open spec fn raised(reputation: nat) -> nat {
    if reputation < u64::MAX {
        reputation + 1
    } else {
        reputation
    }
}

/// The registry after the signed submission of `caller` was accepted.
pub open spec fn signed_submission_effect(
    g: Registry,
    caller: Address,
    market_id: Seq<char>,
    outcome: bool,
) -> Registry {
    Registry {
        reputation: g.reputation.insert(caller, raised(g.reputation[caller])),
        outcomes: g.outcomes.insert(market_id, outcome),
        ..g
    }
}

/// Whether the two events report an accepted signed submission.
pub open spec fn reports_signed_submission(
    events: (OracleEvent, OracleEvent),
    market: String,
    caller: Address,
    decided: bool,
    standing: nat,
    now: u64,
) -> bool {
    &&& events.0 == (OracleEvent::OutcomeSubmitted {
        market_id: market,
        oracle: caller,
        outcome: decided,
        timestamp: now,
    })
    &&& events.1 matches OracleEvent::ReputationUpdated { oracle, reputation, timestamp }
    &&& oracle == caller
    &&& reputation == standing
    &&& timestamp == now
}

/// The registry of oracles and of the outcomes that they submitted.
#[derive(Debug)]
pub struct OracleManagerState {
    admin: Address,
    oracles: Vec<OracleRecord>,
    outcomes: Vec<OutcomeRecord>,
}

impl View for OracleManagerState {
    type V = Registry;

    closed spec fn view(&self) -> Registry {
        Registry {
            admin: self.admin,
            reputation: assoc_map(oracle_pairs(self.oracles@)),
            outcomes: assoc_map(outcome_pairs(self.outcomes@)),
        }
    }
}

impl OracleManagerState {
    /// No oracle and no market is recorded twice.
    #[verifier::type_invariant]
    spec fn no_duplicates(self) -> bool {
        &&& distinct_keys(oracle_pairs(self.oracles@))
        &&& distinct_keys(outcome_pairs(self.outcomes@))
    }

    /// An empty registry that `admin` administers.
    pub fn new(admin: Address) -> (s: OracleManagerState)
        ensures
            s@ == (Registry {
                admin,
                reputation: Map::<Address, nat>::empty(),
                outcomes: Map::<Seq<char>, bool>::empty(),
            }),
    {
        OracleManagerState { admin, oracles: Vec::new(), outcomes: Vec::new() }
    }

    fn find_oracle(&self, oracle: &Address) -> (r: Option<usize>)
        ensures
            r is Some <==> self@.reputation.contains_key(*oracle),
            r matches Some(i) ==> i < self.oracles@.len() && self.oracles@[i as int].oracle
                == *oracle && self@.reputation[*oracle] == self.oracles@[i as int].reputation,
    {
        proof {
            use_type_invariant(self);
        }
        let mut i: usize = 0;
        while i < self.oracles.len()
            invariant
                i <= self.oracles@.len(),
                distinct_keys(oracle_pairs(self.oracles@)),
                forall|j: int| 0 <= j < i ==> oracle_pairs(self.oracles@)[j].0 != *oracle,
            decreases self.oracles@.len() - i,
        {
            if self.oracles[i].oracle.same(oracle) {
                proof {
                    lemma_assoc_at(oracle_pairs(self.oracles@), i as int);
                }
                return Some(i);
            }
            i += 1;
        }
        proof {
            lemma_assoc_absent(oracle_pairs(self.oracles@), *oracle);
        }
        None
    }

    fn find_outcome(&self, market_id: &String) -> (r: Option<usize>)
        ensures
            r is Some <==> self@.outcomes.contains_key(market_id@),
            r matches Some(i) ==> i < self.outcomes@.len() && self.outcomes@[i as int].market_id@
                == market_id@ && self@.outcomes[market_id@] == self.outcomes@[i as int].outcome,
    {
        proof {
            use_type_invariant(self);
        }
        let mut i: usize = 0;
        while i < self.outcomes.len()
            invariant
                i <= self.outcomes@.len(),
                distinct_keys(outcome_pairs(self.outcomes@)),
                forall|j: int| 0 <= j < i ==> outcome_pairs(self.outcomes@)[j].0 != market_id@,
            decreases self.outcomes@.len() - i,
        {
            if self.outcomes[i].market_id == *market_id {
                proof {
                    lemma_assoc_at(outcome_pairs(self.outcomes@), i as int);
                }
                return Some(i);
            }
            i += 1;
        }
        proof {
            lemma_assoc_absent(outcome_pairs(self.outcomes@), market_id@);
        }
        None
    }

    /// Whether `oracle` is registered.
    pub fn is_registered(&self, oracle: Address) -> (b: bool)
        ensures
            b == self@.reputation.contains_key(oracle),
    {
        self.find_oracle(&oracle).is_some()
    }

    /// The number of accepted signed submissions of `oracle`, where it is
    /// registered.
    pub fn reputation_of(&self, oracle: Address) -> (r: Option<u64>)
        ensures
            match r {
                Some(n) => self@.reputation.contains_key(oracle) && self@.reputation[oracle] == n,
                None => !self@.reputation.contains_key(oracle),
            },
    {
        match self.find_oracle(&oracle) {
            Some(i) => Some(self.oracles[i].reputation),
            None => None,
        }
    }

    /// Registers `oracle`, with no reputation yet. Only the administrator
    /// may do so. An oracle that is registered already stays as it is.
    pub fn register_oracle(&mut self, caller: Address, oracle: Address, now: u64) -> (r: Result<
        OracleEvent,
        OracleError,
    >)
        ensures
            caller != old(self)@.admin ==> r == Err::<OracleEvent, OracleError>(
                OracleError::Unauthorized,
            ) && final(self)@ == old(self)@,
            caller == old(self)@.admin ==> r == Ok::<OracleEvent, OracleError>(
                OracleEvent::OracleRegistered { oracle, timestamp: now },
            ) && final(self)@ == (Registry {
                reputation: if old(self)@.reputation.contains_key(oracle) {
                    old(self)@.reputation
                } else {
                    old(self)@.reputation.insert(oracle, 0)
                },
                ..old(self)@
            }),
    {
        proof {
            use_type_invariant(&*self);
        }
        if !caller.same(&self.admin) {
            return Err(OracleError::Unauthorized);
        }
        if self.find_oracle(&oracle).is_none() {
            let mut oracles: Vec<OracleRecord> = Vec::new();
            core::mem::swap(&mut oracles, &mut self.oracles);
            proof {
                lemma_assoc_push(oracle_pairs(oracles@), oracle, 0nat);
                assert(oracle_pairs(oracles@.push(OracleRecord { oracle, reputation: 0 }))
                    =~= oracle_pairs(oracles@).push((oracle, 0nat)));
            }
            oracles.push(OracleRecord { oracle, reputation: 0 });
            self.oracles = oracles;
        }
        Ok(OracleEvent::OracleRegistered { oracle, timestamp: now })
    }

    fn record_outcome(&mut self, market_id: String, outcome: bool)
        requires
            !old(self)@.outcomes.contains_key(market_id@),
        ensures
            final(self)@ == (Registry {
                outcomes: old(self)@.outcomes.insert(market_id@, outcome),
                ..old(self)@
            }),
    {
        proof {
            use_type_invariant(&*self);
        }
        let mut outcomes: Vec<OutcomeRecord> = Vec::new();
        core::mem::swap(&mut outcomes, &mut self.outcomes);
        proof {
            lemma_assoc_push(outcome_pairs(outcomes@), market_id@, outcome);
            assert(outcome_pairs(outcomes@.push(OutcomeRecord { market_id, outcome }))
                =~= outcome_pairs(outcomes@).push((market_id@, outcome)));
        }
        outcomes.push(OutcomeRecord { market_id, outcome });
        self.outcomes = outcomes;
    }
}

impl OracleManagerState {
    /// Records `outcome` for the market on the word of `caller`, given the
    /// account `signer` that the submission's signature was recovered to,
    /// and raises the caller's reputation.
    pub fn accept_signed_outcome(
        &mut self,
        caller: Address,
        market_id: String,
        outcome: bool,
        signer: Option<Address>,
        now: u64,
    ) -> (r: Result<(OracleEvent, OracleEvent), OracleError>)
        ensures
            match signed_submission_refused(
                old(self)@,
                caller,
                market_id@,
                signer == Some(caller),
            ) {
                Some(e) => r == Err::<(OracleEvent, OracleEvent), OracleError>(e) && final(self)@
                    == old(self)@,
                None => r is Ok && reports_signed_submission(
                    r->Ok_0,
                    market_id,
                    caller,
                    outcome,
                    raised(old(self)@.reputation[caller]),
                    now,
                ) && final(self)@ == signed_submission_effect(
                    old(self)@,
                    caller,
                    market_id@,
                    outcome,
                ),
            },
    {
        let at = match self.find_oracle(&caller) {
            None => {
                return Err(OracleError::OracleNotRegistered);
            },
            Some(at) => at,
        };
        match signer {
            None => {
                return Err(OracleError::InvalidSignature);
            },
            Some(account) => {
                if !account.same(&caller) {
                    return Err(OracleError::InvalidSignature);
                }
            },
        }
        if self.find_outcome(&market_id).is_some() {
            return Err(OracleError::OutcomeAlreadySubmitted);
        }
        let standing = self.raise_reputation(at);
        self.record_outcome(market_id.clone(), outcome);
        Ok(
            (
                OracleEvent::OutcomeSubmitted { market_id, oracle: caller, outcome, timestamp: now },
                OracleEvent::ReputationUpdated {
                    oracle: caller,
                    reputation: standing,
                    timestamp: now,
                },
            ),
        )
    }

    fn raise_reputation(&mut self, at: usize) -> (standing: u64)
        requires
            at < old(self).oracles@.len(),
        ensures
            standing == raised(old(self).oracles@[at as int].reputation as nat),
            final(self)@ == (Registry {
                reputation: old(self)@.reputation.insert(
                    old(self).oracles@[at as int].oracle,
                    standing as nat,
                ),
                ..old(self)@
            }),
    {
        proof {
            use_type_invariant(&*self);
        }
        let mut oracles: Vec<OracleRecord> = Vec::new();
        core::mem::swap(&mut oracles, &mut self.oracles);
        let ghost before = oracle_pairs(oracles@);
        let record = oracles[at];
        let standing = if record.reputation < u64::MAX {
            record.reputation + 1
        } else {
            record.reputation
        };
        oracles.set(at, OracleRecord { oracle: record.oracle, reputation: standing });
        proof {
            lemma_assoc_update(before, at as int, standing as nat);
            assert(oracle_pairs(oracles@) =~= before.update(
                at as int,
                (record.oracle, standing as nat),
            ));
        }
        self.oracles = oracles;
        standing
    }

    /// Records `outcome` for the market on the word of `caller`, whose
    /// signature over the market, the outcome, `timestamp` and the caller's
    /// address comes with it, and raises the caller's reputation.
    pub fn submit_signed_outcome(
        &mut self,
        caller: Address,
        market_id: String,
        outcome: bool,
        timestamp: u64,
        signature: &OutcomeSignature,
        now: u64,
    ) -> (r: Result<(OracleEvent, OracleEvent), OracleError>)
        ensures
            match signed_submission_refused(
                old(self)@,
                caller,
                market_id@,
                signed_by(
                    vstd::utf8::encode_utf8(
                        outcome_message_text(market_id@, outcome, timestamp, caller),
                    ),
                    *signature,
                    caller,
                ),
            ) {
                Some(e) => r == Err::<(OracleEvent, OracleEvent), OracleError>(e) && final(self)@
                    == old(self)@,
                None => r is Ok && reports_signed_submission(
                    r->Ok_0,
                    market_id,
                    caller,
                    outcome,
                    raised(old(self)@.reputation[caller]),
                    now,
                ) && final(self)@ == signed_submission_effect(
                    old(self)@,
                    caller,
                    market_id@,
                    outcome,
                ),
            },
    {
        let message = outcome_message(market_id.as_str(), outcome, timestamp, &caller);
        let signer = recover_signer(message.as_str().as_bytes(), signature);
        proof {
            if signer is Some && signer->0.bytes@ == caller.bytes@ {
                assert(signer->0.bytes == caller.bytes);
            }
        }
        self.accept_signed_outcome(caller, market_id, outcome, signer, now)
    }
}

impl OracleManager for OracleManagerState {
    open spec fn outcomes(&self) -> Map<Seq<char>, bool> {
        self@.outcomes
    }

    /// Records `outcome` for the market. The caller must be a registered
    /// oracle, and the market must have no outcome yet.
    fn submit_outcome(&mut self, caller: Address, market_id: String, outcome: bool, now: u64) -> (r:
        Result<OracleEvent, OracleError>)
        ensures
            match submission_refused(old(self)@, caller, market_id@) {
                Some(e) => r == Err::<OracleEvent, OracleError>(e) && final(self)@ == old(self)@,
                None => r == Ok::<OracleEvent, OracleError>(
                    OracleEvent::OutcomeSubmitted {
                        market_id,
                        oracle: caller,
                        outcome,
                        timestamp: now,
                    },
                ) && final(self)@ == (Registry {
                    outcomes: old(self)@.outcomes.insert(market_id@, outcome),
                    ..old(self)@
                }),
            },
    {
        if self.find_oracle(&caller).is_none() {
            return Err(OracleError::Unauthorized);
        }
        if self.find_outcome(&market_id).is_some() {
            return Err(OracleError::MarketAlreadyResolved);
        }
        self.record_outcome(market_id.clone(), outcome);
        Ok(OracleEvent::OutcomeSubmitted { market_id, oracle: caller, outcome, timestamp: now })
    }

    fn get_outcome(&self, market_id: String) -> (r: Option<bool>) {
        match self.find_outcome(&market_id) {
            Some(i) => Some(self.outcomes[i].outcome),
            None => None,
        }
    }
}

} // verus!
