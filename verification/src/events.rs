use crate::types::{Address, TxHash};
use vstd::prelude::*;
use vstd::string::StringExecFns;

verus! {

/// What a market or the registry of markets reports to its observers.
#[derive(Clone, Debug, PartialEq, Eq)]
pub enum MarketEvent {
    MarketCreated {
        market_id: String,
        creator: Address,
        question: String,
        expiry_timestamp: u64,
        oracle_id: Address,
        yes_token: String,
        no_token: String,
        timestamp: u64,
    },
    TokensMinted { market_id: String, user: Address, amount: u64, timestamp: u64 },
    TokensBurned {
        market_id: String,
        user: Address,
        yes_amount: u64,
        no_amount: u64,
        timestamp: u64,
        tx_hash: TxHash,
    },
    MarketResolved {
        market_id: String,
        oracle: Address,
        outcome: bool,
        timestamp: u64,
        tx_hash: TxHash,
    },
    WinningsClaimed {
        market_id: String,
        user: Address,
        amount: u64,
        timestamp: u64,
        tx_hash: TxHash,
    },
    OrderPlaced {
        market_id: String,
        user: Address,
        side: String,
        price: u64,
        amount: u64,
        timestamp: u64,
        tx_hash: TxHash,
    },
    OrderCancelled {
        market_id: String,
        user: Address,
        order_id: String,
        timestamp: u64,
        tx_hash: TxHash,
    },
    OrdersCancelled { market_id: String, user: Address, timestamp: u64 },
    MarketExpired { market_id: String, timestamp: u64 },
    CollateralDeposited {
        market_id: String,
        user: Address,
        amount: u64,
        timestamp: u64,
        tx_hash: TxHash,
    },
    CollateralWithdrawn {
        market_id: String,
        user: Address,
        amount: u64,
        timestamp: u64,
        tx_hash: TxHash,
    },
    OracleAdded { oracle_id: Address, timestamp: u64 },
}

/// What the registry of oracles reports to its observers.
#[derive(Clone, Debug, PartialEq, Eq)]
pub enum OracleEvent {
    OracleRegistered { oracle: Address, timestamp: u64 },
    OutcomeSubmitted { market_id: String, oracle: Address, outcome: bool, timestamp: u64 },
    ReputationUpdated { oracle: Address, reputation: u64, timestamp: u64 },
}

/// Where events are written to.
#[derive(Debug)]
pub struct EventLogger {
    pub log_to_console: bool,
    pub log_to_file: bool,
    pub log_file_path: Option<String>,
}

/// The lines that a logger writes for one event: the event itself under its
/// heading where the console is on, then the note on the log file where the
/// file is on and has a path.
pub open spec fn log_lines(
    logger: EventLogger,
    heading: Seq<char>,
    file_note: Seq<char>,
    rendered: Seq<char>,
) -> Seq<Seq<char>> {
    let console = if logger.log_to_console {
        seq![heading + rendered]
    } else {
        Seq::<Seq<char>>::empty()
    };
    let file = if logger.log_to_file && logger.log_file_path is Some {
        seq![file_note + logger.log_file_path->0@]
    } else {
        Seq::<Seq<char>>::empty()
    };
    console + file
}

/// The texts of a list of lines.
pub open spec fn line_texts(lines: Seq<String>) -> Seq<Seq<char>> {
    lines.map_values(|s: String| s@)
}

impl EventLogger {
    /// A logger with the given switches.
    pub fn new(log_to_console: bool, log_to_file: bool, log_file_path: Option<String>) -> (r:
        EventLogger)
        ensures
            r.log_to_console == log_to_console,
            r.log_to_file == log_to_file,
            r.log_file_path == log_file_path,
    {
        EventLogger { log_to_console, log_to_file, log_file_path }
    }

    fn lines(&self, heading: &str, file_note: &str, rendered: &str) -> (r: Vec<String>)
        ensures
            line_texts(r@) == log_lines(*self, heading@, file_note@, rendered@),
    {
        let mut out: Vec<String> = Vec::new();
        if self.log_to_console {
            out.push(String::from_str(heading).concat(rendered));
        }
        if self.log_to_file {
            match &self.log_file_path {
                Some(path) => {
                    out.push(String::from_str(file_note).concat(path.as_str()));
                },
                None => {},
            }
        }
        assert(line_texts(out@) =~= log_lines(*self, heading@, file_note@, rendered@));
        out
    }

    /// The lines to write for a market event whose text is `rendered`.
    pub fn market_event_lines(&self, rendered: &str) -> (r: Vec<String>)
        ensures
            line_texts(r@) == log_lines(
                *self,
                "Market Event: "@,
                "Would log market event to file: "@,
                rendered@,
            ),
    {
        self.lines("Market Event: ", "Would log market event to file: ", rendered)
    }

    /// The lines to write for an oracle event whose text is `rendered`.
    pub fn oracle_event_lines(&self, rendered: &str) -> (r: Vec<String>)
        ensures
            line_texts(r@) == log_lines(
                *self,
                "Oracle Event: "@,
                "Would log oracle event to file: "@,
                rendered@,
            ),
    {
        self.lines("Oracle Event: ", "Would log oracle event to file: ", rendered)
    }
}

} // verus!
