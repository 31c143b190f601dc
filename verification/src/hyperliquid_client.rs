use crate::auth::{AuthError, AuthManager};
use crate::types::TxHash;
use std::sync::Arc;
use vstd::prelude::*;
use vstd::string::StringExecFns;

verus! {

/// A stand-in for the trading venue that answers without a venue: it names
/// token pairs after their market and confirms deposits of a connected
/// wallet with the all-zero reference.
#[derive(Debug)]
pub struct HyperliquidClient {
    auth_manager: Arc<AuthManager>,
}

impl View for HyperliquidClient {
    type V = AuthManager;

    closed spec fn view(&self) -> AuthManager {
        *self.auth_manager
    }
}

impl Default for HyperliquidClient {
    fn default() -> (r: HyperliquidClient)
        ensures
            r@@ is None,
    {
        let manager = AuthManager::new("http://localhost:8545");
        HyperliquidClient { auth_manager: Arc::new(manager.unwrap()) }
    }
}

impl HyperliquidClient {
    /// A client that acts for the identity that `auth_manager` holds.
    pub fn new(auth_manager: Arc<AuthManager>) -> (r: HyperliquidClient)
        ensures
            r@ == *auth_manager,
    {
        HyperliquidClient { auth_manager }
    }

    /// The names of a market's YES and NO tokens: the market's name with
    /// `_YES` and with `_NO` behind it.
    pub fn create_market_pair(&self, market_id: &str, _collateral_token: &str) -> (r: Result<
        (String, String),
        String,
    >)
        ensures
            r matches Ok(pair) && pair.0@ == market_id@ + "_YES"@ && pair.1@ == market_id@ + "_NO"@,
    {
        let yes_token = String::from_str(market_id).concat("_YES");
        let no_token = String::from_str(market_id).concat("_NO");
        Ok((yes_token, no_token))
    }

    /// Confirms a deposit with the all-zero reference, or says that no
    /// wallet is connected.
    pub fn deposit_collateral(&self, _token: &str, _amount: u64) -> (r: Result<TxHash, String>)
        ensures
            match self@@ {
                Some(_) => r matches Ok(reference) && reference.is_zero(),
                None => r matches Err(detail) && detail@
                    == AuthError::NotAuthenticated.message_text(),
            },
    {
        match self.auth_manager.get_current_address() {
            Ok(_) => Ok(TxHash::zero()),
            Err(e) => Err(e.message()),
        }
    }
}

} // verus!
