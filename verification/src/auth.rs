use crate::types::Address;
use vstd::prelude::*;
use vstd::string::StringExecFns;

verus! {

/// What can go wrong when the acting identity is established.
#[derive(Clone, Copy, Debug, PartialEq, Eq)]
pub enum AuthError {
    Unauthorized,
    InvalidSignature,
    InvalidWallet,
    NotAuthenticated,
}

impl AuthError {
    /// The text that describes the error.
    pub open spec fn message_text(self) -> Seq<char> {
        match self {
            AuthError::Unauthorized => "Unauthorized"@,
            AuthError::InvalidSignature => "Invalid signature"@,
            AuthError::InvalidWallet => "Invalid wallet"@,
            AuthError::NotAuthenticated => "Not authenticated"@,
        }
    }

    /// The text that describes the error.
    pub fn message(&self) -> (text: String)
        ensures
            text@ == self.message_text(),
    {
        match self {
            AuthError::Unauthorized => String::from_str("Unauthorized"),
            AuthError::InvalidSignature => String::from_str("Invalid signature"),
            AuthError::InvalidWallet => String::from_str("Invalid wallet"),
            AuthError::NotAuthenticated => String::from_str("Not authenticated"),
        }
    }
}

/// Holds the identity on whose behalf calls are made, once a wallet is
/// connected.
#[derive(Debug)]
pub struct AuthManager {
    current_address: Option<Address>,
}

impl View for AuthManager {
    type V = Option<Address>;

    closed spec fn view(&self) -> Option<Address> {
        self.current_address
    }
}

impl AuthManager {
    /// A manager to which no wallet is connected yet.
    pub fn new(_rpc_url: &str) -> (r: Result<AuthManager, AuthError>)
        ensures
            r matches Ok(m) && m@ is None,
    {
        Ok(AuthManager { current_address: None })
    }

    /// Connects a wallet. The key is not looked at: the identity becomes the
    /// all-zero address.
    pub fn connect_wallet(&mut self, _private_key: &str) -> (r: Result<(), AuthError>)
        ensures
            r is Ok,
            final(self)@ matches Some(a) && a.is_zero(),
    {
        self.current_address = Some(Address::zero());
        Ok(())
    }

    /// The acting identity, or `NotAuthenticated` while no wallet is
    /// connected.
    pub fn get_current_address(&self) -> (r: Result<Address, AuthError>)
        ensures
            r == match self@ {
                Some(a) => Ok::<Address, AuthError>(a),
                None => Err::<Address, AuthError>(AuthError::NotAuthenticated),
            },
    {
        match self.current_address {
            Some(a) => Ok(a),
            None => Err(AuthError::NotAuthenticated),
        }
    }

    /// A message and its signature for the given action. Both are fixed
    /// texts: signing is left to the wallet.
    pub fn create_signed_request(&self, _action: &str) -> (r: Result<(String, String), AuthError>)
        ensures
            r matches Ok(pair) && pair.0@ == "dummy_message"@ && pair.1@ == "dummy_signature"@,
    {
        Ok((String::from_str("dummy_message"), String::from_str("dummy_signature")))
    }
}

} // verus!
