use hypermarket::auth::{AuthError, AuthManager};
use hypermarket::types::Address;

#[test]
fn test_auth_manager() {
    let mut auth_manager = AuthManager::new("http://localhost:8545").unwrap();

    // Test initial state
    assert!(auth_manager.get_current_address().is_err());

    // Test connecting wallet
    auth_manager.connect_wallet("dummy_private_key").unwrap();
    assert!(auth_manager.get_current_address().is_ok());

    // Test creating signed request
    let result = auth_manager.create_signed_request("test_action");
    assert!(result.is_ok());
}

#[test]
fn unconnected_manager_is_not_authenticated() {
    let auth_manager = AuthManager::new("http://localhost:8545").unwrap();
    assert_eq!(auth_manager.get_current_address(), Err(AuthError::NotAuthenticated));
}

#[test]
fn connected_wallet_is_the_zero_address() {
    let mut auth_manager = AuthManager::new("http://localhost:8545").unwrap();
    auth_manager.connect_wallet("anything").unwrap();
    assert_eq!(auth_manager.get_current_address(), Ok(Address::zero()));
    assert_eq!(Address::zero().bytes, [0u8; 20]);
}

#[test]
fn signed_request_is_the_fixed_pair() {
    let auth_manager = AuthManager::new("http://localhost:8545").unwrap();
    let (message, signature) = auth_manager.create_signed_request("test_action").unwrap();
    assert_eq!(message, "dummy_message");
    assert_eq!(signature, "dummy_signature");
}

#[test]
fn auth_error_messages() {
    assert_eq!(AuthError::Unauthorized.message(), "Unauthorized");
    assert_eq!(AuthError::InvalidSignature.message(), "Invalid signature");
    assert_eq!(AuthError::InvalidWallet.message(), "Invalid wallet");
    assert_eq!(AuthError::NotAuthenticated.message(), "Not authenticated");
}

#[test]
fn address_comparison_is_by_bytes() {
    let mut bytes = [7u8; 20];
    let a = Address::from_bytes(bytes);
    let b = Address::from_bytes(bytes);
    bytes[19] = 8;
    let c = Address::from_bytes(bytes);
    assert!(a.same(&b));
    assert!(!a.same(&c));
    assert!(!Address::zero().same(&a));
}
