use pinger::errors::ContractError;

#[test]
fn already_initialized_selector_matches_keccak() {
    let digest = stylus_sdk::crypto::keccak(b"AlreadyInitialized()");
    let encoded = ContractError::AlreadyInitialized.abi_encode();
    assert_eq!(encoded.len(), 4);
    assert_eq!(encoded, digest[..4].to_vec());
}

#[test]
fn not_pinger_selector_matches_keccak() {
    let digest = stylus_sdk::crypto::keccak(b"NotPinger()");
    let encoded = ContractError::NotPinger.abi_encode();
    assert_eq!(encoded.len(), 4);
    assert_eq!(encoded, digest[..4].to_vec());
}

#[test]
fn selectors_are_distinct_and_hashed() {
    let a = ContractError::AlreadyInitialized.abi_encode();
    let n = ContractError::NotPinger.abi_encode();
    assert_ne!(a, n);
    // The selector is a digest prefix, not the leading bytes of the
    // signature text itself.
    assert_ne!(a, b"Alre".to_vec());
    assert_ne!(n, b"NotP".to_vec());
}
