use staking::bridge::CrossChainBridge;

#[test]
fn test_initialize() {
    let mut bridge = CrossChainBridge::new();
    let admin: u64 = 1;
    let validator_pubkey = [0u8; 32];
    bridge.initialize(admin, validator_pubkey);
}

#[test]
fn test_process_payload() {
    let mut bridge = CrossChainBridge::new();
    let admin: u64 = 1;
    let validator_pubkey = [0u8; 32];
    bridge.initialize(admin, validator_pubkey);

    let user: u64 = 2;
    let amount = 1000i128;
    let nonce = 1i128;
    let signature = [0u8; 64];

    bridge.process_payload(user, amount, nonce, signature);
    assert_eq!(bridge.get_nonce(user), 1);
}

#[test]
fn nonce_defaults_to_zero_and_tracks_sequence() {
    let mut bridge = CrossChainBridge::new();
    bridge.initialize(1, [0u8; 32]);
    assert_eq!(bridge.get_nonce(5), 0);
    bridge.process_payload(5, 10, 1, [0u8; 64]);
    bridge.process_payload(5, 10, 2, [0u8; 64]);
    assert_eq!(bridge.get_nonce(5), 2);
    // nonces are tracked per user
    assert_eq!(bridge.get_nonce(6), 0);
}
