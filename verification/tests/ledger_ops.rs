use solana_bridge::errors::BridgeError;
use solana_bridge::ledger::{
    add_locked, check_validator_set, get_total_locked, initialize, pause_bridge, subtract_locked,
    unpause_bridge, update_validators,
};

fn dummy_keys(n: usize) -> Vec<Vec<u8>> {
    let mut keys: Vec<Vec<u8>> = Vec::new();
    for i in 0..n {
        let mut k = vec![0u8; 1952];
        k[0] = i as u8;
        keys.push(k);
    }
    keys
}

const ADMIN: [u8; 32] = [7u8; 32];

#[test]
fn initialize_sets_fresh_ledger() {
    let config = initialize(ADMIN, 1000, dummy_keys(5)).unwrap();
    assert_eq!(config.admin, ADMIN);
    assert!(!config.paused);
    assert_eq!(config.max_transfer_amount, 1000);
    assert_eq!(config.total_locked, 0);
    assert_eq!(config.timelock, 0);
    assert_eq!(config.validators.len(), 5);
}

#[test]
fn initialize_rejects_small_validator_set() {
    let r = initialize(ADMIN, 1000, dummy_keys(4));
    assert_eq!(r.err(), Some(BridgeError::InvalidValidatorSet));
}

#[test]
fn initialize_rejects_repeated_key() {
    let mut keys = dummy_keys(5);
    keys[4] = keys[2].clone();
    let r = initialize(ADMIN, 1000, keys);
    assert_eq!(r.err(), Some(BridgeError::InvalidValidatorSet));
}

#[test]
fn validator_set_check_is_exact() {
    assert!(check_validator_set(&dummy_keys(5)));
    assert!(check_validator_set(&dummy_keys(9)));
    assert!(!check_validator_set(&dummy_keys(0)));
    assert!(!check_validator_set(&dummy_keys(4)));
    let mut keys = dummy_keys(6);
    keys[5] = keys[0].clone();
    assert!(!check_validator_set(&keys));
}

#[test]
fn pause_and_unpause_are_admin_only() {
    let mut config = initialize(ADMIN, 1000, dummy_keys(5)).unwrap();
    let stranger: [u8; 32] = [9u8; 32];
    assert_eq!(pause_bridge(&mut config, stranger).err(), Some(BridgeError::Unauthorized));
    assert!(!config.paused);
    assert!(pause_bridge(&mut config, ADMIN).is_ok());
    assert!(config.paused);
    assert_eq!(unpause_bridge(&mut config, stranger).err(), Some(BridgeError::Unauthorized));
    assert!(config.paused);
    assert!(unpause_bridge(&mut config, ADMIN).is_ok());
    assert!(!config.paused);
}

#[test]
fn update_validators_is_admin_only_and_checked() {
    let mut config = initialize(ADMIN, 1000, dummy_keys(5)).unwrap();
    let stranger: [u8; 32] = [9u8; 32];
    assert_eq!(
        update_validators(&mut config, stranger, dummy_keys(7)).err(),
        Some(BridgeError::Unauthorized)
    );
    assert_eq!(config.validators.len(), 5);
    assert_eq!(
        update_validators(&mut config, ADMIN, dummy_keys(3)).err(),
        Some(BridgeError::InvalidValidatorSet)
    );
    assert_eq!(config.validators.len(), 5);
    assert!(update_validators(&mut config, ADMIN, dummy_keys(7)).is_ok());
    assert_eq!(config.validators.len(), 7);
}

#[test]
fn locked_total_uses_checked_arithmetic() {
    let mut config = initialize(ADMIN, 1000, dummy_keys(5)).unwrap();
    assert!(add_locked(&mut config, 600).is_ok());
    assert_eq!(get_total_locked(&config), 600);
    assert_eq!(
        add_locked(&mut config, u64::MAX).err(),
        Some(BridgeError::ArithmeticOverflow)
    );
    assert_eq!(get_total_locked(&config), 600);
    assert!(subtract_locked(&mut config, 100).is_ok());
    assert_eq!(get_total_locked(&config), 500);
    assert_eq!(
        subtract_locked(&mut config, 501).err(),
        Some(BridgeError::ArithmeticUnderflow)
    );
    assert_eq!(get_total_locked(&config), 500);
    assert!(subtract_locked(&mut config, 500).is_ok());
    assert_eq!(get_total_locked(&config), 0);
}
