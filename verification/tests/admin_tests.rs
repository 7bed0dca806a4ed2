use dca_order::admin::initialize;
use dca_order::admin::update_config;
use dca_order::errors::CustomError;
use dca_order::state::GlobalConfig;

fn id(b: u8) -> [u8; 32] {
    [b; 32]
}

#[test]
fn initialize_sets_all_fields() {
    let r = initialize(id(1), 250, id(2));
    let (config, event) = r.expect("valid fee rate must succeed");
    assert_eq!(config.owner, id(1));
    assert_eq!(config.platform_fee, 250);
    assert_eq!(config.treasury, id(2));
    assert!(!config.paused);
    assert!(config.reserved.iter().all(|b| *b == 0));
    assert_eq!(event.owner, id(1));
    assert_eq!(event.platform_fee, 250);
    assert_eq!(event.treasury, id(2));
    assert!(!event.paused);
}

#[test]
fn initialize_rejects_fee_at_denominator() {
    assert_eq!(initialize(id(1), 10000, id(2)), Err(CustomError::InvalidPlatformFee));
    assert_eq!(initialize(id(1), u16::MAX, id(2)), Err(CustomError::InvalidPlatformFee));
}

#[test]
fn initialize_accepts_fee_just_below_denominator() {
    assert!(initialize(id(1), 9999, id(2)).is_ok());
    assert!(initialize(id(1), 0, id(2)).is_ok());
}

#[test]
fn update_config_replaces_all_four_fields() {
    let (config, _) = initialize(id(1), 250, id(2)).unwrap();
    let r = update_config(&config, id(1), id(7), 42, id(8), true);
    let (new_config, event) = r.expect("owner with valid fee must succeed");
    assert_eq!(new_config.owner, id(7));
    assert_eq!(new_config.platform_fee, 42);
    assert_eq!(new_config.treasury, id(8));
    assert!(new_config.paused);
    assert_eq!(new_config.reserved, config.reserved);
    assert_eq!(event.owner, id(7));
    assert_eq!(event.platform_fee, 42);
    assert_eq!(event.treasury, id(8));
    assert!(event.paused);
}

#[test]
fn update_config_rejects_non_owner_and_changes_nothing() {
    let (config, _) = initialize(id(1), 250, id(2)).unwrap();
    let before = config;
    let r = update_config(&config, id(9), id(7), 42, id(8), true);
    assert_eq!(r, Err(CustomError::Unauthorized));
    assert_eq!(config, before);
}

#[test]
fn update_config_rejects_out_of_bounds_fee() {
    let (config, _) = initialize(id(1), 250, id(2)).unwrap();
    let r = update_config(&config, id(1), id(7), 10000, id(8), false);
    assert_eq!(r, Err(CustomError::InvalidPlatformFee));
}
