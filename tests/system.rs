use rust_state_machine::system::Pallet;

#[test]
fn init_system() {
    let mut system = Pallet::new();

    system.inc_block_number();
    system.inc_nonce("alice".to_string());

    assert_eq!(system.block_number(), 1);
    assert_eq!(system.nonce(&"alice".to_string()), Some(1));
    assert_eq!(system.nonce(&"bob".to_string()), None);
}

#[test]
fn counters_start_at_zero_and_count_up() {
    let mut system = Pallet::new();
    assert_eq!(system.block_number(), 0);
    system.inc_block_number();
    system.inc_block_number();
    system.inc_block_number();
    assert_eq!(system.block_number(), 3);
    system.inc_nonce("alice".to_string());
    system.inc_nonce("bob".to_string());
    system.inc_nonce("alice".to_string());
    assert_eq!(system.nonce(&"alice".to_string()), Some(2));
    assert_eq!(system.nonce(&"bob".to_string()), Some(1));
}
