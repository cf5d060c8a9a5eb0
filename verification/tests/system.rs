use state_machine::system::Pallet;

#[test]
fn init_system() {
    let system = Pallet::new();
    assert_eq!(system.block_number(), 0);
}

#[test]
fn inc_block_number() {
    let mut system = Pallet::new();
    system.inc_block_number();
    assert_eq!(system.block_number(), 1);
}

#[test]
fn inc_nonce() {
    let alice = String::from("alice");
    let mut system = Pallet::new();
    system.inc_nonce(&alice);

    assert_eq!(system.get_nonce(&alice), 1);
}

#[test]
fn nonce_of_unknown_account_is_zero() {
    let system = Pallet::new();
    assert_eq!(system.get_nonce(&"nobody".to_string()), 0);
}

#[test]
fn nonces_are_counted_per_account() {
    let alice = String::from("alice");
    let bob = String::from("bob");
    let mut system = Pallet::new();
    system.inc_nonce(&alice);
    system.inc_nonce(&bob);
    system.inc_nonce(&alice);
    system.inc_nonce(&alice);

    assert_eq!(system.get_nonce(&alice), 3);
    assert_eq!(system.get_nonce(&bob), 1);
    assert_eq!(system.block_number(), 0);
}

#[test]
fn block_number_counts_up_and_leaves_nonces() {
    let alice = String::from("alice");
    let mut system = Pallet::new();
    system.inc_nonce(&alice);
    system.inc_block_number();
    system.inc_block_number();
    system.inc_block_number();
    assert_eq!(system.block_number(), 3);
    assert_eq!(system.get_nonce(&alice), 1);
}
