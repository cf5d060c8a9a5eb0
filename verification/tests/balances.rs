use state_machine::balances::{Call, Pallet, INSUFFICIENT_BALANCE, OVERFLOW};
use state_machine::support::Dispatch;

#[test]
fn init_balances() {
    let mut balances = Pallet::new();

    assert_eq!(balances.balance(&"alice".to_string()), 0);
    balances.set_balance(&"alice".to_string(), 100);
    assert_eq!(balances.balance(&"alice".to_string()), 100);
    assert_eq!(balances.balance(&"bob".to_string()), 0);
}

#[test]
fn transfer_balance() {
    let mut balances = Pallet::new();

    assert_eq!(
        balances.transfer("alice".to_string(), "bob".to_string(), 51),
        Err("insufficient balance")
    );

    balances.set_balance(&"alice".to_string(), 100);
    assert_eq!(balances.transfer("alice".to_string(), "bob".to_string(), 51), Ok(()));
    assert_eq!(balances.balance(&"alice".to_string()), 49);
    assert_eq!(balances.balance(&"bob".to_string()), 51);

    assert_eq!(
        balances.transfer("alice".to_string(), "bob".to_string(), 51),
        Err("insufficient balance")
    );
}

#[test]
fn transfer_insufficient_balance() {
    let alice = "alice".to_string();
    let bob = "bob".to_string();

    let mut balances = Pallet::new();

    balances.set_balance(&alice, 100);

    let result = balances.transfer(alice.clone(), bob.clone(), 110);

    assert_eq!(result, Err("insufficient balance"));
    assert_eq!(balances.balance(&alice), 100);
    assert_eq!(balances.balance(&bob), 0);
}

#[test]
fn transfer_overflow_balance() {
    let alice = "alice".to_string();
    let bob = "bob".to_string();

    let mut balances = Pallet::new();

    balances.set_balance(&alice, 100);
    balances.set_balance(&bob, u128::MAX);

    let result = balances.transfer(alice.clone(), bob.clone(), 1);

    assert_eq!(result, Err("overflow when adding to balance"));
    assert_eq!(balances.balance(&alice), 100);
    assert_eq!(balances.balance(&bob), u128::MAX);
}

#[test]
fn fresh_pallet_has_only_zero_balances() {
    let balances = Pallet::new();
    for who in ["alice", "bob", "", "a much longer account name"] {
        assert_eq!(balances.balance(&who.to_string()), 0);
    }
}

#[test]
fn set_balance_overwrites() {
    let alice = "alice".to_string();
    let mut balances = Pallet::new();
    balances.set_balance(&alice, 7);
    balances.set_balance(&alice, 3);
    assert_eq!(balances.balance(&alice), 3);
    balances.set_balance(&alice, 0);
    assert_eq!(balances.balance(&alice), 0);
}

#[test]
fn transfer_error_messages() {
    assert_eq!(INSUFFICIENT_BALANCE, "insufficient balance");
    assert_eq!(OVERFLOW, "overflow when adding to balance");
}

#[test]
fn transfer_conserves_the_sum() {
    let alice = "alice".to_string();
    let bob = "bob".to_string();
    let carol = "carol".to_string();
    let mut balances = Pallet::new();
    balances.set_balance(&alice, 1_000);
    balances.set_balance(&bob, 5);
    balances.set_balance(&carol, 77);

    assert_eq!(balances.transfer(alice.clone(), bob.clone(), 250), Ok(()));

    assert_eq!(balances.balance(&alice), 750);
    assert_eq!(balances.balance(&bob), 255);
    assert_eq!(balances.balance(&alice) + balances.balance(&bob), 1_005);
    assert_eq!(balances.balance(&carol), 77);
}

#[test]
fn transfer_of_the_whole_balance() {
    let alice = "alice".to_string();
    let bob = "bob".to_string();
    let mut balances = Pallet::new();
    balances.set_balance(&alice, 100);
    assert_eq!(balances.transfer(alice.clone(), bob.clone(), 100), Ok(()));
    assert_eq!(balances.balance(&alice), 0);
    assert_eq!(balances.balance(&bob), 100);
}

#[test]
fn transfer_of_nothing_between_unknown_accounts() {
    let mut balances = Pallet::new();
    assert_eq!(balances.transfer("x".to_string(), "y".to_string(), 0), Ok(()));
    assert_eq!(balances.balance(&"x".to_string()), 0);
    assert_eq!(balances.balance(&"y".to_string()), 0);
}

#[test]
fn transfer_up_to_the_maximum() {
    let alice = "alice".to_string();
    let bob = "bob".to_string();
    let mut balances = Pallet::new();
    balances.set_balance(&alice, 1);
    balances.set_balance(&bob, u128::MAX - 1);
    assert_eq!(balances.transfer(alice.clone(), bob.clone(), 1), Ok(()));
    assert_eq!(balances.balance(&alice), 0);
    assert_eq!(balances.balance(&bob), u128::MAX);
}

#[test]
fn missing_funds_are_reported_before_overflow() {
    let alice = "alice".to_string();
    let bob = "bob".to_string();
    let mut balances = Pallet::new();
    balances.set_balance(&bob, u128::MAX);
    assert_eq!(balances.transfer(alice.clone(), bob.clone(), 1), Err("insufficient balance"));
    assert_eq!(balances.balance(&alice), 0);
    assert_eq!(balances.balance(&bob), u128::MAX);
}

#[test]
fn transfer_to_oneself_writes_the_credit_last() {
    let alice = "alice".to_string();
    let mut balances = Pallet::new();
    balances.set_balance(&alice, 100);
    assert_eq!(balances.transfer(alice.clone(), alice.clone(), 10), Ok(()));
    assert_eq!(balances.balance(&alice), 110);
    assert_eq!(balances.transfer(alice.clone(), alice.clone(), 111), Err("insufficient balance"));
    assert_eq!(balances.balance(&alice), 110);
}

#[test]
fn balances_dispatch_routes_transfer() {
    let alice = "alice".to_string();
    let bob = "bob".to_string();
    let mut balances = Pallet::new();
    balances.set_balance(&alice, 10);

    let accepted = balances.dispatch(alice.clone(), Call::Transfer { to: bob.clone(), amount: 4 });
    assert_eq!(accepted, Ok(()));
    assert_eq!(balances.balance(&alice), 6);
    assert_eq!(balances.balance(&bob), 4);

    let refused = balances.dispatch(alice.clone(), Call::Transfer { to: bob.clone(), amount: 7 });
    assert_eq!(refused, Err("insufficient balance"));
    assert_eq!(balances.balance(&alice), 6);
    assert_eq!(balances.balance(&bob), 4);
}
