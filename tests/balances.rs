use rust_state_machine::balances::{Call, Pallet};
use rust_state_machine::support::{Dispatch, Error};

#[test]
fn init_balance() {
    let mut balances = Pallet::new();
    let alice = "alice".to_string();
    let bob = "bob".to_string();

    assert_eq!(balances.balance(&alice), 0);
    balances.set_balance(&alice, 100);
    assert_eq!(balances.balance(&alice), 100);
    assert_eq!(balances.balance(&bob), 0);
}

#[test]
fn transfer() {
    let mut balances = Pallet::new();

    assert_eq!(
        balances.transfer("alice".to_string(), "bob".to_string(), 100).map_err(|e| e.message()),
        Err("Insufficient balance")
    );

    balances.set_balance(&"alice".to_string(), 100);

    assert_eq!(balances.transfer("alice".to_string(), "bob".to_string(), 49), Ok(()));

    assert_eq!(balances.balance(&"alice".to_string()), 51);

    assert_eq!(balances.balance(&"bob".to_string()), 49);
}

#[test]
fn transfer_whole_balance_then_overdraw() {
    let mut balances = Pallet::new();
    let alice = "alice".to_string();
    let bob = "bob".to_string();
    balances.set_balance(&alice, 100);
    assert_eq!(balances.transfer(alice.clone(), bob.clone(), 100), Ok(()));
    assert_eq!(balances.balance(&alice), 0);
    assert_eq!(balances.balance(&bob), 100);
    assert_eq!(balances.transfer(alice.clone(), bob.clone(), 1), Err(Error::InsufficientBalance));
    assert_eq!(balances.balance(&alice), 0);
    assert_eq!(balances.balance(&bob), 100);
}

#[test]
fn transfer_overflow_changes_nothing() {
    let mut balances = Pallet::new();
    let alice = "alice".to_string();
    let bob = "bob".to_string();
    balances.set_balance(&alice, 10);
    balances.set_balance(&bob, u128::MAX - 5);
    assert_eq!(balances.transfer(alice.clone(), bob.clone(), 6), Err(Error::Overflow));
    assert_eq!(balances.balance(&alice), 10);
    assert_eq!(balances.balance(&bob), u128::MAX - 5);
    assert_eq!(balances.transfer(alice.clone(), bob.clone(), 5), Ok(()));
    assert_eq!(balances.balance(&alice), 5);
    assert_eq!(balances.balance(&bob), u128::MAX);
}

#[test]
fn self_transfer_of_zero_is_a_no_op() {
    let mut balances = Pallet::new();
    let alice = "alice".to_string();
    balances.set_balance(&alice, 100);
    assert_eq!(balances.transfer(alice.clone(), alice.clone(), 0), Ok(()));
    assert_eq!(balances.balance(&alice), 100);
}

#[test]
fn self_transfer_keeps_the_balance() {
    let mut balances = Pallet::new();
    let alice = "alice".to_string();
    balances.set_balance(&alice, 100);
    assert_eq!(balances.transfer(alice.clone(), alice.clone(), 10), Ok(()));
    assert_eq!(balances.balance(&alice), 100);
    assert_eq!(balances.transfer(alice.clone(), alice.clone(), 100), Ok(()));
    assert_eq!(balances.balance(&alice), 100);
    assert_eq!(balances.transfer(alice.clone(), alice.clone(), 101), Err(Error::InsufficientBalance));
    assert_eq!(balances.balance(&alice), 100);
}

#[test]
fn transfers_keep_the_total() {
    let mut balances = Pallet::new();
    let names = ["alice", "bob", "charlie"];
    let accounts: Vec<String> = names.iter().map(|n| n.to_string()).collect();
    balances.set_balance(&accounts[0], 70);
    balances.set_balance(&accounts[1], 30);
    let total = |p: &Pallet| -> u128 { accounts.iter().map(|a| p.balance(a)).sum() };
    assert_eq!(total(&balances), 100);
    assert_eq!(balances.transfer(accounts[0].clone(), accounts[2].clone(), 25), Ok(()));
    assert_eq!(balances.transfer(accounts[1].clone(), accounts[0].clone(), 40), Err(Error::InsufficientBalance));
    assert_eq!(balances.transfer(accounts[2].clone(), accounts[1].clone(), 5), Ok(()));
    assert_eq!(total(&balances), 100);
    assert_eq!(balances.balance(&accounts[0]), 45);
    assert_eq!(balances.balance(&accounts[1]), 35);
    assert_eq!(balances.balance(&accounts[2]), 20);
}

#[test]
fn balances_dispatch_routes_transfer() {
    let mut balances = Pallet::new();
    let alice = "alice".to_string();
    let bob = "bob".to_string();
    balances.set_balance(&alice, 8);
    let call = Call::Transfer { to: bob.clone(), amount: 3 };
    assert_eq!(balances.dispatch(alice.clone(), call), Ok(()));
    assert_eq!(balances.balance(&alice), 5);
    assert_eq!(balances.balance(&bob), 3);
    let call = Call::Transfer { to: bob.clone(), amount: 6 };
    assert_eq!(balances.dispatch(alice.clone(), call), Err(Error::InsufficientBalance));
}

#[test]
fn error_messages() {
    assert_eq!(Error::InsufficientBalance.message(), "Insufficient balance");
    assert_eq!(Error::Overflow.message(), "Overflow");
    assert_eq!(Error::AlreadyClaimed.message(), "This content is already claimed");
    assert_eq!(Error::NoSuchClaim.message(), "Claim does not exist");
    assert_eq!(Error::NotOwner.message(), "You are not the owner of this claim");
    assert_eq!(Error::InvalidBlockNumber.message(), "Invalid block number");
}
