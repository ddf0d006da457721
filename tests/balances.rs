use ledger_runtime::balances;
use ledger_runtime::support::{Dispatch, Error};
use ledger_runtime::system;

struct TestConfig;

impl system::Config for TestConfig {
    type AccountId = &'static str;
    type BlockNumber = u32;
    type Nonce = u32;
}

impl balances::Config for TestConfig {
    type Balance = u128;
}

#[test]
fn init_balances() {
    let mut balances = balances::Pallet::<TestConfig>::new();

    assert_eq!(balances.balance(&"alice"), 0);

    balances.set_balance(&"alice", 100);
    assert_eq!(balances.balance(&"alice"), 100);

    assert_eq!(balances.balance(&"bob"), 0)
}

#[test]
fn transfer_balance() {
    let mut balances = balances::Pallet::<TestConfig>::new();

    let alice = "alice";
    let bob = "bob";

    assert!(balances.transfer(alice, bob, 100).is_err());

    balances.set_balance(&alice, 100);
    assert!(balances.transfer(alice, bob, 50).is_ok());

    assert_eq!(balances.balance(&alice), 50);
    assert_eq!(balances.balance(&bob), 50);
}

#[test]
fn transfer_whole_balance_then_one_more() {
    let mut balances = balances::Pallet::<TestConfig>::new();
    balances.set_balance(&"alice", 100);
    balances.set_balance(&"bob", 0);
    assert_eq!(balances.transfer("alice", "bob", 100), Ok(()));
    assert_eq!(balances.balance(&"alice"), 0);
    assert_eq!(balances.balance(&"bob"), 100);
    assert_eq!(balances.transfer("alice", "bob", 1), Err(Error::InsufficientFunds));
    assert_eq!(balances.balance(&"alice"), 0);
    assert_eq!(balances.balance(&"bob"), 100);
}

#[test]
fn insufficient_funds_changes_nothing() {
    let mut balances = balances::Pallet::<TestConfig>::new();
    balances.set_balance(&"alice", 7);
    balances.set_balance(&"bob", 3);
    assert_eq!(balances.transfer("alice", "bob", 8), Err(Error::InsufficientFunds));
    assert_eq!(balances.balance(&"alice"), 7);
    assert_eq!(balances.balance(&"bob"), 3);
}

#[test]
fn overflow_at_destination_changes_nothing() {
    let mut balances = balances::Pallet::<TestConfig>::new();
    balances.set_balance(&"alice", 10);
    balances.set_balance(&"bob", u128::MAX - 5);
    assert_eq!(balances.transfer("alice", "bob", 6), Err(Error::BalanceOverflow));
    assert_eq!(balances.balance(&"alice"), 10);
    assert_eq!(balances.balance(&"bob"), u128::MAX - 5);
    assert_eq!(balances.transfer("alice", "bob", 5), Ok(()));
    assert_eq!(balances.balance(&"alice"), 5);
    assert_eq!(balances.balance(&"bob"), u128::MAX);
}

#[test]
fn successful_transfer_conserves_the_sum() {
    let mut balances = balances::Pallet::<TestConfig>::new();
    balances.set_balance(&"alice", 1000);
    balances.set_balance(&"bob", 234);
    assert_eq!(balances.transfer("alice", "bob", 321), Ok(()));
    assert_eq!(balances.balance(&"alice"), 679);
    assert_eq!(balances.balance(&"bob"), 555);
    assert_eq!(balances.balance(&"alice") + balances.balance(&"bob"), 1234);
}

#[test]
fn self_transfer_changes_nothing() {
    let mut balances = balances::Pallet::<TestConfig>::new();
    balances.set_balance(&"alice", 40);
    assert_eq!(balances.transfer("alice", "alice", 15), Ok(()));
    assert_eq!(balances.balance(&"alice"), 40);
    assert_eq!(balances.transfer("alice", "alice", 41), Err(Error::InsufficientFunds));
    assert_eq!(balances.balance(&"alice"), 40);
}

#[test]
fn self_transfer_out_of_range_overflows() {
    let mut balances = balances::Pallet::<TestConfig>::new();
    balances.set_balance(&"alice", u128::MAX - 1);
    assert_eq!(balances.transfer("alice", "alice", 2), Err(Error::BalanceOverflow));
    assert_eq!(balances.balance(&"alice"), u128::MAX - 1);
}

#[test]
fn zero_transfer_from_unknown_account() {
    let mut balances = balances::Pallet::<TestConfig>::new();
    assert_eq!(balances.transfer("nobody", "bob", 0), Ok(()));
    assert_eq!(balances.balance(&"nobody"), 0);
    assert_eq!(balances.balance(&"bob"), 0);
}

#[test]
fn dispatch_routes_a_transfer() {
    let mut balances = balances::Pallet::<TestConfig>::new();
    balances.set_balance(&"alice", 20);
    let call = balances::Call::Transfer { to: "bob", amount: 12 };
    assert_eq!(balances.dispatch("alice", call), Ok(()));
    assert_eq!(balances.balance(&"alice"), 8);
    assert_eq!(balances.balance(&"bob"), 12);
    let call = balances::Call::Transfer { to: "bob", amount: 9 };
    assert_eq!(balances.dispatch("alice", call), Err(Error::InsufficientFunds));
}
