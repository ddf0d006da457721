use ledger_runtime::support::{Dispatch, Error};
use ledger_runtime::{balances, proof_of_existence, system};
use ledger_runtime::{Runtime, RuntimeCall};

struct TestConfig;

impl system::Config for TestConfig {
    type AccountId = &'static str;
    type BlockNumber = u64;
    type Nonce = u64;
}

impl balances::Config for TestConfig {
    type Balance = u64;
}

impl proof_of_existence::Config for TestConfig {
    type Content = &'static str;
}

#[test]
fn runtime_starts_empty() {
    let runtime = Runtime::<TestConfig>::new();
    assert_eq!(runtime.system.block_number(), 0);
    assert_eq!(runtime.system.nonce(&"alice"), 0);
    assert_eq!(runtime.balances.balance(&"alice"), 0);
    assert_eq!(runtime.proof_of_existence.get_claim(&"doc"), None);
}

#[test]
fn runtime_routes_each_call_to_its_module() {
    let mut runtime = Runtime::<TestConfig>::new();
    runtime.balances.set_balance(&"alice", 100);
    runtime.system.inc_block_number();

    runtime.system.inc_nonce(&"alice");
    let call = RuntimeCall::Balances(balances::Call::Transfer { to: "bob", amount: 30 });
    assert_eq!(runtime.dispatch("alice", call), Ok(()));

    runtime.system.inc_nonce(&"alice");
    let call = RuntimeCall::Balances(balances::Call::Transfer { to: "charlie", amount: 80 });
    assert_eq!(runtime.dispatch("alice", call), Err(Error::InsufficientFunds));

    let call = RuntimeCall::ProofOfExistence(proof_of_existence::Call::CreateClaim("doc"));
    assert_eq!(runtime.dispatch("bob", call), Ok(()));

    assert_eq!(runtime.system.block_number(), 1);
    assert_eq!(runtime.system.nonce(&"alice"), 2);
    assert_eq!(runtime.balances.balance(&"alice"), 70);
    assert_eq!(runtime.balances.balance(&"bob"), 30);
    assert_eq!(runtime.balances.balance(&"charlie"), 0);
    assert_eq!(runtime.proof_of_existence.get_claim(&"doc"), Some(&"bob"));
}
