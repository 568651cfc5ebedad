use std::collections::HashMap;

use stellar_aid::host::{Address, AddressKind, ContractError, Env, HostEffect};
use stellar_aid::withdrawal::WithdrawalContract;

fn account(n: u128) -> Address {
    Address { kind: AddressKind::Account, hi: 0, lo: n }
}

fn contract_address(n: u128) -> Address {
    Address { kind: AddressKind::Contract, hi: 0, lo: n }
}

/// Token balances, moved by the transfers the host carries out.
struct Ledger {
    balances: HashMap<(Address, Address), i128>,
}

impl Ledger {
    fn new() -> Ledger {
        Ledger { balances: HashMap::new() }
    }

    fn mint(&mut self, token: Address, to: Address, amount: i128) {
        *self.balances.entry((token, to)).or_insert(0) += amount;
    }

    fn balance(&self, token: Address, of: Address) -> i128 {
        *self.balances.get(&(token, of)).unwrap_or(&0)
    }

    fn settle(&mut self, env: &mut Env) {
        for effect in env.effects.drain(..) {
            if let HostEffect::Transfer { token, from, to, amount } = effect {
                *self.balances.entry((token, from)).or_insert(0) -= amount;
                *self.balances.entry((token, to)).or_insert(0) += amount;
            }
        }
    }
}

fn setup(max_withdrawal: i128) -> (WithdrawalContract, Env, Address, Address, Address) {
    let mut client = WithdrawalContract::new(contract_address(1));
    let token_id = contract_address(2);
    let beneficiary = account(3);
    let admin = account(4);
    client.initialize(beneficiary, max_withdrawal, token_id, admin);
    (client, Env::new(10, 0, 17280), token_id, beneficiary, admin)
}

fn withdraw(client: &mut WithdrawalContract, env: &mut Env, ledger: &mut Ledger, token: Address, amount: i128) -> Result<bool, ContractError> {
    let balance = ledger.balance(token, client.address());
    let r = client.withdraw(env, amount, balance);
    ledger.settle(env);
    r
}

#[test]
fn test_withdraw_success() {
    let (mut client, mut env, token_id, beneficiary, _admin) = setup(500i128);
    let mut ledger = Ledger::new();
    ledger.mint(token_id, client.address(), 300i128);

    assert!(withdraw(&mut client, &mut env, &mut ledger, token_id, 200i128).unwrap());
    assert_eq!(client.get_total_withdrawn(), 200i128);
    assert_eq!(ledger.balance(token_id, beneficiary), 200i128);
}

#[test]
fn test_withdraw_exceeds_max() {
    let (mut client, mut env, token_id, _beneficiary, _admin) = setup(100i128);
    let mut ledger = Ledger::new();
    ledger.mint(token_id, client.address(), 500i128);

    assert!(!withdraw(&mut client, &mut env, &mut ledger, token_id, 200i128).unwrap());
    assert_eq!(client.get_total_withdrawn(), 0i128);
}

#[test]
fn test_withdraw_insufficient_contract_balance() {
    let (mut client, mut env, token_id, _beneficiary, _admin) = setup(500i128);
    let mut ledger = Ledger::new();
    ledger.mint(token_id, client.address(), 50i128);

    assert!(!withdraw(&mut client, &mut env, &mut ledger, token_id, 100i128).unwrap());
    assert_eq!(client.get_total_withdrawn(), 0i128);
}

#[test]
#[should_panic(expected = "Contract is paused")]
fn test_withdraw_when_paused() {
    let (mut client, mut env, token_id, _beneficiary, admin) = setup(500i128);
    let mut ledger = Ledger::new();
    ledger.mint(token_id, client.address(), 300i128);

    client.pause(&mut env, admin).unwrap();
    if let Err(e) = withdraw(&mut client, &mut env, &mut ledger, token_id, 100i128) {
        panic!("{}", e.message());
    }
}

#[test]
fn test_pause_unpause_withdraw() {
    let (mut client, mut env, token_id, _beneficiary, admin) = setup(500i128);
    let mut ledger = Ledger::new();
    ledger.mint(token_id, client.address(), 300i128);

    client.pause(&mut env, admin).unwrap();
    client.unpause(&mut env, admin).unwrap();

    assert!(withdraw(&mut client, &mut env, &mut ledger, token_id, 100i128).unwrap());
    assert_eq!(client.get_total_withdrawn(), 100i128);
}

#[test]
fn withdraw_before_initialisation_is_refused() {
    let mut client = WithdrawalContract::new(contract_address(1));
    let mut env = Env::new(1, 0, 17280);
    assert_eq!(client.withdraw(&mut env, 1, 10), Err(ContractError::WithdrawalNotInitialized));
    assert_eq!(
        ContractError::WithdrawalNotInitialized.message(),
        "withdrawal not initialized"
    );
    assert!(env.effects.is_empty());
}

#[test]
fn payout_asks_beneficiary_and_moves_tokens() {
    let (mut client, mut env, token_id, beneficiary, _admin) = setup(500i128);
    assert_eq!(client.withdraw(&mut env, 120, 120), Ok(true));
    assert_eq!(
        env.effects,
        vec![
            HostEffect::RequireAuth(beneficiary),
            HostEffect::Transfer { token: token_id, from: client.address(), to: beneficiary, amount: 120 },
        ]
    );
    assert_eq!(client.withdraw(&mut env, 500, 1000), Ok(true));
    assert_eq!(client.get_total_withdrawn(), 620);
}

#[test]
fn negative_withdrawals_are_refused_and_pay_nothing() {
    let (mut client, mut env, token_id, _beneficiary, _admin) = setup(500i128);
    let mut ledger = Ledger::new();
    ledger.mint(token_id, client.address(), 300i128);

    let r = withdraw(&mut client, &mut env, &mut ledger, token_id, -10i128);
    assert_eq!(r, Err(ContractError::NegativeTransfer));
    assert_eq!(ContractError::NegativeTransfer.message(), "negative amount is not allowed");
    assert_eq!(client.get_total_withdrawn(), 0i128);
    assert!(env.effects.is_empty());
}
