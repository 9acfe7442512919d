use std::cell::Cell;

use callback_vm::{
    AccountChange, AccountCommitment, AccountRow, Address, Callback, CallbackVM, Gas, Log,
    Requirement, ScriptVM, TableState, VMStatus, H256, M256, U256,
};

fn addr(tag: u8) -> Address {
    let mut bytes = [0u8; 20];
    bytes[0] = tag;
    Address { bytes }
}

fn u256(v: u64) -> U256 {
    U256 { limbs: [v, 0, 0, 0] }
}

fn m256(v: u64) -> M256 {
    M256 { limbs: [v, 0, 0, 0] }
}

fn h256(tag: u8) -> H256 {
    let mut bytes = [0u8; 32];
    bytes[0] = tag;
    H256 { bytes }
}

fn gas(v: u64) -> Gas {
    Gas { limbs: [v, 0, 0, 0] }
}

fn row(address: Address, balance: u64, nonce: u64, code: Vec<u8>) -> AccountRow {
    AccountRow { address, balance: u256(balance), nonce: u256(nonce), code, storage: Vec::new() }
}

/// A capability whose balance answer changes on every lookup, to show that
/// the adapter re-fetches values for each requirement rather than caching
/// them across requirements.
struct BumpingState {
    balance_calls: Cell<u64>,
}

impl Callback for BumpingState {
    fn balance(&self, _address: Address) -> U256 {
        let calls: u64 = self.balance_calls.get();
        self.balance_calls.set(calls + 1);
        u256(100 + calls)
    }

    fn nonce(&self, _address: Address) -> U256 {
        u256(3)
    }

    fn code(&self, _address: Address) -> Vec<u8> {
        Vec::new()
    }

    fn storage(&self, _address: Address, _index: U256) -> M256 {
        m256(0)
    }

    fn account_exists(&self, _address: Address) -> bool {
        true
    }

    fn blockhash(&self, _number: U256) -> H256 {
        h256(0)
    }
}

/// A capability that answers block hashes and fails loudly on any account
/// operation, to show that a block-hash requirement consults nothing else.
struct HashOnlyState;

impl Callback for HashOnlyState {
    fn balance(&self, _address: Address) -> U256 {
        panic!("balance must not be consulted for a block-hash requirement");
    }

    fn nonce(&self, _address: Address) -> U256 {
        panic!("nonce must not be consulted for a block-hash requirement");
    }

    fn code(&self, _address: Address) -> Vec<u8> {
        panic!("code must not be consulted for a block-hash requirement");
    }

    fn storage(&self, _address: Address, _index: U256) -> M256 {
        panic!("storage must not be consulted for a block-hash requirement");
    }

    fn account_exists(&self, _address: Address) -> bool {
        panic!("existence must not be consulted for a block-hash requirement");
    }

    fn blockhash(&self, number: U256) -> H256 {
        h256(number.limbs[0] as u8)
    }
}

#[test]
fn scenario_nonexistent_account() {
    let state = TableState::empty();
    let x = addr(1);
    let vm = ScriptVM::scripted(vec![Requirement::Account(x)]);
    let mut adapter = CallbackVM::new(vm, &state);
    adapter.fire();
    assert_eq!(adapter.vm.received_commits(), & vec![AccountCommitment::Nonexist(x)]);
    assert_eq!(adapter.vm.received_hash_commits().len(), 0);
}

#[test]
fn scenario_full_account() {
    let x = addr(1);
    let mut state = TableState::empty();
    state.accounts.push(row(x, 100, 3, vec![0x60, 0x00]));
    let vm = ScriptVM::scripted(vec![Requirement::Account(x)]);
    let mut adapter = CallbackVM::new(vm, &state);
    adapter.fire();
    assert_eq!(
        adapter.vm.received_commits(),
        &vec![AccountCommitment::Full {
            nonce: u256(3),
            address: x,
            balance: u256(100),
            code: vec![0x60, 0x00],
        }]
    );
    assert_eq!(adapter.vm.received_hash_commits().len(), 0);
}

#[test]
fn scenario_storage_slot() {
    let x = addr(1);
    let mut state = TableState::empty();
    let mut account = row(x, 1, 0, Vec::new());
    account.storage = vec![(u256(5), m256(0x2A)), (u256(6), m256(0x99))];
    state.accounts.push(account);
    let vm = ScriptVM::scripted(vec![Requirement::AccountStorage(x, u256(5))]);
    let mut adapter = CallbackVM::new(vm, &state);
    adapter.fire();
    assert_eq!(
        adapter.vm.received_commits(),
        &vec![AccountCommitment::Storage { address: x, index: u256(5), value: m256(0x2A) }]
    );
}

#[test]
fn scenario_blockhash() {
    let mut state = TableState::empty();
    state.hashes.push((u256(7), h256(0xAB)));
    let vm = ScriptVM::scripted(vec![Requirement::Blockhash(u256(7))]);
    let mut adapter = CallbackVM::new(vm, &state);
    adapter.fire();
    assert_eq!(adapter.vm.received_hash_commits(), & vec![(u256(7), h256(0xAB))]);
    assert_eq!(adapter.vm.received_commits().len(), 0);
}

#[test]
fn blockhash_consults_nothing_else() {
    let state = HashOnlyState;
    let vm = ScriptVM::scripted(vec![Requirement::Blockhash(u256(9)), Requirement::Blockhash(u256(2))]);
    let mut adapter = CallbackVM::new(vm, &state);
    adapter.fire();
    assert_eq!(adapter.vm.received_hash_commits(), & vec![(u256(9), h256(9)), (u256(2), h256(2))]);
}

#[test]
fn scenario_self_destruct() {
    let state = TableState::empty();
    let x = addr(9);
    let mut vm = ScriptVM::scripted(Vec::new());
    vm.set_results(
        VMStatus::ExitedOk,
        vec![AccountChange::Nonexist(x)],
        vec![x],
        Vec::new(),
        gas(0),
        gas(0),
        Vec::new(),
        vec![x],
    );
    let mut adapter = CallbackVM::new(vm, &state);
    adapter.fire();
    let removed = adapter.removed();
    assert_eq!(removed, &vec![x]);
    assert_eq!(removed.iter().filter(|a| **a == x).count(), 1);
    assert_eq!(adapter.accounts(), &vec![AccountChange::Nonexist(x)]);
}

#[test]
fn code_only_commitment() {
    let x = addr(1);
    let mut state = TableState::empty();
    state.accounts.push(row(x, 5, 1, vec![0x01, 0x02, 0x03]));
    let vm = ScriptVM::scripted(vec![Requirement::AccountCode(x)]);
    let mut adapter = CallbackVM::new(vm, &state);
    adapter.fire();
    assert_eq!(
        adapter.vm.received_commits(),
        &vec![AccountCommitment::Code { address: x, code: vec![0x01, 0x02, 0x03] }]
    );
}

#[test]
fn nonexistent_uniform_over_kinds() {
    let state = TableState::empty();
    let x = addr(4);
    let vm = ScriptVM::scripted(vec![
        Requirement::Account(x),
        Requirement::AccountCode(x),
        Requirement::AccountStorage(x, u256(5)),
    ]);
    let mut adapter = CallbackVM::new(vm, &state);
    adapter.fire();
    assert_eq!(
        adapter.vm.received_commits(),
        &vec![
            AccountCommitment::Nonexist(x),
            AccountCommitment::Nonexist(x),
            AccountCommitment::Nonexist(x),
        ]
    );
}

#[test]
fn full_values_refetched_per_requirement() {
    let state = BumpingState { balance_calls: Cell::new(0) };
    let x = addr(2);
    let vm = ScriptVM::scripted(vec![Requirement::Account(x), Requirement::Account(x)]);
    let mut adapter = CallbackVM::new(vm, &state);
    adapter.fire();
    assert_eq!(adapter.vm.received_commits().len(), 2);
    assert_eq!(
        adapter.vm.received_commits()[0],
        AccountCommitment::Full { nonce: u256(3), address: x, balance: u256(100), code: Vec::new() }
    );
    assert_eq!(
        adapter.vm.received_commits()[1],
        AccountCommitment::Full { nonce: u256(3), address: x, balance: u256(101), code: Vec::new() }
    );
}

#[test]
fn pairing_every_requirement_answered_once() {
    let x = addr(1);
    let y = addr(2);
    let mut state = TableState::empty();
    let mut account = row(x, 10, 1, vec![0xFE]);
    account.storage = vec![(u256(3), m256(7))];
    state.accounts.push(account);
    state.hashes.push((u256(11), h256(0x11)));
    let script = vec![
        Requirement::Account(x),
        Requirement::AccountCode(y),
        Requirement::AccountStorage(x, u256(3)),
        Requirement::Blockhash(u256(11)),
        Requirement::Account(y),
    ];
    let n_account_reqs: usize = 4;
    let n_hash_reqs: usize = 1;
    let vm = ScriptVM::scripted(script);
    let mut adapter = CallbackVM::new(vm, &state);
    adapter.fire();
    assert_eq!(adapter.vm.remaining_script().len(), 0);
    assert_eq!(adapter.vm.received_commits().len(), n_account_reqs);
    assert_eq!(adapter.vm.received_hash_commits().len(), n_hash_reqs);
    assert!(matches!(adapter.vm.received_commits()[0], AccountCommitment::Full { address, .. } if address == x));
    assert!(matches!(adapter.vm.received_commits()[1], AccountCommitment::Nonexist(address) if address == y));
    assert!(
        matches!(adapter.vm.received_commits()[2], AccountCommitment::Storage { address, index, .. } if address == x && index == u256(3))
    );
    assert_eq!(adapter.vm.received_hash_commits()[0].0, u256(11));
    assert!(matches!(adapter.vm.received_commits()[3], AccountCommitment::Nonexist(address) if address == y));
}

#[test]
fn accessors_idempotent() {
    let state = TableState::empty();
    let x = addr(8);
    let mut vm = ScriptVM::scripted(Vec::new());
    vm.set_results(
        VMStatus::ExitedOk,
        vec![AccountChange::IncreaseBalance(x, u256(4))],
        vec![x],
        vec![1, 2, 3],
        gas(21000),
        gas(5),
        vec![Log { address: x, topics: vec![h256(1)], data: vec![9] }],
        vec![x],
    );
    let mut adapter = CallbackVM::new(vm, &state);
    adapter.fire();
    assert_eq!(adapter.status(), adapter.status());
    assert_eq!(adapter.out(), adapter.out());
    assert_eq!(adapter.logs(), adapter.logs());
    assert_eq!(adapter.removed(), adapter.removed());
    assert_eq!(adapter.used_addresses(), adapter.used_addresses());
    assert_eq!(adapter.accounts(), adapter.accounts());
    assert_eq!(adapter.available_gas(), adapter.available_gas());
    assert_eq!(adapter.refunded_gas(), adapter.refunded_gas());
    assert_eq!(adapter.out(), &vec![1, 2, 3]);
    assert_eq!(adapter.status(), VMStatus::ExitedOk);
    assert_eq!(adapter.available_gas(), gas(21000));
    assert_eq!(adapter.refunded_gas(), gas(5));
}

#[test]
fn empty_script_no_commitments() {
    let state = TableState::empty();
    let vm = ScriptVM::scripted(Vec::new());
    let mut adapter = CallbackVM::new(vm, &state);
    adapter.fire();
    assert_eq!(adapter.vm.received_commits().len(), 0);
    assert_eq!(adapter.vm.received_hash_commits().len(), 0);
}

#[test]
fn first_matching_row_answers() {
    let x = addr(3);
    let mut state = TableState::empty();
    state.accounts.push(row(x, 7, 1, vec![0xAA]));
    state.accounts.push(row(x, 8, 2, vec![0xBB]));
    let vm = ScriptVM::scripted(vec![Requirement::Account(x)]);
    let mut adapter = CallbackVM::new(vm, &state);
    adapter.fire();
    assert_eq!(
        adapter.vm.received_commits(),
        &vec![AccountCommitment::Full { nonce: u256(1), address: x, balance: u256(7), code: vec![0xAA] }]
    );
}

#[test]
fn resolve_blockhash_direct() {
    let mut state = TableState::empty();
    state.hashes.push((u256(3), h256(0x5C)));
    let r = callback_vm::resolve(&state, &Requirement::Blockhash(u256(3)));
    assert_eq!(r, callback_vm::Resolution::Blockhash { number: u256(3), hash: h256(0x5C) });
}

#[test]
fn resolve_full_account_direct() {
    let x = addr(6);
    let mut state = TableState::empty();
    state.accounts.push(row(x, 42, 7, vec![0x5B]));
    let r = callback_vm::resolve(&state, &Requirement::Account(x));
    assert_eq!(
        r,
        callback_vm::Resolution::Account(AccountCommitment::Full {
            nonce: u256(7),
            address: x,
            balance: u256(42),
            code: vec![0x5B],
        })
    );
}

#[test]
fn unwritten_storage_slot_answers_zero() {
    let x = addr(1);
    let mut state = TableState::empty();
    state.accounts.push(row(x, 1, 0, Vec::new()));
    let vm = ScriptVM::scripted(vec![Requirement::AccountStorage(x, u256(9))]);
    let mut adapter = CallbackVM::new(vm, &state);
    adapter.fire();
    assert_eq!(
        adapter.vm.received_commits(),
        &vec![AccountCommitment::Storage { address: x, index: u256(9), value: m256(0) }]
    );
}

#[test]
fn failing_status_is_a_normal_return() {
    let state = TableState::empty();
    let x = addr(5);
    let mut vm = ScriptVM::scripted(vec![Requirement::Account(x)]);
    vm.set_results(
        VMStatus::ExitedErr(callback_vm::OnChainError::Revert),
        Vec::new(),
        Vec::new(),
        Vec::new(),
        gas(0),
        gas(0),
        Vec::new(),
        Vec::new(),
    );
    let mut adapter = CallbackVM::new(vm, &state);
    adapter.fire();
    assert_eq!(adapter.status(), VMStatus::ExitedErr(callback_vm::OnChainError::Revert));
    assert_eq!(adapter.vm.received_commits(), &vec![AccountCommitment::Nonexist(x)]);
}
