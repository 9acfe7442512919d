//! A resolution loop for a virtual machine with deferred, on-demand state
//! access. The VM suspends whenever it needs an account's balance, nonce,
//! code, a storage slot, or a historical block hash; the adapter here
//! classifies each such requirement, queries a caller-supplied state
//! capability, commits the answer back in the shape the VM expects, and
//! pumps the VM until it reaches a terminal status. After termination the
//! adapter exposes read-only views of the execution's results.
//!
//! The one resolution the protocol prescribes for every requirement is
//! pinned by [`expected_resolution`]; [`resolve`] computes it, and
//! [`CallbackVM::fire`] keeps a ghost history showing that each
//! requirement the VM raised was answered by exactly that resolution.

mod adapter;
mod callback;
mod script;
mod table;
mod types;
mod vm;

pub use adapter::{
    expected_resolution, lemma_full_commitment_current, lemma_nonexistent_uniform,
    lemma_resolution_pairing, requirement_address, resolution_matches, resolve, CallbackVM,
    Resolution, ResolutionView,
};
pub use callback::Callback;
pub use script::ScriptVM;
pub use table::{address_eq, row_for, u256_eq, value_for, AccountRow, TableState};
pub use types::{Address, Gas, H256, M256, U256};
pub use vm::{
    change_address, distinct_addresses, one_change_per_address, AccountChange, AccountCommitment,
    Log, NotSupportedError, OnChainError, Requirement, StepResult, VMStatus, VM,
};
