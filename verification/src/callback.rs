use vstd::prelude::*;

use crate::types::{Address, H256, M256, U256};

verus! {

/// The state-lookup capability a host must supply: balance, nonce, code,
/// storage, existence and historical block hashes, all keyed by the value
/// they address.
///
/// Every operation is pure and synchronous: each exec method returns
/// exactly the corresponding spec view of the capability value, so two
/// lookups of the same key against the same capability value agree. A
/// source that cannot answer must be treated as a fatal configuration
/// error below this layer; no operation here has a failure channel.
///
/// `balance` and `nonce` are unconstrained when the account does not
/// exist: callers must consult `account_exists` first, as the resolution
/// adapter does.
///
/// A verified implementation overrides the spec views to say what its
/// exec methods answer; an unverified one may leave them at their
/// unspecified defaults, since nothing is proved about it anyway.
pub trait Callback {
    /// The balance of the account, as a pure view of the capability value.
    open spec fn spec_balance(&self, address: Address) -> U256 {
        arbitrary()
    }

    /// The nonce of the account, as a pure view of the capability value.
    open spec fn spec_nonce(&self, address: Address) -> U256 {
        arbitrary()
    }

    /// The code of the account, as a pure view of the capability value.
    /// Empty for accounts that hold no code.
    open spec fn spec_code(&self, address: Address) -> Seq<u8> {
        arbitrary()
    }

    /// The word at the given storage slot, as a pure view of the
    /// capability value. The zero word for a slot never written.
    open spec fn spec_storage(&self, address: Address, index: U256) -> M256 {
        arbitrary()
    }

    /// Whether the account has any on-chain presence, as a pure view of
    /// the capability value.
    open spec fn spec_account_exists(&self, address: Address) -> bool {
        arbitrary()
    }

    /// The hash of the block at the given height, as a pure view of the
    /// capability value: deterministic and stable for the lifetime of one
    /// execution.
    open spec fn spec_blockhash(&self, number: U256) -> H256 {
        arbitrary()
    }

    /// Current balance of the account at `address`.
    fn balance(&self, address: Address) -> (r: U256)
        ensures
            r == self.spec_balance(address),
    ;

    /// Current nonce of the account at `address`.
    fn nonce(&self, address: Address) -> (r: U256)
        ensures
            r == self.spec_nonce(address),
    ;

    /// Code of the account at `address`.
    fn code(&self, address: Address) -> (r: Vec<u8>)
        ensures
            r@ == self.spec_code(address),
    ;

    /// Value of the storage slot `index` of the account at `address`.
    fn storage(&self, address: Address, index: U256) -> (r: M256)
        ensures
            r == self.spec_storage(address, index),
    ;

    /// Whether the account at `address` has any on-chain presence.
    fn account_exists(&self, address: Address) -> (r: bool)
        ensures
            r == self.spec_account_exists(address),
    ;

    /// Hash of the block at height `number`.
    fn blockhash(&self, number: U256) -> (r: H256)
        ensures
            r == self.spec_blockhash(number),
    ;
}

} // verus!
