use vstd::prelude::*;

use crate::callback::Callback;
use crate::types::{Address, H256, M256, U256};

verus! {

broadcast use vstd::array::group_array_axioms;

/// One account of a table-backed state source: its address, basic fields,
/// code and storage (as slot index and value pairs).
pub struct AccountRow {
    /// Address of the account.
    pub address: Address,
    /// Balance of the account.
    pub balance: U256,
    /// Nonce of the account.
    pub nonce: U256,
    /// Code of the account.
    pub code: Vec<u8>,
    /// Storage of the account, as slot index and value pairs.
    pub storage: Vec<(U256, M256)>,
}

/// The first row with the given address, looking from position `i` on:
/// the value a table lookup answers.
pub open spec fn row_for(rows: Seq<AccountRow>, address: Address, i: int) -> Option<AccountRow>
    decreases rows.len() - i,
{
    if i < 0 || i >= rows.len() {
        None
    } else if rows[i].address == address {
        Some(rows[i])
    } else {
        row_for(rows, address, i + 1)
    }
}

/// The value paired with the first occurrence of the given key, looking
/// from position `i` on.
pub open spec fn value_for<V>(pairs: Seq<(U256, V)>, key: U256, i: int) -> Option<V>
    decreases pairs.len() - i,
{
    if i < 0 || i >= pairs.len() {
        None
    } else if pairs[i].0 == key {
        Some(pairs[i].1)
    } else {
        value_for(pairs, key, i + 1)
    }
}

/// Whether two addresses are the same identifier.
pub fn address_eq(a: &Address, b: &Address) -> (r: bool)
    ensures
        r == (a == b),
{
    let mut i: usize = 0;
    while i < 20
        invariant
            i <= 20,
            forall|j: int| 0 <= j < i ==> a.bytes[j] == b.bytes[j],
        decreases 20 - i,
    {
        if a.bytes[i] != b.bytes[i] {
            return false;
        }
        i += 1;
    }
    proof {
        assert(a.bytes =~= b.bytes);
    }
    true
}

/// Whether two 256-bit integers are the same value.
pub fn u256_eq(a: &U256, b: &U256) -> (r: bool)
    ensures
        r == (a == b),
{
    let r = a.limbs[0] == b.limbs[0] && a.limbs[1] == b.limbs[1] && a.limbs[2] == b.limbs[2]
        && a.limbs[3] == b.limbs[3];
    proof {
        if r {
            assert(a.limbs =~= b.limbs);
        }
    }
    r
}

/// A state capability backed by plain tables: a list of account rows and a
/// list of block number and hash pairs. Lookups answer from the first row
/// or pair with the asked-for key; an address with no row does not exist,
/// a key with no pair answers zero. This is the capability the crate's own
/// tests hand to the adapter.
pub struct TableState {
    /// The accounts this capability reports, in lookup order.
    pub accounts: Vec<AccountRow>,
    /// The block hashes this capability reports, as number and hash pairs.
    pub hashes: Vec<(U256, H256)>,
}

impl TableState {
    /// A capability with no accounts and no block hashes.
    pub fn empty() -> (r: TableState)
        ensures
            r.accounts@.len() == 0,
            r.hashes@.len() == 0,
    {
        TableState { accounts: Vec::new(), hashes: Vec::new() }
    }

    /// The first row for `address` from position `i` on, if any.
    fn find_row_from(&self, address: Address, i: usize) -> (r: Option<&AccountRow>)
        requires
            i <= self.accounts@.len(),
        ensures
            match r {
                Some(row) => row_for(self.accounts@, address, i as int) == Some(*row),
                None => row_for(self.accounts@, address, i as int) is None,
            },
        decreases self.accounts@.len() - i,
    {
        if i == self.accounts.len() {
            None
        } else if address_eq(&self.accounts[i].address, &address) {
            Some(&self.accounts[i])
        } else {
            self.find_row_from(address, i + 1)
        }
    }
}

/// The first value for `key` from position `i` on, if any.
fn find_value_from<'x, V>(pairs: &'x Vec<(U256, V)>, key: U256, i: usize) -> (r: Option<&'x V>)
    requires
        i <= pairs@.len(),
    ensures
        match r {
            Some(v) => value_for(pairs@, key, i as int) == Some(*v),
            None => value_for(pairs@, key, i as int) is None,
        },
    decreases pairs@.len() - i,
{
    if i == pairs.len() {
        None
    } else if u256_eq(&pairs[i].0, &key) {
        Some(&pairs[i].1)
    } else {
        find_value_from(pairs, key, i + 1)
    }
}

impl Callback for TableState {
    open spec fn spec_balance(&self, address: Address) -> U256 {
        match row_for(self.accounts@, address, 0) {
            Some(row) => row.balance,
            None => U256 { limbs: [0, 0, 0, 0] },
        }
    }

    open spec fn spec_nonce(&self, address: Address) -> U256 {
        match row_for(self.accounts@, address, 0) {
            Some(row) => row.nonce,
            None => U256 { limbs: [0, 0, 0, 0] },
        }
    }

    open spec fn spec_code(&self, address: Address) -> Seq<u8> {
        match row_for(self.accounts@, address, 0) {
            Some(row) => row.code@,
            None => Seq::empty(),
        }
    }

    open spec fn spec_storage(&self, address: Address, index: U256) -> M256 {
        match row_for(self.accounts@, address, 0) {
            Some(row) => match value_for(row.storage@, index, 0) {
                Some(v) => v,
                None => M256 { limbs: [0, 0, 0, 0] },
            },
            None => M256 { limbs: [0, 0, 0, 0] },
        }
    }

    open spec fn spec_account_exists(&self, address: Address) -> bool {
        row_for(self.accounts@, address, 0) is Some
    }

    open spec fn spec_blockhash(&self, number: U256) -> H256 {
        match value_for(self.hashes@, number, 0) {
            Some(h) => h,
            None => H256 { bytes: [0u8, 0, 0, 0, 0, 0, 0, 0, 0, 0, 0, 0, 0, 0, 0, 0, 0, 0, 0, 0, 0, 0, 0, 0, 0, 0, 0, 0, 0, 0, 0, 0] },
        }
    }

    fn balance(&self, address: Address) -> U256 {
        match self.find_row_from(address, 0) {
            Some(row) => row.balance,
            None => U256 { limbs: [0, 0, 0, 0] },
        }
    }

    fn nonce(&self, address: Address) -> U256 {
        match self.find_row_from(address, 0) {
            Some(row) => row.nonce,
            None => U256 { limbs: [0, 0, 0, 0] },
        }
    }

    fn code(&self, address: Address) -> Vec<u8> {
        match self.find_row_from(address, 0) {
            Some(row) => row.code.clone(),
            None => Vec::new(),
        }
    }

    fn storage(&self, address: Address, index: U256) -> M256 {
        match self.find_row_from(address, 0) {
            Some(row) => match find_value_from(&row.storage, index, 0) {
                Some(v) => *v,
                None => M256 { limbs: [0, 0, 0, 0] },
            },
            None => M256 { limbs: [0, 0, 0, 0] },
        }
    }

    fn account_exists(&self, address: Address) -> bool {
        match self.find_row_from(address, 0) {
            Some(_) => true,
            None => false,
        }
    }

    fn blockhash(&self, number: U256) -> H256 {
        match find_value_from(&self.hashes, number, 0) {
            Some(h) => *h,
            None => H256 { bytes: [0u8, 0, 0, 0, 0, 0, 0, 0, 0, 0, 0, 0, 0, 0, 0, 0, 0, 0, 0, 0, 0, 0, 0, 0, 0, 0, 0, 0, 0, 0, 0, 0] },
        }
    }
}

} // verus!
