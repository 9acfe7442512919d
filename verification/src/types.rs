use vstd::prelude::*;

verus! {

/// Fixed-width identifier of an account. Immutable, compared by value.
#[derive(Clone, Copy, Debug, PartialEq, Eq, Hash)]
pub struct Address {
    pub bytes: [u8; 20],
}

/// A 256-bit unsigned integer, held as four 64-bit limbs, least
/// significant limb first. Balances, nonces, storage indexes and block
/// numbers are carried in this shape.
#[derive(Clone, Copy, Debug, PartialEq, Eq, Hash)]
pub struct U256 {
    pub limbs: [u64; 4],
}

/// A 256-bit machine word: the value held in one storage slot.
#[derive(Clone, Copy, Debug, PartialEq, Eq, Hash)]
pub struct M256 {
    pub limbs: [u64; 4],
}

/// A 256-bit hash, such as the hash of a historical block.
#[derive(Clone, Copy, Debug, PartialEq, Eq, Hash)]
pub struct H256 {
    pub bytes: [u8; 32],
}

/// A gas quantity. The VM meters cost in this unit; this crate only
/// carries such quantities through, it does no arithmetic on them.
#[derive(Clone, Copy, Debug, PartialEq, Eq, Hash)]
pub struct Gas {
    pub limbs: [u64; 4],
}

} // verus!
