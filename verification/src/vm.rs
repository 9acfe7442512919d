use vstd::prelude::*;

use crate::types::{Address, Gas, H256, M256, U256};

verus! {

/// A demand the VM raises mid-execution when it cannot proceed without a
/// piece of state it does not yet have. Each variant carries the key that
/// identifies the missing value. A requirement is ephemeral: it is produced
/// by one execution step and consumed by exactly one commitment.
#[derive(Clone, Copy, Debug, PartialEq, Eq)]
pub enum Requirement {
    /// The account at this address, with its basic fields and code.
    Account(Address),
    /// Only the code of the account at this address.
    AccountCode(Address),
    /// The value of one storage slot: address and 256-bit index.
    AccountStorage(Address, U256),
    /// The hash of the block at this height.
    Blockhash(U256),
}

/// The answer handed to the VM to satisfy an account requirement.
#[derive(Debug, PartialEq, Eq)]
pub enum AccountCommitment {
    /// The account exists: its nonce, balance and code together.
    Full {
        /// Nonce of the account.
        nonce: U256,
        /// Account address.
        address: Address,
        /// Account balance.
        balance: U256,
        /// Code associated with this account.
        code: Vec<u8>,
    },
    /// Only the code of the account, for a code-only requirement.
    Code {
        /// Account address.
        address: Address,
        /// Code associated with this account.
        code: Vec<u8>,
    },
    /// The value of one storage slot of the account.
    Storage {
        /// Account address.
        address: Address,
        /// Storage slot index.
        index: U256,
        /// Value at that index.
        value: M256,
    },
    /// The account has no state at all.
    Nonexist(Address),
}

/// What one call of the VM's run primitive reports: either the execution
/// reached a terminal status, or it is suspended on a requirement.
#[derive(Clone, Copy, Debug, PartialEq, Eq)]
pub enum StepResult {
    /// The VM reached a terminal status; its result accessors are valid.
    Done,
    /// The VM is suspended until this requirement is answered.
    Require(Requirement),
}

/// An error that can be written on chain: the reason an execution exited
/// with a failing status.
#[derive(Clone, Copy, Debug, PartialEq, Eq)]
pub enum OnChainError {
    /// More than the allowed number of items was pushed to the stack.
    StackOverflow,
    /// An empty stack was popped.
    StackUnderflow,
    /// The opcode is invalid and cannot be read as an instruction.
    InvalidOpcode,
    /// A jump went to an invalid jump destination.
    BadJumpDest,
    /// The program counter ran past the end of the code.
    PCOverflow,
    /// Not enough gas to continue.
    EmptyGas,
    /// An instruction read an invalid range.
    InvalidRange,
    /// A mutation was attempted in a static context.
    NotStatic,
    /// The execution reverted.
    Revert,
}

/// Why the VM does not support a requested operation.
#[derive(Clone, Copy, Debug, PartialEq, Eq)]
pub enum NotSupportedError {
    /// The memory index is too large for this VM to handle.
    MemoryIndexNotSupported,
    /// A particular precompiled contract is not supported.
    PrecompiledNotSupported,
}

/// Terminal or non-terminal state of an execution.
#[derive(Clone, Copy, Debug, PartialEq, Eq)]
pub enum VMStatus {
    /// Still running.
    Running,
    /// Exited without errors.
    ExitedOk,
    /// Exited due to an on-chain error (a failure or a revert); the state
    /// is that before the failing instruction.
    ExitedErr(OnChainError),
    /// Exited because the VM does not support a requested operation.
    ExitedNotSupported(NotSupportedError),
}

/// One emitted log record.
#[derive(Debug, PartialEq, Eq)]
pub struct Log {
    /// Address of the account that emitted the record.
    pub address: Address,
    /// Indexed topics.
    pub topics: Vec<H256>,
    /// Unindexed payload bytes.
    pub data: Vec<u8>,
}

/// The change an execution made to one account, as reported by the VM
/// after termination.
#[derive(Debug, PartialEq, Eq)]
pub enum AccountChange {
    /// A full account state: the caller replaces its own state with this.
    Full {
        /// Account nonce.
        nonce: U256,
        /// Account address.
        address: Address,
        /// Account balance.
        balance: U256,
        /// Storage slots the execution changed, as index and value pairs.
        changing_storage: Vec<(U256, M256)>,
        /// Code associated with this account.
        code: Vec<u8>,
    },
    /// Only the balance changed, and it increased by this amount.
    IncreaseBalance(Address, U256),
    /// Create or delete an account: its whole state after the execution.
    Create {
        /// Account nonce.
        nonce: U256,
        /// Account address.
        address: Address,
        /// Account balance.
        balance: U256,
        /// All storage of the account, as index and value pairs.
        storage: Vec<(U256, M256)>,
        /// Code associated with this account.
        code: Vec<u8>,
    },
    /// The account should remain nonexistent, or be deleted if it exists.
    Nonexist(Address),
}

/// The address a change record is about: the key under which the VM
/// reports it.
pub open spec fn change_address(change: AccountChange) -> Address {
    match change {
        AccountChange::Full { address, .. } => address,
        AccountChange::IncreaseBalance(address, _) => address,
        AccountChange::Create { address, .. } => address,
        AccountChange::Nonexist(address) => address,
    }
}

/// No address occurs twice: the sequence carries a set.
pub open spec fn distinct_addresses(addresses: Seq<Address>) -> bool {
    forall|i: int, j: int|
        0 <= i < j < addresses.len() ==> addresses[i] != addresses[j]
}

/// At most one change record per address: the sequence carries a mapping
/// keyed by address.
pub open spec fn one_change_per_address(changes: Seq<AccountChange>) -> bool {
    forall|i: int, j: int|
        0 <= i < j < changes.len() ==> change_address(changes[i]) != change_address(changes[j])
}

/// The VM's requirement and commitment surface, as the resolution adapter
/// sees it. The interpreter behind it is a black box supplied by the
/// caller: nothing is promised of how it steps or which requirements it
/// raises. The result accessors, however, are promised to be read-only
/// views: each returns a pure function of the VM value, so repeated calls
/// without an intervening mutation return identical results.
///
/// An implementation must accept every commitment that matches the
/// outstanding requirement's kind and key. A mismatched commitment is a
/// defect in the caller, not a runtime condition: the implementation is
/// expected to halt on it rather than continue.
///
/// A verified implementation overrides the spec views to say what its
/// exec methods answer; an unverified one may leave them at their
/// unspecified defaults, since nothing is proved about it anyway.
pub trait VM {
    /// The current status, as a pure view of the VM value.
    open spec fn spec_status(&self) -> VMStatus {
        arbitrary()
    }

    /// The account changes produced so far, as a pure view of the VM value.
    open spec fn spec_accounts(&self) -> Seq<AccountChange> {
        arbitrary()
    }

    /// Every address touched so far, as a pure view of the VM value.
    open spec fn spec_used_addresses(&self) -> Seq<Address> {
        arbitrary()
    }

    /// The output bytes, as a pure view of the VM value.
    open spec fn spec_out(&self) -> Seq<u8> {
        arbitrary()
    }

    /// The remaining gas, as a pure view of the VM value.
    open spec fn spec_available_gas(&self) -> Gas {
        arbitrary()
    }

    /// The refunded gas, as a pure view of the VM value.
    open spec fn spec_refunded_gas(&self) -> Gas {
        arbitrary()
    }

    /// The emitted log records, in emission order, as a pure view of the
    /// VM value.
    open spec fn spec_logs(&self) -> Seq<Log> {
        arbitrary()
    }

    /// The addresses flagged for removal, in the order recorded, as a pure
    /// view of the VM value.
    open spec fn spec_removed(&self) -> Seq<Address> {
        arbitrary()
    }

    /// An upper bound on how many more times this execution can suspend on
    /// a requirement. This is the VM's own progress guarantee — execution
    /// is bounded by its gas budget — and it is what makes the drive loop
    /// terminate: each requirement raised consumes some of it, and
    /// answering a requirement never restores any.
    open spec fn spec_progress(&self) -> nat {
        arbitrary()
    }

    /// The account commitments this VM has received, in order, as a pure
    /// view of the VM value.
    open spec fn spec_received_commits(&self) -> Seq<AccountCommitment> {
        arbitrary()
    }

    /// The block-hash commitments this VM has received, as height and
    /// hash pairs in order, as a pure view of the VM value.
    open spec fn spec_received_hash_commits(&self) -> Seq<(U256, H256)> {
        arbitrary()
    }

    /// Run until the execution either reaches a terminal status or
    /// suspends on a requirement. Which of the two happens, and on what
    /// requirement, is not promised; but a suspension consumes progress,
    /// completion is only reported once the status is terminal, and
    /// running receives no commitments.
    fn fire(&mut self) -> (r: StepResult)
        ensures
            r is Require ==> final(self).spec_progress() < old(self).spec_progress(),
            r is Done ==> final(self).spec_status() != VMStatus::Running,
            final(self).spec_received_commits() == old(self).spec_received_commits(),
            final(self).spec_received_hash_commits() == old(self).spec_received_hash_commits(),
    ;

    /// Answer the outstanding account requirement with a commitment: the
    /// commitment joins the VM's record of received account commitments.
    fn commit_account(&mut self, commitment: AccountCommitment)
        ensures
            final(self).spec_progress() <= old(self).spec_progress(),
            final(self).spec_received_commits() == old(self).spec_received_commits().push(
                commitment,
            ),
            final(self).spec_received_hash_commits() == old(self).spec_received_hash_commits(),
    ;

    /// Answer the outstanding block-hash requirement with the hash of the
    /// block at the given height: the pair joins the VM's record of
    /// received block-hash commitments.
    fn commit_blockhash(&mut self, number: U256, hash: H256)
        ensures
            final(self).spec_progress() <= old(self).spec_progress(),
            final(self).spec_received_commits() == old(self).spec_received_commits(),
            final(self).spec_received_hash_commits()
                == old(self).spec_received_hash_commits().push((number, hash)),
    ;

    /// The current status of the execution.
    fn status(&self) -> (r: VMStatus)
        ensures
            r == self.spec_status(),
    ;

    /// The changed or committed accounts, in no promised order. The VM
    /// keys them by address internally, so it reports at most one change
    /// record per address.
    fn accounts(&self) -> (r: &Vec<AccountChange>)
        ensures
            r@ == self.spec_accounts(),
            one_change_per_address(r@),
    ;

    /// All fetched or modified addresses. The VM collects them as a set,
    /// so it reports each address at most once.
    fn used_addresses(&self) -> (r: &Vec<Address>)
        ensures
            r@ == self.spec_used_addresses(),
            distinct_addresses(r@),
    ;

    /// The output bytes of the execution, if any.
    fn out(&self) -> (r: &Vec<u8>)
        ensures
            r@ == self.spec_out(),
    ;

    /// The remaining gas budget.
    fn available_gas(&self) -> (r: Gas)
        ensures
            r == self.spec_available_gas(),
    ;

    /// The gas credited back during the execution.
    fn refunded_gas(&self) -> (r: Gas)
        ensures
            r == self.spec_refunded_gas(),
    ;

    /// The log records emitted so far, in emission order.
    fn logs(&self) -> (r: &Vec<Log>)
        ensures
            r@ == self.spec_logs(),
    ;

    /// The addresses removed by self-destruction, in the order recorded.
    fn removed(&self) -> (r: &Vec<Address>)
        ensures
            r@ == self.spec_removed(),
    ;
}

} // verus!
