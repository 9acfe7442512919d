use vstd::prelude::*;

use crate::callback::Callback;
use crate::types::{Address, Gas, H256, M256, U256};
use crate::vm::{
    distinct_addresses, one_change_per_address, AccountChange, AccountCommitment, Log,
    Requirement, StepResult, VMStatus, VM,
};

verus! {

/// The answer the adapter sends for one requirement: an account
/// commitment, or a block hash for the block at `number`.
#[derive(Debug, PartialEq, Eq)]
pub enum Resolution {
    /// Answer an account, code or storage requirement.
    Account(AccountCommitment),
    /// Answer a block-hash requirement.
    Blockhash {
        /// Height of the block.
        number: U256,
        /// Hash of the block at that height.
        hash: H256,
    },
}

/// The mathematical shape of a resolution: one variant per kind of answer,
/// with code bytes as a sequence.
pub enum ResolutionView {
    /// A full account: nonce, balance and code together.
    Full { nonce: U256, address: Address, balance: U256, code: Seq<u8> },
    /// Only the account's code.
    Code { address: Address, code: Seq<u8> },
    /// One storage slot of the account.
    Storage { address: Address, index: U256, value: M256 },
    /// The account has no state at all.
    Nonexist { address: Address },
    /// The hash of the block at the given height.
    Blockhash { number: U256, hash: H256 },
}

impl View for Resolution {
    type V = ResolutionView;

    open spec fn view(&self) -> ResolutionView {
        match self {
            Resolution::Account(commitment) => match commitment {
                AccountCommitment::Full { nonce, address, balance, code } => {
                    ResolutionView::Full {
                        nonce: *nonce,
                        address: *address,
                        balance: *balance,
                        code: code@,
                    }
                },
                AccountCommitment::Code { address, code } => {
                    ResolutionView::Code { address: *address, code: code@ }
                },
                AccountCommitment::Storage { address, index, value } => {
                    ResolutionView::Storage { address: *address, index: *index, value: *value }
                },
                AccountCommitment::Nonexist(address) => {
                    ResolutionView::Nonexist { address: *address }
                },
            },
            Resolution::Blockhash { number, hash } => {
                ResolutionView::Blockhash { number: *number, hash: *hash }
            },
        }
    }
}

/// The address a requirement is about, if it is about an account at all:
/// a block-hash requirement carries no address.
pub open spec fn requirement_address(requirement: Requirement) -> Option<Address> {
    match requirement {
        Requirement::Account(address) => Some(address),
        Requirement::AccountCode(address) => Some(address),
        Requirement::AccountStorage(address, _) => Some(address),
        Requirement::Blockhash(_) => None,
    }
}

/// The one resolution the protocol prescribes for a requirement, given the
/// capability's current values: an account-kind requirement on an account
/// the capability reports as absent is answered `Nonexist`; otherwise the
/// answer carries exactly the capability's values for the requirement's
/// keys; a block-hash requirement is answered directly, with no existence
/// branch.
pub open spec fn expected_resolution<C: Callback>(cb: C, requirement: Requirement) -> ResolutionView {
    match requirement {
        Requirement::Account(address) => if cb.spec_account_exists(address) {
            ResolutionView::Full {
                nonce: cb.spec_nonce(address),
                address,
                balance: cb.spec_balance(address),
                code: cb.spec_code(address),
            }
        } else {
            ResolutionView::Nonexist { address }
        },
        Requirement::AccountCode(address) => if cb.spec_account_exists(address) {
            ResolutionView::Code { address, code: cb.spec_code(address) }
        } else {
            ResolutionView::Nonexist { address }
        },
        Requirement::AccountStorage(address, index) => if cb.spec_account_exists(address) {
            ResolutionView::Storage { address, index, value: cb.spec_storage(address, index) }
        } else {
            ResolutionView::Nonexist { address }
        },
        Requirement::Blockhash(number) => {
            ResolutionView::Blockhash { number, hash: cb.spec_blockhash(number) }
        },
    }
}

/// Whether a resolution answers exactly the given requirement: its kind is
/// one the requirement admits, and it carries the requirement's address
/// (and, for storage, its index, and for a block hash, its height). An
/// account-kind requirement admits either its matching commitment kind or
/// `Nonexist` for the same address.
pub open spec fn resolution_matches(requirement: Requirement, resolution: ResolutionView) -> bool {
    match requirement {
        Requirement::Account(address) => match resolution {
            ResolutionView::Full { address: a, .. } => a == address,
            ResolutionView::Nonexist { address: a } => a == address,
            _ => false,
        },
        Requirement::AccountCode(address) => match resolution {
            ResolutionView::Code { address: a, .. } => a == address,
            ResolutionView::Nonexist { address: a } => a == address,
            _ => false,
        },
        Requirement::AccountStorage(address, index) => match resolution {
            ResolutionView::Storage { address: a, index: i, .. } => a == address && i == index,
            ResolutionView::Nonexist { address: a } => a == address,
            _ => false,
        },
        Requirement::Blockhash(number) => match resolution {
            ResolutionView::Blockhash { number: n, .. } => n == number,
            _ => false,
        },
    }
}

/// Compute the one answer for a requirement from the capability's current
/// values. This is the whole decision of the resolution protocol: the
/// result is pinned exactly, for every requirement.
pub fn resolve<C: Callback>(callback: &C, requirement: &Requirement) -> (r: Resolution)
    ensures
        r@ == expected_resolution(*callback, *requirement),
        resolution_matches(*requirement, r@),
{
    match *requirement {
        Requirement::Account(address) => {
            if callback.account_exists(address) {
                Resolution::Account(AccountCommitment::Full {
                    nonce: callback.nonce(address),
                    address,
                    balance: callback.balance(address),
                    code: callback.code(address),
                })
            } else {
                Resolution::Account(AccountCommitment::Nonexist(address))
            }
        },
        Requirement::AccountCode(address) => {
            if callback.account_exists(address) {
                Resolution::Account(AccountCommitment::Code {
                    address,
                    code: callback.code(address),
                })
            } else {
                Resolution::Account(AccountCommitment::Nonexist(address))
            }
        },
        Requirement::AccountStorage(address, index) => {
            if callback.account_exists(address) {
                Resolution::Account(AccountCommitment::Storage {
                    address,
                    index,
                    value: callback.storage(address, index),
                })
            } else {
                Resolution::Account(AccountCommitment::Nonexist(address))
            }
        },
        Requirement::Blockhash(number) => {
            Resolution::Blockhash { number, hash: callback.blockhash(number) }
        },
    }
}

/// Every resolution the protocol prescribes answers its own requirement:
/// kind, address and, where present, index and height all agree. Together
/// with the history kept by [`CallbackVM::fire`], whose entries pair each
/// requirement with the one resolution sent for it, this says that each
/// requirement raised is answered by exactly one matching commitment.
pub proof fn lemma_resolution_pairing<C: Callback>(cb: C, requirement: Requirement)
    ensures
        resolution_matches(requirement, expected_resolution(cb, requirement)),
{
}

/// If the capability reports an address as absent, the prescribed answer
/// to every account-kind requirement for that address is `Nonexist`,
/// whatever the kind of the requirement.
pub proof fn lemma_nonexistent_uniform<C: Callback>(
    cb: C,
    requirement: Requirement,
    address: Address,
)
    requires
        requirement_address(requirement) == Some(address),
        !cb.spec_account_exists(address),
    ensures
        expected_resolution(cb, requirement) == (ResolutionView::Nonexist { address }),
{
}

/// If the capability reports an address as present, the prescribed answer
/// to an account requirement is a full commitment carrying exactly the
/// capability's current nonce, balance and code for that address. The
/// values are read from the capability at the moment the requirement is
/// answered: nothing is carried over from an earlier requirement.
pub proof fn lemma_full_commitment_current<C: Callback>(cb: C, address: Address)
    requires
        cb.spec_account_exists(address),
    ensures
        expected_resolution(cb, Requirement::Account(address)) == (ResolutionView::Full {
            nonce: cb.spec_nonce(address),
            address,
            balance: cb.spec_balance(address),
            code: cb.spec_code(address),
        }),
{
}

/// The resolution adapter: owns a VM instance, borrows a state capability,
/// and pumps the VM to termination, answering each requirement it raises
/// from the capability.
///
/// `history` is the ghost record of the run: one entry per requirement the
/// VM raised, paired with the one resolution sent for it, in order.
pub struct CallbackVM<'a, V: VM, C: Callback> {
    /// The owned VM instance.
    pub vm: V,
    /// The borrowed state capability; it must outlive the adapter.
    pub callback: &'a C,
    /// One entry per answered requirement, in order: the requirement and
    /// the resolution sent for it.
    pub history: Ghost<Seq<(Requirement, ResolutionView)>>,
}

impl<'a, V: VM, C: Callback> CallbackVM<'a, V, C> {
    /// Wrap a VM and a state capability into an adapter. No requirement
    /// has been answered yet.
    pub fn new(vm: V, callback: &'a C) -> (r: Self)
        ensures
            r.vm == vm,
            r.callback == callback,
            r.history@.len() == 0,
    {
        CallbackVM { vm, callback, history: Ghost(Seq::empty()) }
    }

    /// Drive the owned VM until its status is terminal. Each time the VM
    /// suspends on a requirement, the requirement is answered once,
    /// immediately, from the capability's current values, and the run
    /// continues; the loop returns only on the VM's completion report,
    /// never with a requirement outstanding.
    ///
    /// On return the VM's status is not `Running`. The history grows by
    /// exactly one entry per requirement the VM raised; every new entry
    /// carries the one resolution the protocol prescribes for its
    /// requirement, and that resolution matches the requirement's kind
    /// and keys. The VM's own record of received commitments only grows,
    /// and by exactly as many commitments — account and block-hash ones
    /// together — as requirements were raised. The capability is only
    /// read.
    pub fn fire(&mut self)
        ensures
            final(self).callback == old(self).callback,
            final(self).vm.spec_status() != VMStatus::Running,
            old(self).history@.is_prefix_of(final(self).history@),
            forall|i: int|
                old(self).history@.len() <= i < final(self).history@.len() ==> {
                    let entry = #[trigger] final(self).history@[i];
                    entry.1 == expected_resolution(*old(self).callback, entry.0)
                        && resolution_matches(entry.0, entry.1)
                },
            old(self).vm.spec_received_commits().is_prefix_of(
                final(self).vm.spec_received_commits(),
            ),
            old(self).vm.spec_received_hash_commits().is_prefix_of(
                final(self).vm.spec_received_hash_commits(),
            ),
            final(self).vm.spec_received_commits().len()
                + final(self).vm.spec_received_hash_commits().len()
                == old(self).vm.spec_received_commits().len()
                + old(self).vm.spec_received_hash_commits().len() + final(self).history@.len()
                - old(self).history@.len(),
    {
        let ghost pre = self.history@;
        let ghost cb = *self.callback;
        let ghost commits0 = self.vm.spec_received_commits();
        let ghost hash_commits0 = self.vm.spec_received_hash_commits();
        loop
            invariant
                *self.callback == cb,
                pre.is_prefix_of(self.history@),
                forall|i: int|
                    pre.len() <= i < self.history@.len() ==> {
                        let entry = #[trigger] self.history@[i];
                        entry.1 == expected_resolution(cb, entry.0)
                            && resolution_matches(entry.0, entry.1)
                    },
                commits0.is_prefix_of(self.vm.spec_received_commits()),
                hash_commits0.is_prefix_of(self.vm.spec_received_hash_commits()),
                self.vm.spec_received_commits().len()
                    + self.vm.spec_received_hash_commits().len() == commits0.len()
                    + hash_commits0.len() + self.history@.len() - pre.len(),
            ensures
                *self.callback == cb,
                self.vm.spec_status() != VMStatus::Running,
                pre.is_prefix_of(self.history@),
                forall|i: int|
                    pre.len() <= i < self.history@.len() ==> {
                        let entry = #[trigger] self.history@[i];
                        entry.1 == expected_resolution(cb, entry.0)
                            && resolution_matches(entry.0, entry.1)
                    },
                commits0.is_prefix_of(self.vm.spec_received_commits()),
                hash_commits0.is_prefix_of(self.vm.spec_received_hash_commits()),
                self.vm.spec_received_commits().len()
                    + self.vm.spec_received_hash_commits().len() == commits0.len()
                    + hash_commits0.len() + self.history@.len() - pre.len(),
            decreases self.vm.spec_progress(),
        {
            match self.vm.fire() {
                StepResult::Done => {
                    break;
                },
                StepResult::Require(requirement) => {
                    let resolution = resolve(self.callback, &requirement);
                    proof {
                        self.history@ = self.history@.push((requirement, resolution@));
                    }
                    match resolution {
                        Resolution::Account(commitment) => {
                            self.vm.commit_account(commitment);
                        },
                        Resolution::Blockhash { number, hash } => {
                            self.vm.commit_blockhash(number, hash);
                        },
                    }
                },
            }
        }
    }

    /// Current status of the execution: a pure view of the owned VM, so
    /// repeated calls return identical results.
    pub fn status(&self) -> (r: VMStatus)
        ensures
            r == self.vm.spec_status(),
    {
        self.vm.status()
    }

    /// The account-change records produced by the execution, at most one
    /// per address (the VM keys them by address internally), in no
    /// promised order: a pure view of the owned VM, so repeated calls
    /// return identical results.
    pub fn accounts(&self) -> (r: &Vec<AccountChange>)
        ensures
            r@ == self.vm.spec_accounts(),
            one_change_per_address(r@),
    {
        self.vm.accounts()
    }

    /// The set of every address touched during the execution, each
    /// reported once: a pure view of the owned VM, so repeated calls
    /// return identical results.
    pub fn used_addresses(&self) -> (r: &Vec<Address>)
        ensures
            r@ == self.vm.spec_used_addresses(),
            distinct_addresses(r@),
    {
        self.vm.used_addresses()
    }

    /// The output bytes of the execution: a pure view of the owned VM, so
    /// repeated calls return identical results.
    pub fn out(&self) -> (r: &Vec<u8>)
        ensures
            r@ == self.vm.spec_out(),
    {
        self.vm.out()
    }

    /// The remaining gas: a pure view of the owned VM, so repeated calls
    /// return identical results.
    pub fn available_gas(&self) -> (r: Gas)
        ensures
            r == self.vm.spec_available_gas(),
    {
        self.vm.available_gas()
    }

    /// The refunded gas: a pure view of the owned VM, so repeated calls
    /// return identical results.
    pub fn refunded_gas(&self) -> (r: Gas)
        ensures
            r == self.vm.spec_refunded_gas(),
    {
        self.vm.refunded_gas()
    }

    /// The emitted log records, in emission order: a pure view of the
    /// owned VM, so repeated calls return identical results.
    pub fn logs(&self) -> (r: &Vec<Log>)
        ensures
            r@ == self.vm.spec_logs(),
    {
        self.vm.logs()
    }

    /// The addresses flagged for removal, in the order the VM recorded
    /// them: a pure view of the owned VM, so repeated calls return
    /// identical results.
    pub fn removed(&self) -> (r: &Vec<Address>)
        ensures
            r@ == self.vm.spec_removed(),
    {
        self.vm.removed()
    }
}

} // verus!
