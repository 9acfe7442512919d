use vstd::prelude::*;

use crate::types::{Address, Gas, H256, U256};
use crate::vm::{
    distinct_addresses, one_change_per_address, AccountChange, AccountCommitment, Log,
    Requirement, StepResult, VMStatus, VM,
};

verus! {

/// A VM whose executions are given as a script: it suspends once on each
/// scripted requirement, in order, and records every commitment handed to
/// it. The results it reports are set as one block, and are held to the
/// shape the VM surface promises: a terminal status, each touched address
/// reported once, at most one change record per address. It implements
/// the whole VM surface and is what the crate's own tests drive the
/// adapter against.
pub struct ScriptVM {
    script: Vec<Requirement>,
    commits: Vec<AccountCommitment>,
    hash_commits: Vec<(U256, H256)>,
    final_status: VMStatus,
    account_changes: Vec<AccountChange>,
    used: Vec<Address>,
    output: Vec<u8>,
    gas_left: Gas,
    gas_refunded: Gas,
    log_records: Vec<Log>,
    removed_list: Vec<Address>,
}

impl ScriptVM {
    /// What every scripted VM maintains: the status it will report is
    /// terminal, the touched addresses are a set, and the change records
    /// are keyed by address.
    #[verifier::type_invariant]
    spec fn wf(&self) -> bool {
        &&& self.final_status != VMStatus::Running
        &&& distinct_addresses(self.used@)
        &&& one_change_per_address(self.account_changes@)
    }

    /// The requirements still to raise, front first.
    pub closed spec fn spec_script(&self) -> Seq<Requirement> {
        self.script@
    }

    /// A VM that will raise exactly the given requirements, with empty
    /// results, zero gas quantities and an `ExitedOk` status.
    pub fn scripted(script: Vec<Requirement>) -> (r: ScriptVM)
        ensures
            r.spec_script() == script@,
            r.spec_received_commits().len() == 0,
            r.spec_received_hash_commits().len() == 0,
            r.spec_status() == VMStatus::ExitedOk,
            r.spec_accounts().len() == 0,
            r.spec_used_addresses().len() == 0,
            r.spec_out().len() == 0,
            r.spec_available_gas() == (Gas { limbs: [0, 0, 0, 0] }),
            r.spec_refunded_gas() == (Gas { limbs: [0, 0, 0, 0] }),
            r.spec_logs().len() == 0,
            r.spec_removed().len() == 0,
            r.spec_progress() == script@.len(),
    {
        ScriptVM {
            script,
            commits: Vec::new(),
            hash_commits: Vec::new(),
            final_status: VMStatus::ExitedOk,
            account_changes: Vec::new(),
            used: Vec::new(),
            output: Vec::new(),
            gas_left: Gas { limbs: [0, 0, 0, 0] },
            gas_refunded: Gas { limbs: [0, 0, 0, 0] },
            log_records: Vec::new(),
            removed_list: Vec::new(),
        }
    }

    /// Set the whole report this VM gives of its execution. The report
    /// must have the shape the VM surface promises: a terminal status,
    /// each touched address once, at most one change record per address.
    pub fn set_results(
        &mut self,
        status: VMStatus,
        account_changes: Vec<AccountChange>,
        used: Vec<Address>,
        output: Vec<u8>,
        gas_left: Gas,
        gas_refunded: Gas,
        log_records: Vec<Log>,
        removed_list: Vec<Address>,
    )
        requires
            status != VMStatus::Running,
            distinct_addresses(used@),
            one_change_per_address(account_changes@),
        ensures
            final(self).spec_script() == old(self).spec_script(),
            final(self).spec_received_commits() == old(self).spec_received_commits(),
            final(self).spec_received_hash_commits() == old(self).spec_received_hash_commits(),
            final(self).spec_status() == status,
            final(self).spec_accounts() == account_changes@,
            final(self).spec_used_addresses() == used@,
            final(self).spec_out() == output@,
            final(self).spec_available_gas() == gas_left,
            final(self).spec_refunded_gas() == gas_refunded,
            final(self).spec_logs() == log_records@,
            final(self).spec_removed() == removed_list@,
            final(self).spec_progress() == old(self).spec_progress(),
    {
        proof {
            use_type_invariant(&*self);
        }
        self.final_status = status;
        self.account_changes = account_changes;
        self.used = used;
        self.output = output;
        self.gas_left = gas_left;
        self.gas_refunded = gas_refunded;
        self.log_records = log_records;
        self.removed_list = removed_list;
    }

    /// The account commitments received so far, in order.
    pub fn received_commits(&self) -> (r: &Vec<AccountCommitment>)
        ensures
            r@ == self.spec_received_commits(),
    {
        &self.commits
    }

    /// The block-hash commitments received so far, in order.
    pub fn received_hash_commits(&self) -> (r: &Vec<(U256, H256)>)
        ensures
            r@ == self.spec_received_hash_commits(),
    {
        &self.hash_commits
    }

    /// The requirements not yet raised, front first.
    pub fn remaining_script(&self) -> (r: &Vec<Requirement>)
        ensures
            r@ == self.spec_script(),
    {
        &self.script
    }
}

impl VM for ScriptVM {
    closed spec fn spec_status(&self) -> VMStatus {
        self.final_status
    }

    closed spec fn spec_accounts(&self) -> Seq<AccountChange> {
        self.account_changes@
    }

    closed spec fn spec_used_addresses(&self) -> Seq<Address> {
        self.used@
    }

    closed spec fn spec_out(&self) -> Seq<u8> {
        self.output@
    }

    closed spec fn spec_available_gas(&self) -> Gas {
        self.gas_left
    }

    closed spec fn spec_refunded_gas(&self) -> Gas {
        self.gas_refunded
    }

    closed spec fn spec_logs(&self) -> Seq<Log> {
        self.log_records@
    }

    closed spec fn spec_removed(&self) -> Seq<Address> {
        self.removed_list@
    }

    closed spec fn spec_progress(&self) -> nat {
        self.script@.len()
    }

    closed spec fn spec_received_commits(&self) -> Seq<AccountCommitment> {
        self.commits@
    }

    closed spec fn spec_received_hash_commits(&self) -> Seq<(U256, H256)> {
        self.hash_commits@
    }

    fn fire(&mut self) -> (r: StepResult) {
        proof {
            use_type_invariant(&*self);
        }
        if self.script.len() == 0 {
            StepResult::Done
        } else {
            let mut script: Vec<Requirement> = Vec::new();
            core::mem::swap(&mut script, &mut self.script);
            let requirement = script.remove(0);
            self.script = script;
            StepResult::Require(requirement)
        }
    }

    fn commit_account(&mut self, commitment: AccountCommitment) {
        proof {
            use_type_invariant(&*self);
        }
        let mut commits: Vec<AccountCommitment> = Vec::new();
        core::mem::swap(&mut commits, &mut self.commits);
        commits.push(commitment);
        self.commits = commits;
    }

    fn commit_blockhash(&mut self, number: U256, hash: H256) {
        proof {
            use_type_invariant(&*self);
        }
        let mut hash_commits: Vec<(U256, H256)> = Vec::new();
        core::mem::swap(&mut hash_commits, &mut self.hash_commits);
        hash_commits.push((number, hash));
        self.hash_commits = hash_commits;
    }

    fn status(&self) -> VMStatus {
        self.final_status
    }

    fn accounts(&self) -> &Vec<AccountChange> {
        proof {
            use_type_invariant(&*self);
        }
        &self.account_changes
    }

    fn used_addresses(&self) -> &Vec<Address> {
        proof {
            use_type_invariant(&*self);
        }
        &self.used
    }

    fn out(&self) -> &Vec<u8> {
        &self.output
    }

    fn available_gas(&self) -> Gas {
        self.gas_left
    }

    fn refunded_gas(&self) -> Gas {
        self.gas_refunded
    }

    fn logs(&self) -> &Vec<Log> {
        &self.log_records
    }

    fn removed(&self) -> &Vec<Address> {
        &self.removed_list
    }
}

} // verus!
