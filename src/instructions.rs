use vstd::prelude::*;

use crate::errors::VaultError;
use crate::events::{DepositEvent, ProposalApproved, ProposalCreated, ProposalExecuted, VaultInitialized};
use crate::helper::{has_already_approved, is_owner, is_threshold_met, transfer_sol};
use crate::laws::lemma_append_approval;
use crate::key::{copy_keys, has_duplicates, Pubkey};
use crate::state::{Proposal, Vault};

verus! {

/// A balance after a credit of `amount` that happened only if `succeeded`.
pub open spec fn credited(balance: u64, amount: u64, succeeded: bool) -> int {
    if succeeded {
        balance + amount
    } else {
        balance as int
    }
}

/// A balance after a debit of `amount` that happened only if `succeeded`.
pub open spec fn debited(balance: u64, amount: u64, succeeded: bool) -> int {
    if succeeded {
        balance - amount
    } else {
        balance as int
    }
}

// ---------------------------------------------------------------------------
// Vault set-up
/// The accounts of vault set-up: the signer and the vault record it creates.
#[derive(Debug)]
pub struct InitializeVault {
    pub authority: Pubkey,
    pub vault_key: Pubkey,
    pub vault: Vault,
}

/// The bump seed found for the new vault's address.
#[derive(Clone, Copy, Debug)]
pub struct InitializeVaultBumps {
    pub vault: u8,
}

/// The first rule that a set-up request breaks, in the order they are checked.
pub open spec fn initialize_check(owners: Seq<Pubkey>, threshold: u8) -> Result<(), VaultError> {
    if owners.len() == 0 {
        Err(VaultError::InvalidThreshold)
    } else if threshold == 0 {
        Err(VaultError::InvalidThreshold)
    } else if threshold as int > owners.len() {
        Err(VaultError::InvalidThreshold)
    } else if !owners.no_duplicates() {
        Err(VaultError::DuplicateOwners)
    } else {
        Ok(())
    }
}

/// What vault set-up does: on success the vault holds the given owners and
/// threshold and a zero proposal counter; on failure nothing changes.
pub open spec fn initialize_post(
    pre: InitializeVault,
    post: InitializeVault,
    owners: Seq<Pubkey>,
    threshold: u8,
    bump: u8,
    r: Result<VaultInitialized, VaultError>,
) -> bool {
    match r {
        Ok(e) => {
            &&& initialize_check(owners, threshold) is Ok
            &&& post.authority == pre.authority
            &&& post.vault_key == pre.vault_key
            &&& post.vault.authority == pre.authority
            &&& post.vault.owners@ == owners
            &&& post.vault.threshold == threshold
            &&& post.vault.proposal_count == 0
            &&& post.vault.bump == bump
            &&& post.vault.padding == pre.vault.padding
            &&& e.vault == pre.vault_key
            &&& e.authority == pre.authority
            &&& e.owners@ == owners
            &&& e.threshold == threshold
        },
        Err(err) => initialize_check(owners, threshold) == Err::<(), VaultError>(err) && post == pre,
    }
}

impl InitializeVault {
    /// Sets up the vault with its owners and quorum threshold.
    pub fn initialize(&mut self, owners: Vec<Pubkey>, threshold: u8, bump: &InitializeVaultBumps) -> (r:
        Result<VaultInitialized, VaultError>)
        ensures
            initialize_post(*old(self), *final(self), owners@, threshold, bump.vault, r),
            r is Ok ==> final(self).vault.wf(),
    {
        if owners.len() == 0 {
            return Err(VaultError::InvalidThreshold);
        }
        if threshold == 0 {
            return Err(VaultError::InvalidThreshold);
        }
        if threshold as usize > owners.len() {
            return Err(VaultError::InvalidThreshold);
        }
        if has_duplicates(&owners) {
            return Err(VaultError::DuplicateOwners);
        }
        self.vault.authority = self.authority;
        self.vault.owners = copy_keys(&owners);
        self.vault.threshold = threshold;
        self.vault.proposal_count = 0;
        self.vault.bump = bump.vault;
        Ok(VaultInitialized { vault: self.vault_key, authority: self.authority, owners, threshold })
    }
}

// ---------------------------------------------------------------------------
// Deposit
/// The accounts of a deposit: the payer, the vault, and both balances.
#[derive(Debug)]
pub struct DepositVault {
    pub depositor: Pubkey,
    pub depositor_lamports: u64,
    pub vault_key: Pubkey,
    pub vault: Vault,
    pub vault_lamports: u64,
}

/// What a deposit does: on success `amount` moves from the depositor to the
/// vault; a zero amount or a depositor short of funds changes nothing.
pub open spec fn deposit_post(
    pre: DepositVault,
    post: DepositVault,
    amount: u64,
    r: Result<DepositEvent, VaultError>,
) -> bool {
    &&& post.depositor == pre.depositor
    &&& post.vault_key == pre.vault_key
    &&& post.vault == pre.vault
    &&& post.vault_lamports == credited(pre.vault_lamports, amount, r is Ok)
    &&& post.depositor_lamports == debited(pre.depositor_lamports, amount, r is Ok)
    &&& match r {
        Ok(e) => {
            &&& 0 < amount <= pre.depositor_lamports
            &&& e == (DepositEvent { vault: pre.vault_key, depositor: pre.depositor, amount })
        },
        Err(err) => if amount == 0 {
            err == VaultError::InvalidDepositAmount
        } else {
            amount > pre.depositor_lamports && err == VaultError::InsufficientFunds
        },
    }
}

impl DepositVault {
    /// Pays `amount` from the depositor into the vault. Anyone may deposit.
    pub fn deposit(&mut self, amount: u64) -> (r: Result<DepositEvent, VaultError>)
        requires
            old(self).depositor_lamports + old(self).vault_lamports <= u64::MAX,
        ensures
            deposit_post(*old(self), *final(self), amount, r),
    {
        if amount == 0 {
            return Err(VaultError::InvalidDepositAmount);
        }
        match transfer_sol(&mut self.depositor_lamports, &mut self.vault_lamports, amount) {
            Ok(()) => Ok(DepositEvent { vault: self.vault_key, depositor: self.depositor, amount }),
            Err(e) => Err(e),
        }
    }
}

// ---------------------------------------------------------------------------
// Proposal creation
/// The accounts of proposal creation: the owner asking, the vault with its
/// balance, and the proposal record being created.
#[derive(Debug)]
pub struct CreateProposal {
    pub creator: Pubkey,
    pub vault_key: Pubkey,
    pub vault: Vault,
    pub vault_lamports: u64,
    pub proposal_key: Pubkey,
    pub proposal: Proposal,
}

/// The bump seed found for the new proposal's address.
#[derive(Clone, Copy, Debug)]
pub struct CreateProposalBumps {
    pub proposal: u8,
}

/// The first rule that a creation request breaks, in the order they are checked.
pub open spec fn create_check(vault: Vault, vault_lamports: u64, creator: Pubkey, amount: u64) -> Result<
    (),
    VaultError,
> {
    if !vault.owners@.contains(creator) {
        Err(VaultError::NotAnOwner)
    } else if amount == 0 {
        Err(VaultError::InvalidProposalAmount)
    } else if vault_lamports < amount {
        Err(VaultError::InsufficientFunds)
    } else {
        Ok(())
    }
}

/// What proposal creation does: on success the proposal takes the vault's
/// counter as its id, starts with no approvals, unexecuted, and the counter
/// goes up by one; on failure nothing changes.
pub open spec fn create_post(
    pre: CreateProposal,
    post: CreateProposal,
    recipient: Pubkey,
    amount: u64,
    bump: u8,
    r: Result<ProposalCreated, VaultError>,
) -> bool {
    match r {
        Ok(e) => {
            &&& create_check(pre.vault, pre.vault_lamports, pre.creator, amount) is Ok
            &&& post.creator == pre.creator
            &&& post.vault_key == pre.vault_key
            &&& post.vault_lamports == pre.vault_lamports
            &&& post.proposal_key == pre.proposal_key
            &&& post.vault.authority == pre.vault.authority
            &&& post.vault.owners == pre.vault.owners
            &&& post.vault.threshold == pre.vault.threshold
            &&& post.vault.proposal_count == pre.vault.proposal_count + 1
            &&& post.vault.bump == pre.vault.bump
            &&& post.vault.padding == pre.vault.padding
            &&& post.proposal.vault == pre.vault_key
            &&& post.proposal.proposal_id == pre.vault.proposal_count
            &&& post.proposal.recipient == recipient
            &&& post.proposal.amount == amount
            &&& post.proposal.approvals@ == Seq::<Pubkey>::empty()
            &&& !post.proposal.executed
            &&& post.proposal.bump == bump
            &&& e == (ProposalCreated {
                vault: pre.vault_key,
                proposal: pre.proposal_key,
                creator: pre.creator,
                recipient,
                amount,
            })
        },
        Err(err) => create_check(pre.vault, pre.vault_lamports, pre.creator, amount) == Err::<
            (),
            VaultError,
        >(err) && post == pre,
    }
}

impl CreateProposal {
    /// Opens a proposal to pay `amount` to `recipient`.
    pub fn create(&mut self, recipient: Pubkey, amount: u64, bumps: &CreateProposalBumps) -> (r: Result<
        ProposalCreated,
        VaultError,
    >)
        requires
            old(self).vault.proposal_count < u64::MAX,
        ensures
            create_post(*old(self), *final(self), recipient, amount, bumps.proposal, r),
            r is Ok ==> final(self).proposal.wf(&final(self).vault),
    {
        if !is_owner(&self.vault, &self.creator) {
            return Err(VaultError::NotAnOwner);
        }
        if amount == 0 {
            return Err(VaultError::InvalidProposalAmount);
        }
        if self.vault_lamports < amount {
            return Err(VaultError::InsufficientFunds);
        }
        self.proposal.vault = self.vault_key;
        self.proposal.proposal_id = self.vault.proposal_count;
        self.proposal.recipient = recipient;
        self.proposal.amount = amount;
        self.proposal.approvals = Vec::new();
        self.proposal.executed = false;
        self.proposal.bump = bumps.proposal;
        self.vault.proposal_count = self.vault.proposal_count + 1;
        Ok(
            ProposalCreated {
                vault: self.vault_key,
                proposal: self.proposal_key,
                creator: self.creator,
                recipient,
                amount,
            },
        )
    }
}

// ---------------------------------------------------------------------------
// Approval
/// The accounts of an approval: the owner approving, the vault and the proposal.
#[derive(Debug)]
pub struct ApproveProposal {
    pub approver: Pubkey,
    pub vault_key: Pubkey,
    pub vault: Vault,
    pub proposal_key: Pubkey,
    pub proposal: Proposal,
}

/// The first rule that an approval breaks, in the order they are checked.
pub open spec fn approve_check(vault: Vault, proposal: Proposal, approver: Pubkey) -> Result<
    (),
    VaultError,
> {
    if proposal.executed {
        Err(VaultError::ProposalAlreadyExecuted)
    } else if !vault.owners@.contains(approver) {
        Err(VaultError::NotAnOwner)
    } else if proposal.approvals@.contains(approver) {
        Err(VaultError::AlreadyApproved)
    } else {
        Ok(())
    }
}

/// What an approval does: on success the approver is appended to the
/// approvals and nothing else changes; on failure nothing changes.
pub open spec fn approve_post(
    pre: ApproveProposal,
    post: ApproveProposal,
    r: Result<ProposalApproved, VaultError>,
) -> bool {
    match r {
        Ok(e) => {
            &&& approve_check(pre.vault, pre.proposal, pre.approver) is Ok
            &&& post.approver == pre.approver
            &&& post.vault_key == pre.vault_key
            &&& post.vault == pre.vault
            &&& post.proposal_key == pre.proposal_key
            &&& post.proposal.vault == pre.proposal.vault
            &&& post.proposal.proposal_id == pre.proposal.proposal_id
            &&& post.proposal.recipient == pre.proposal.recipient
            &&& post.proposal.amount == pre.proposal.amount
            &&& post.proposal.approvals@ == pre.proposal.approvals@.push(pre.approver)
            &&& post.proposal.executed == pre.proposal.executed
            &&& post.proposal.bump == pre.proposal.bump
            &&& e == (ProposalApproved {
                vault: pre.vault_key,
                proposal: pre.proposal_key,
                approver: pre.approver,
                total_approvals: post.proposal.approvals@.len() as u8,
            })
        },
        Err(err) => approve_check(pre.vault, pre.proposal, pre.approver) == Err::<(), VaultError>(err)
            && post == pre,
    }
}

impl ApproveProposal {
    /// Records the approver's approval of the proposal.
    pub fn approve(&mut self) -> (r: Result<ProposalApproved, VaultError>)
        ensures
            approve_post(*old(self), *final(self), r),
            old(self).proposal.wf(&old(self).vault) ==> final(self).proposal.wf(&final(self).vault),
    {
        if self.proposal.executed {
            return Err(VaultError::ProposalAlreadyExecuted);
        }
        if !is_owner(&self.vault, &self.approver) {
            return Err(VaultError::NotAnOwner);
        }
        if has_already_approved(&self.proposal, &self.approver) {
            return Err(VaultError::AlreadyApproved);
        }
        self.proposal.approvals.push(self.approver);
        proof {
            if old(self).proposal.wf(&old(self).vault) {
                lemma_append_approval(old(self).proposal.approvals@, old(self).vault.owners@, old(self).approver);
            }
        }
        Ok(
            ProposalApproved {
                vault: self.vault_key,
                proposal: self.proposal_key,
                approver: self.approver,
                total_approvals: #[verifier::truncate] (self.proposal.approvals.len() as u8),
            },
        )
    }
}

// ---------------------------------------------------------------------------
// Execution
/// The accounts of an execution: any signer, the vault with its balance, the
/// proposal, and the recipient with its balance.
#[derive(Debug)]
pub struct ExecuteProposal {
    pub executor: Pubkey,
    pub vault_key: Pubkey,
    pub vault: Vault,
    pub vault_lamports: u64,
    pub proposal_key: Pubkey,
    pub proposal: Proposal,
    pub recipient: Pubkey,
    pub recipient_lamports: u64,
}

/// The first rule that an execution breaks, in the order they are checked.
pub open spec fn execute_check(vault: Vault, vault_lamports: u64, proposal: Proposal) -> Result<
    (),
    VaultError,
> {
    if proposal.executed {
        Err(VaultError::ProposalAlreadyExecuted)
    } else if vault_lamports < proposal.amount {
        Err(VaultError::InsufficientFunds)
    } else if proposal.approvals@.len() < vault.threshold as int {
        Err(VaultError::NotEnoughApprovals)
    } else {
        Ok(())
    }
}

/// What an execution does: on success the amount moves from the vault to the
/// recipient and the proposal is marked executed; on failure nothing changes.
pub open spec fn execute_post(
    pre: ExecuteProposal,
    post: ExecuteProposal,
    r: Result<ProposalExecuted, VaultError>,
) -> bool {
    &&& post.executor == pre.executor
    &&& post.vault_key == pre.vault_key
    &&& post.vault == pre.vault
    &&& post.proposal_key == pre.proposal_key
    &&& post.recipient == pre.recipient
    &&& post.proposal.vault == pre.proposal.vault
    &&& post.proposal.proposal_id == pre.proposal.proposal_id
    &&& post.proposal.recipient == pre.proposal.recipient
    &&& post.proposal.amount == pre.proposal.amount
    &&& post.proposal.approvals == pre.proposal.approvals
    &&& post.proposal.bump == pre.proposal.bump
    &&& post.vault_lamports == debited(pre.vault_lamports, pre.proposal.amount, r is Ok)
    &&& post.recipient_lamports == credited(pre.recipient_lamports, pre.proposal.amount, r is Ok)
    &&& match r {
        Ok(e) => {
            &&& execute_check(pre.vault, pre.vault_lamports, pre.proposal) is Ok
            &&& post.proposal.executed
            &&& e == (ProposalExecuted {
                vault: pre.vault_key,
                proposal: pre.proposal_key,
                executor: pre.executor,
                recipient: pre.recipient,
                amount: pre.proposal.amount,
            })
        },
        Err(err) => {
            &&& execute_check(pre.vault, pre.vault_lamports, pre.proposal) == Err::<(), VaultError>(err)
            &&& post.proposal.executed == pre.proposal.executed
        },
    }
}

impl ExecuteProposal {
    /// Pays the proposal's amount from the vault to its recipient, once the
    /// quorum has approved it.
    pub fn execute(&mut self) -> (r: Result<ProposalExecuted, VaultError>)
        requires
            old(self).recipient == old(self).proposal.recipient,
            old(self).vault_lamports + old(self).recipient_lamports <= u64::MAX,
        ensures
            execute_post(*old(self), *final(self), r),
    {
        if self.proposal.executed {
            return Err(VaultError::ProposalAlreadyExecuted);
        }
        if self.vault_lamports < self.proposal.amount {
            return Err(VaultError::InsufficientFunds);
        }
        if !is_threshold_met(&self.vault, &self.proposal) {
            return Err(VaultError::NotEnoughApprovals);
        }
        let amount = self.proposal.amount;
        self.vault_lamports = self.vault_lamports - amount;
        self.recipient_lamports = self.recipient_lamports + amount;
        self.proposal.executed = true;
        Ok(
            ProposalExecuted {
                vault: self.vault_key,
                proposal: self.proposal_key,
                executor: self.executor,
                recipient: self.recipient,
                amount,
            },
        )
    }
}

} // verus!
