use vstd::prelude::*;

use crate::key::Pubkey;

verus! {

/// Emitted when a vault is set up.
#[derive(Debug)]
pub struct VaultInitialized {
    pub vault: Pubkey,
    pub authority: Pubkey,
    pub owners: Vec<Pubkey>,
    pub threshold: u8,
}

/// Emitted when funds are paid into a vault.
#[derive(Debug)]
pub struct DepositEvent {
    pub vault: Pubkey,
    pub depositor: Pubkey,
    pub amount: u64,
}

/// Emitted when an owner opens a proposal.
#[derive(Debug)]
pub struct ProposalCreated {
    pub vault: Pubkey,
    pub proposal: Pubkey,
    pub creator: Pubkey,
    pub recipient: Pubkey,
    pub amount: u64,
}

/// Emitted when an owner approves a proposal; carries the new count.
#[derive(Debug)]
pub struct ProposalApproved {
    pub vault: Pubkey,
    pub proposal: Pubkey,
    pub approver: Pubkey,
    pub total_approvals: u8,
}

/// Emitted when a proposal's transfer is carried out.
#[derive(Debug)]
pub struct ProposalExecuted {
    pub vault: Pubkey,
    pub proposal: Pubkey,
    pub executor: Pubkey,
    pub recipient: Pubkey,
    pub amount: u64,
}

} // verus!
