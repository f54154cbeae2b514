use vstd::prelude::*;

verus! {

/// Why an instruction was rejected. A rejected instruction changes nothing.
#[derive(Clone, Copy, Debug, PartialEq, Eq, Structural)]
pub enum VaultError {
    NotAnOwner,
    ProposalAlreadyExecuted,
    AlreadyApproved,
    NotEnoughApprovals,
    InsufficientFunds,
    InvalidThreshold,
    DuplicateOwners,
    InvalidProposalAmount,
    InvalidProposalId,
    InvalidDepositAmount,
}

} // verus!
