use vstd::prelude::*;

use crate::key::Pubkey;

verus! {

/// The record of one owner group: its owners, quorum and proposal counter.
#[derive(Debug)]
pub struct Vault {
    pub authority: Pubkey,
    pub owners: Vec<Pubkey>,
    pub threshold: u8,
    pub proposal_count: u64,
    pub bump: u8,
    pub padding: [u8; 16],
}

impl Vault {
    /// At least one owner, no owner twice, and a threshold between one and
    /// the number of owners.
    pub open spec fn wf(&self) -> bool {
        &&& self.owners@.len() >= 1
        &&& 1 <= self.threshold
        &&& self.threshold as int <= self.owners@.len()
        &&& self.owners@.no_duplicates()
    }
}

/// One requested transfer out of a vault, with the owners who approved it.
#[derive(Debug)]
pub struct Proposal {
    pub vault: Pubkey,
    pub proposal_id: u64,
    pub recipient: Pubkey,
    pub amount: u64,
    pub approvals: Vec<Pubkey>,
    pub executed: bool,
    pub bump: u8,
}

impl Proposal {
    /// The approvals are distinct owners of `vault`.
    pub open spec fn wf(&self, vault: &Vault) -> bool {
        &&& self.approvals@.no_duplicates()
        &&& forall|k: Pubkey| #[trigger] self.approvals@.contains(k) ==> vault.owners@.contains(k)
    }
}

} // verus!
