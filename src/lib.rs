pub mod errors;
pub mod events;
pub mod helper;
pub mod instructions;
pub mod key;
pub mod laws;
pub mod state;

use vstd::prelude::*;

use crate::errors::VaultError;
use crate::events::{DepositEvent, ProposalApproved, ProposalCreated, ProposalExecuted, VaultInitialized};
use crate::instructions::{
    approve_post, create_post, deposit_post, execute_post, initialize_post, ApproveProposal,
    CreateProposal, CreateProposalBumps, DepositVault, ExecuteProposal, InitializeVault,
    InitializeVaultBumps,
};
use crate::key::Pubkey;

verus! {

/// Sets up a vault whose owners are `owners` and whose quorum is `threshold`.
pub fn initialize_vault(
    ctx: &mut InitializeVault,
    owners: Vec<Pubkey>,
    threshold: u8,
    bumps: &InitializeVaultBumps,
) -> (r: Result<VaultInitialized, VaultError>)
    ensures
        initialize_post(*old(ctx), *final(ctx), owners@, threshold, bumps.vault, r),
        r is Ok ==> final(ctx).vault.wf(),
{
    ctx.initialize(owners, threshold, bumps)
}

/// Pays `amount` into the vault.
pub fn deposit_vault(ctx: &mut DepositVault, amount: u64) -> (r: Result<DepositEvent, VaultError>)
    requires
        old(ctx).depositor_lamports + old(ctx).vault_lamports <= u64::MAX,
    ensures
        deposit_post(*old(ctx), *final(ctx), amount, r),
{
    ctx.deposit(amount)
}

/// Opens a proposal to pay `amount` to `recipient`.
pub fn create_proposal(
    ctx: &mut CreateProposal,
    recipient: Pubkey,
    amount: u64,
    bumps: &CreateProposalBumps,
) -> (r: Result<ProposalCreated, VaultError>)
    requires
        old(ctx).vault.proposal_count < u64::MAX,
    ensures
        create_post(*old(ctx), *final(ctx), recipient, amount, bumps.proposal, r),
        r is Ok ==> final(ctx).proposal.wf(&final(ctx).vault),
{
    ctx.create(recipient, amount, bumps)
}

/// Records the signer's approval of a proposal.
pub fn approve_proposal(ctx: &mut ApproveProposal) -> (r: Result<ProposalApproved, VaultError>)
    ensures
        approve_post(*old(ctx), *final(ctx), r),
        old(ctx).proposal.wf(&old(ctx).vault) ==> final(ctx).proposal.wf(&final(ctx).vault),
{
    ctx.approve()
}

/// Carries out an approved proposal's transfer.
pub fn execute_proposal(ctx: &mut ExecuteProposal) -> (r: Result<ProposalExecuted, VaultError>)
    requires
        old(ctx).recipient == old(ctx).proposal.recipient,
        old(ctx).vault_lamports + old(ctx).recipient_lamports <= u64::MAX,
    ensures
        execute_post(*old(ctx), *final(ctx), r),
{
    ctx.execute()
}

} // verus!
