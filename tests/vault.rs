use multisig_vault::errors::VaultError;
use multisig_vault::helper::{
    derive_proposal_pda, derive_vault_pda, has_already_approved, is_owner, is_threshold_met,
    transfer_sol, u64_le_bytes,
};
use multisig_vault::instructions::{
    ApproveProposal, CreateProposal, CreateProposalBumps, DepositVault, ExecuteProposal,
    InitializeVault, InitializeVaultBumps,
};
use multisig_vault::key::{has_duplicates, keys_contain, Pubkey};
use multisig_vault::state::{Proposal, Vault};
use multisig_vault::{
    approve_proposal, create_proposal, deposit_vault, execute_proposal, initialize_vault,
};

fn key(n: u8) -> Pubkey {
    Pubkey::new_from_array([n; 32])
}

fn blank_vault() -> Vault {
    Vault {
        authority: key(0),
        owners: Vec::new(),
        threshold: 0,
        proposal_count: 0,
        bump: 0,
        padding: [0; 16],
    }
}

fn blank_proposal() -> Proposal {
    Proposal {
        vault: key(0),
        proposal_id: 0,
        recipient: key(0),
        amount: 0,
        approvals: Vec::new(),
        executed: false,
        bump: 0,
    }
}

fn vault_of(owners: Vec<Pubkey>, threshold: u8) -> Vault {
    Vault { authority: key(9), owners, threshold, proposal_count: 0, bump: 254, padding: [0; 16] }
}

fn proposal_with(approvals: Vec<Pubkey>, amount: u64) -> Proposal {
    Proposal {
        vault: key(50),
        proposal_id: 0,
        recipient: key(60),
        amount,
        approvals,
        executed: false,
        bump: 253,
    }
}

fn three_owners() -> Vec<Pubkey> {
    vec![key(1), key(2), key(3)]
}

fn approve_ctx(approver: Pubkey, vault: Vault, proposal: Proposal) -> ApproveProposal {
    ApproveProposal { approver, vault_key: key(50), vault, proposal_key: key(51), proposal }
}

fn execute_ctx(vault: Vault, vault_lamports: u64, proposal: Proposal) -> ExecuteProposal {
    let recipient = proposal.recipient;
    ExecuteProposal {
        executor: key(77),
        vault_key: key(50),
        vault,
        vault_lamports,
        proposal_key: key(51),
        proposal,
        recipient,
        recipient_lamports: 0,
    }
}

#[test]
fn scenario_full_flow() {
    let mut init =
        InitializeVault { authority: key(9), vault_key: key(50), vault: blank_vault() };
    let ev = initialize_vault(&mut init, three_owners(), 2, &InitializeVaultBumps { vault: 254 })
        .unwrap();
    assert_eq!(ev.owners, three_owners());
    assert_eq!(ev.threshold, 2);
    assert_eq!(ev.vault, key(50));
    assert_eq!(init.vault.proposal_count, 0);
    assert_eq!(init.vault.authority, key(9));

    let mut dep = DepositVault {
        depositor: key(5),
        depositor_lamports: 1000,
        vault_key: key(50),
        vault: init.vault,
        vault_lamports: 0,
    };
    let ev = deposit_vault(&mut dep, 100).unwrap();
    assert_eq!(ev.amount, 100);
    assert_eq!(dep.vault_lamports, 100);
    assert_eq!(dep.depositor_lamports, 900);

    let mut create = CreateProposal {
        creator: key(1),
        vault_key: key(50),
        vault: dep.vault,
        vault_lamports: dep.vault_lamports,
        proposal_key: key(51),
        proposal: blank_proposal(),
    };
    let ev = create_proposal(&mut create, key(60), 40, &CreateProposalBumps { proposal: 253 })
        .unwrap();
    assert_eq!(ev.amount, 40);
    assert_eq!(ev.recipient, key(60));
    assert_eq!(create.proposal.proposal_id, 0);
    assert_eq!(create.vault.proposal_count, 1);
    assert!(create.proposal.approvals.is_empty());
    assert!(!create.proposal.executed);

    let mut ap = approve_ctx(key(1), create.vault, create.proposal);
    let ev = approve_proposal(&mut ap).unwrap();
    assert_eq!(ev.total_approvals, 1);
    assert_eq!(ap.proposal.approvals, vec![key(1)]);

    let mut ex = execute_ctx(ap.vault, 100, ap.proposal);
    assert_eq!(execute_proposal(&mut ex).unwrap_err(), VaultError::NotEnoughApprovals);
    assert_eq!(ex.vault_lamports, 100);

    let mut ap = approve_ctx(key(2), ex.vault, ex.proposal);
    let ev = approve_proposal(&mut ap).unwrap();
    assert_eq!(ev.total_approvals, 2);
    assert_eq!(ap.proposal.approvals, vec![key(1), key(2)]);

    let mut ex = execute_ctx(ap.vault, 100, ap.proposal);
    let ev = execute_proposal(&mut ex).unwrap();
    assert_eq!(ev.amount, 40);
    assert_eq!(ev.recipient, key(60));
    assert_eq!(ex.vault_lamports, 60);
    assert_eq!(ex.recipient_lamports, 40);
    assert!(ex.proposal.executed);
}

#[test]
fn scenario_double_approval() {
    let mut ap = approve_ctx(key(1), vault_of(three_owners(), 2), proposal_with(Vec::new(), 40));
    assert!(approve_proposal(&mut ap).is_ok());
    assert_eq!(approve_proposal(&mut ap).unwrap_err(), VaultError::AlreadyApproved);
    assert_eq!(ap.proposal.approvals.len(), 1);
}

#[test]
fn scenario_empty_owners_rejected() {
    let mut init =
        InitializeVault { authority: key(9), vault_key: key(50), vault: blank_vault() };
    let r = initialize_vault(&mut init, Vec::new(), 1, &InitializeVaultBumps { vault: 1 });
    assert_eq!(r.unwrap_err(), VaultError::InvalidThreshold);
    assert!(init.vault.owners.is_empty());
}

#[test]
fn scenario_duplicate_owners_rejected() {
    let mut init =
        InitializeVault { authority: key(9), vault_key: key(50), vault: blank_vault() };
    let r = initialize_vault(&mut init, vec![key(4), key(4)], 1, &InitializeVaultBumps { vault: 1 });
    assert_eq!(r.unwrap_err(), VaultError::DuplicateOwners);
    assert!(init.vault.owners.is_empty());
}

#[test]
fn scenario_overdrawn_proposal_rejected() {
    let mut create = CreateProposal {
        creator: key(1),
        vault_key: key(50),
        vault: vault_of(three_owners(), 2),
        vault_lamports: 100,
        proposal_key: key(51),
        proposal: blank_proposal(),
    };
    let r = create_proposal(&mut create, key(60), 150, &CreateProposalBumps { proposal: 1 });
    assert_eq!(r.unwrap_err(), VaultError::InsufficientFunds);
    assert_eq!(create.vault.proposal_count, 0);
    assert_eq!(create.proposal.amount, 0);
}

#[test]
fn initialize_threshold_zero_rejected() {
    let mut init =
        InitializeVault { authority: key(9), vault_key: key(50), vault: blank_vault() };
    let r = initialize_vault(&mut init, three_owners(), 0, &InitializeVaultBumps { vault: 1 });
    assert_eq!(r.unwrap_err(), VaultError::InvalidThreshold);
}

#[test]
fn initialize_threshold_above_owner_count_rejected() {
    let mut init =
        InitializeVault { authority: key(9), vault_key: key(50), vault: blank_vault() };
    let r = initialize_vault(&mut init, three_owners(), 4, &InitializeVaultBumps { vault: 1 });
    assert_eq!(r.unwrap_err(), VaultError::InvalidThreshold);
}

#[test]
fn initialize_threshold_equal_to_owner_count_accepted() {
    let mut init =
        InitializeVault { authority: key(9), vault_key: key(50), vault: blank_vault() };
    let r = initialize_vault(&mut init, three_owners(), 3, &InitializeVaultBumps { vault: 7 });
    assert!(r.is_ok());
    assert_eq!(init.vault.threshold, 3);
    assert_eq!(init.vault.bump, 7);
    assert_eq!(init.vault.owners, three_owners());
}

#[test]
fn deposit_zero_rejected() {
    let mut dep = DepositVault {
        depositor: key(5),
        depositor_lamports: 10,
        vault_key: key(50),
        vault: vault_of(three_owners(), 2),
        vault_lamports: 3,
    };
    assert_eq!(deposit_vault(&mut dep, 0).unwrap_err(), VaultError::InvalidDepositAmount);
    assert_eq!(dep.vault_lamports, 3);
    assert_eq!(dep.depositor_lamports, 10);
}

#[test]
fn deposit_more_than_held_rejected() {
    let mut dep = DepositVault {
        depositor: key(5),
        depositor_lamports: 10,
        vault_key: key(50),
        vault: vault_of(three_owners(), 2),
        vault_lamports: 3,
    };
    assert_eq!(deposit_vault(&mut dep, 11).unwrap_err(), VaultError::InsufficientFunds);
    assert_eq!(dep.vault_lamports, 3);
    assert_eq!(dep.depositor_lamports, 10);
}

#[test]
fn deposit_by_non_owner_accepted() {
    let mut dep = DepositVault {
        depositor: key(88),
        depositor_lamports: 10,
        vault_key: key(50),
        vault: vault_of(three_owners(), 2),
        vault_lamports: 3,
    };
    let ev = deposit_vault(&mut dep, 10).unwrap();
    assert_eq!(ev.depositor, key(88));
    assert_eq!(dep.vault_lamports, 13);
    assert_eq!(dep.depositor_lamports, 0);
}

#[test]
fn create_by_non_owner_rejected() {
    let mut create = CreateProposal {
        creator: key(8),
        vault_key: key(50),
        vault: vault_of(three_owners(), 2),
        vault_lamports: 100,
        proposal_key: key(51),
        proposal: blank_proposal(),
    };
    let r = create_proposal(&mut create, key(60), 10, &CreateProposalBumps { proposal: 1 });
    assert_eq!(r.unwrap_err(), VaultError::NotAnOwner);
    assert_eq!(create.vault.proposal_count, 0);
}

#[test]
fn create_zero_amount_rejected() {
    let mut create = CreateProposal {
        creator: key(1),
        vault_key: key(50),
        vault: vault_of(three_owners(), 2),
        vault_lamports: 100,
        proposal_key: key(51),
        proposal: blank_proposal(),
    };
    let r = create_proposal(&mut create, key(60), 0, &CreateProposalBumps { proposal: 1 });
    assert_eq!(r.unwrap_err(), VaultError::InvalidProposalAmount);
}

#[test]
fn create_takes_counter_as_id() {
    let mut vault = vault_of(three_owners(), 2);
    vault.proposal_count = 7;
    let mut create = CreateProposal {
        creator: key(3),
        vault_key: key(50),
        vault,
        vault_lamports: 100,
        proposal_key: key(51),
        proposal: blank_proposal(),
    };
    create_proposal(&mut create, key(60), 100, &CreateProposalBumps { proposal: 9 }).unwrap();
    assert_eq!(create.proposal.proposal_id, 7);
    assert_eq!(create.proposal.bump, 9);
    assert_eq!(create.proposal.vault, key(50));
    assert_eq!(create.vault.proposal_count, 8);
}

#[test]
fn approve_by_owner_accepted() {
    let mut ap = approve_ctx(key(3), vault_of(three_owners(), 2), proposal_with(Vec::new(), 1));
    let ev = ap.approve().unwrap();
    assert_eq!(ev.approver, key(3));
    assert_eq!(ap.proposal.approvals, vec![key(3)]);
}

#[test]
fn approve_by_non_owner_rejected() {
    let mut ap =
        approve_ctx(key(8), vault_of(three_owners(), 2), proposal_with(vec![key(1)], 1));
    assert_eq!(ap.approve().unwrap_err(), VaultError::NotAnOwner);
    assert_eq!(ap.proposal.approvals, vec![key(1)]);
}

#[test]
fn approve_executed_proposal_rejected() {
    let mut p = proposal_with(Vec::new(), 1);
    p.executed = true;
    let mut ap = approve_ctx(key(8), vault_of(three_owners(), 2), p);
    assert_eq!(ap.approve().unwrap_err(), VaultError::ProposalAlreadyExecuted);
    assert!(ap.proposal.approvals.is_empty());
}

#[test]
fn execute_twice_rejected() {
    let mut ex = execute_ctx(vault_of(three_owners(), 2), 100, proposal_with(vec![key(1), key(2)], 40));
    assert!(ex.execute().is_ok());
    assert_eq!(ex.vault_lamports, 60);
    assert_eq!(ex.execute().unwrap_err(), VaultError::ProposalAlreadyExecuted);
    assert_eq!(ex.vault_lamports, 60);
    assert_eq!(ex.recipient_lamports, 40);
}

#[test]
fn execute_underfunded_rejected() {
    let mut ex = execute_ctx(vault_of(three_owners(), 2), 30, proposal_with(vec![key(1), key(2)], 40));
    assert_eq!(ex.execute().unwrap_err(), VaultError::InsufficientFunds);
    assert_eq!(ex.vault_lamports, 30);
    assert!(!ex.proposal.executed);
}

#[test]
fn execute_one_short_of_threshold_rejected() {
    let mut ex = execute_ctx(vault_of(three_owners(), 3), 100, proposal_with(vec![key(1), key(2)], 40));
    assert_eq!(ex.execute().unwrap_err(), VaultError::NotEnoughApprovals);
    assert!(!ex.proposal.executed);
}

#[test]
fn conservation_over_a_run() {
    let mut dep = DepositVault {
        depositor: key(5),
        depositor_lamports: 500,
        vault_key: key(50),
        vault: vault_of(three_owners(), 1),
        vault_lamports: 0,
    };
    deposit_vault(&mut dep, 100).unwrap();
    deposit_vault(&mut dep, 50).unwrap();
    let mut ex = execute_ctx(dep.vault, dep.vault_lamports, proposal_with(vec![key(2)], 70));
    execute_proposal(&mut ex).unwrap();
    let mut ex2 = execute_ctx(ex.vault, ex.vault_lamports, proposal_with(vec![key(2)], 90));
    assert_eq!(execute_proposal(&mut ex2).unwrap_err(), VaultError::InsufficientFunds);
    assert_eq!(ex2.vault_lamports, 100 + 50 - 70);
}

#[test]
fn helpers_answer_membership() {
    let vault = vault_of(three_owners(), 2);
    assert!(is_owner(&vault, &key(2)));
    assert!(!is_owner(&vault, &key(4)));
    let p = proposal_with(vec![key(1)], 5);
    assert!(has_already_approved(&p, &key(1)));
    assert!(!has_already_approved(&p, &key(2)));
    assert!(!is_threshold_met(&vault, &p));
    let p2 = proposal_with(vec![key(1), key(3)], 5);
    assert!(is_threshold_met(&vault, &p2));
    assert!(keys_contain(&three_owners(), &key(3)));
    assert!(!has_duplicates(&three_owners()));
    assert!(has_duplicates(&vec![key(1), key(2), key(1)]));
}

#[test]
fn keys_differing_in_last_byte_differ() {
    let mut b = [7u8; 32];
    b[31] = 8;
    assert_ne!(key(7), Pubkey::new_from_array(b));
    assert_eq!(key(7).to_bytes(), [7u8; 32]);
}

#[test]
fn transfer_moves_or_refuses() {
    let mut from: u64 = 10;
    let mut to: u64 = 5;
    assert!(transfer_sol(&mut from, &mut to, 4).is_ok());
    assert_eq!((from, to), (6, 9));
    assert_eq!(transfer_sol(&mut from, &mut to, 7).unwrap_err(), VaultError::InsufficientFunds);
    assert_eq!((from, to), (6, 9));
}

#[test]
fn le_bytes_of_id() {
    assert_eq!(u64_le_bytes(0x0102030405060708), vec![8, 7, 6, 5, 4, 3, 2, 1]);
    assert_eq!(u64_le_bytes(0), vec![0; 8]);
}

#[test]
fn vault_address_is_stable_and_distinct() {
    let program = key(200);
    let a = derive_vault_pda(&key(1), &program).unwrap();
    let b = derive_vault_pda(&key(1), &program).unwrap();
    let c = derive_vault_pda(&key(2), &program).unwrap();
    assert_eq!(a, b);
    assert_ne!(a.0, c.0);
    assert_ne!(a.0, key(1));
    assert_ne!(a.0, program);
}

#[test]
fn proposal_addresses_differ_by_id() {
    let program = key(200);
    let p0 = derive_proposal_pda(&key(50), 0, &program).unwrap();
    let p1 = derive_proposal_pda(&key(50), 1, &program).unwrap();
    assert_ne!(p0.0, p1.0);
    assert_ne!(p0.0, key(50));
    let v = derive_vault_pda(&key(50), &program).unwrap();
    assert_ne!(p0.0, v.0);
}
