use vstd::prelude::*;

use crate::errors::VaultError;
use crate::events::{DepositEvent, ProposalApproved, ProposalExecuted};
use crate::instructions::{
    approve_post, credited, debited, deposit_post, execute_post, ApproveProposal, DepositVault,
    ExecuteProposal,
};
use crate::key::Pubkey;

verus! {

/// Appending an owner who is not yet among the approvals keeps them distinct
/// and within the owners.
pub proof fn lemma_append_approval(approvals: Seq<Pubkey>, owners: Seq<Pubkey>, a: Pubkey)
    requires
        approvals.no_duplicates(),
        forall|k: Pubkey| #[trigger] approvals.contains(k) ==> owners.contains(k),
        owners.contains(a),
        !approvals.contains(a),
    ensures
        approvals.push(a).no_duplicates(),
        forall|k: Pubkey| #[trigger] approvals.push(a).contains(k) ==> owners.contains(k),
{
    let s = approvals.push(a);
    assert forall|k: Pubkey| #[trigger] s.contains(k) implies owners.contains(k) by {
        if k != a {
            let i = choose|i: int| 0 <= i < s.len() && s[i] == k;
            assert(i < approvals.len());
            assert(approvals[i] == k);
            assert(approvals.contains(k));
        }
    }
    assert forall|i: int, j: int| 0 <= i < s.len() && 0 <= j < s.len() && i != j implies s[i] != s[j] by {
        if i == approvals.len() {
            assert(approvals[j] != a);
        } else if j == approvals.len() {
            assert(approvals[i] != a);
        }
    }
}

/// Quorum safety: an execution succeeds only when the proposal holds at
/// least `threshold` approvals, and one short of the threshold fails with
/// `NotEnoughApprovals` whenever the proposal is unexecuted and funded.
pub proof fn lemma_quorum_safety(
    pre: ExecuteProposal,
    post: ExecuteProposal,
    r: Result<ProposalExecuted, VaultError>,
)
    requires
        execute_post(pre, post, r),
    ensures
        r is Ok ==> pre.proposal.approvals@.len() >= pre.vault.threshold as int,
        !pre.proposal.executed && pre.vault_lamports >= pre.proposal.amount
            && pre.proposal.approvals@.len() + 1 == pre.vault.threshold as int ==> r
            == Err::<ProposalExecuted, VaultError>(VaultError::NotEnoughApprovals),
{
}

/// Exactly-once execution: after a successful execution, executing the same
/// proposal again fails with `ProposalAlreadyExecuted` and moves no funds.
pub proof fn lemma_execute_at_most_once(
    s0: ExecuteProposal,
    s1: ExecuteProposal,
    s2: ExecuteProposal,
    r1: Result<ProposalExecuted, VaultError>,
    r2: Result<ProposalExecuted, VaultError>,
)
    requires
        execute_post(s0, s1, r1),
        execute_post(s1, s2, r2),
        r1 is Ok,
    ensures
        r2 == Err::<ProposalExecuted, VaultError>(VaultError::ProposalAlreadyExecuted),
        s2.vault_lamports == s1.vault_lamports,
        s2.recipient_lamports == s1.recipient_lamports,
        s2.proposal.executed,
{
}

/// No double approval: after an owner's approval succeeds, the same owner
/// approving the same proposal again fails with `AlreadyApproved` and leaves
/// the approvals as they were.
pub proof fn lemma_no_double_approval(
    s0: ApproveProposal,
    s1: ApproveProposal,
    s2: ApproveProposal,
    r1: Result<ProposalApproved, VaultError>,
    r2: Result<ProposalApproved, VaultError>,
)
    requires
        approve_post(s0, s1, r1),
        approve_post(s1, s2, r2),
        r1 is Ok,
    ensures
        r2 == Err::<ProposalApproved, VaultError>(VaultError::AlreadyApproved),
        s2.proposal.approvals@ == s1.proposal.approvals@,
        s2.proposal.approvals@.len() == s0.proposal.approvals@.len() + 1,
{
    assert(s1.proposal.approvals@.last() == s0.approver);
    assert(s1.proposal.approvals@.contains(s1.approver));
}

/// Membership closure: an approval keeps the approvals a set of owners, and
/// a non-owner's approval of an unexecuted proposal fails with `NotAnOwner`
/// and leaves the approvals as they were.
pub proof fn lemma_membership_closure(
    pre: ApproveProposal,
    post: ApproveProposal,
    r: Result<ProposalApproved, VaultError>,
)
    requires
        approve_post(pre, post, r),
        pre.proposal.wf(&pre.vault),
    ensures
        post.proposal.wf(&post.vault),
        !pre.proposal.executed && !pre.vault.owners@.contains(pre.approver) ==> r == Err::<
            ProposalApproved,
            VaultError,
        >(VaultError::NotAnOwner) && post.proposal.approvals@ == pre.proposal.approvals@,
{
    if r is Ok {
        lemma_append_approval(pre.proposal.approvals@, pre.vault.owners@, pre.approver);
    }
}

/// One change of a vault's balance: `step` is (whether it was a deposit
/// rather than an execution, its amount, whether it succeeded).
pub open spec fn balance_step(step: (bool, u64, bool), before: u64, after: u64) -> bool {
    if step.0 {
        after == credited(before, step.1, step.2)
    } else {
        after == debited(before, step.1, step.2) && (step.2 ==> step.1 <= before)
    }
}

/// The sum of the successful deposits among `steps`.
pub open spec fn total_deposited(steps: Seq<(bool, u64, bool)>) -> int
    decreases steps.len(),
{
    if steps.len() == 0 {
        0
    } else {
        let s = steps.last();
        total_deposited(steps.drop_last()) + if s.0 && s.2 {
            s.1 as int
        } else {
            0
        }
    }
}

/// The sum of the successful executions among `steps`.
pub open spec fn total_released(steps: Seq<(bool, u64, bool)>) -> int
    decreases steps.len(),
{
    if steps.len() == 0 {
        0
    } else {
        let s = steps.last();
        total_released(steps.drop_last()) + if !s.0 && s.2 {
            s.1 as int
        } else {
            0
        }
    }
}

/// A deposit changes the vault's balance by one deposit step.
pub proof fn lemma_deposit_step(
    pre: DepositVault,
    post: DepositVault,
    amount: u64,
    r: Result<DepositEvent, VaultError>,
)
    requires
        deposit_post(pre, post, amount, r),
    ensures
        balance_step((true, amount, r is Ok), pre.vault_lamports, post.vault_lamports),
{
}

/// An execution changes the vault's balance by one execution step.
pub proof fn lemma_execute_step(
    pre: ExecuteProposal,
    post: ExecuteProposal,
    r: Result<ProposalExecuted, VaultError>,
)
    requires
        execute_post(pre, post, r),
    ensures
        balance_step((false, pre.proposal.amount, r is Ok), pre.vault_lamports, post.vault_lamports),
{
}

/// Conservation: over any run of deposits and executions, the vault's final
/// balance is its starting balance plus the successful deposits minus the
/// successful executions, and the executions never take out more than was
/// there.
pub proof fn lemma_conservation(steps: Seq<(bool, u64, bool)>, balances: Seq<u64>)
    requires
        balances.len() == steps.len() + 1,
        forall|i: int| 0 <= i < steps.len() ==> balance_step(#[trigger] steps[i], balances[i], balances[i + 1]),
    ensures
        balances.last() == balances[0] + total_deposited(steps) - total_released(steps),
        total_released(steps) <= balances[0] + total_deposited(steps),
    decreases steps.len(),
{
    if steps.len() > 0 {
        let n = steps.len() - 1;
        assert forall|i: int| 0 <= i < steps.drop_last().len() implies balance_step(
            #[trigger] steps.drop_last()[i],
            balances.drop_last()[i],
            balances.drop_last()[i + 1],
        ) by {
            assert(balance_step(steps[i], balances[i], balances[i + 1]));
        }
        lemma_conservation(steps.drop_last(), balances.drop_last());
        assert(balance_step(steps[n], balances[n], balances[n + 1]));
    }
}

} // verus!
