use vstd::prelude::*;

use crate::errors::VaultError;
use crate::key::{keys_contain, Pubkey};
use crate::state::{Proposal, Vault};

verus! {

/// Whether `signer` is one of the vault's owners.
pub fn is_owner(vault: &Vault, signer: &Pubkey) -> (r: bool)
    ensures
        r == vault.owners@.contains(*signer),
{
    keys_contain(&vault.owners, signer)
}

/// Whether `signer` has already approved the proposal.
pub fn has_already_approved(proposal: &Proposal, signer: &Pubkey) -> (r: bool)
    ensures
        r == proposal.approvals@.contains(*signer),
{
    keys_contain(&proposal.approvals, signer)
}

/// Whether the proposal has gathered as many approvals as the vault asks for.
pub fn is_threshold_met(vault: &Vault, proposal: &Proposal) -> (r: bool)
    ensures
        r == (proposal.approvals@.len() >= vault.threshold as int),
{
    proposal.approvals.len() >= vault.threshold as usize
}

/// Moves `amount` from one balance to another, or changes nothing when the
/// source holds less than `amount`.
pub fn transfer_sol(from: &mut u64, to: &mut u64, amount: u64) -> (r: Result<(), VaultError>)
    requires
        *old(from) + *old(to) <= u64::MAX,
    ensures
        *final(from) + *final(to) == *old(from) + *old(to),
        match r {
            Ok(()) => amount <= *old(from) && *final(from) == *old(from) - amount && *final(to)
                == *old(to) + amount,
            Err(e) => amount > *old(from) && e == VaultError::InsufficientFunds && *final(from)
                == *old(from) && *final(to) == *old(to),
        },
{
    if *from < amount {
        return Err(VaultError::InsufficientFunds);
    }
    *from = *from - amount;
    *to = *to + amount;
    Ok(())
}

/// The little-endian bytes of `n`.
pub open spec fn le_bytes(n: u64) -> Seq<u8> {
    Seq::new(8, |i: int| ((n >> ((8 * i) as u64)) & 0xff) as u8)
}

/// The little-endian encoding of `n`, as used in proposal address seeds.
pub fn u64_le_bytes(n: u64) -> (r: Vec<u8>)
    ensures
        r@ == le_bytes(n),
{
    let mut r: Vec<u8> = Vec::new();
    let mut i: u64 = 0;
    while i < 8
        invariant
            i <= 8,
            r@ == le_bytes(n).subrange(0, i as int),
        decreases 8 - i,
    {
        let b: u8 = ((n >> (8 * i)) & 0xff) as u8;
        r.push(b);
        i += 1;
        assert(r@ =~= le_bytes(n).subrange(0, i as int));
    }
    assert(r@ =~= le_bytes(n));
    r
}

/// The bytes of a key as a vector.
pub fn key_bytes(k: &Pubkey) -> (r: Vec<u8>)
    ensures
        r@ == k.bytes@,
{
    let mut r: Vec<u8> = Vec::new();
    let mut i: usize = 0;
    while i < 32
        invariant
            i <= 32,
            r@ == k.bytes@.subrange(0, i as int),
        decreases 32 - i,
    {
        r.push(k.bytes[i]);
        i += 1;
    }
    assert(r@ =~= k.bytes@);
    r
}

/// The address (and bump) that the runtime derives from `seeds` under
/// `program_id`, or none when no bump gives a valid address.
pub uninterp spec fn program_address(seeds: Seq<Seq<u8>>, program_id: Seq<u8>) -> Option<(Seq<u8>, u8)>;

/// Whether a found address is the one derived from `seeds` under `program_id`.
pub open spec fn is_program_address(
    r: Option<(Pubkey, u8)>,
    seeds: Seq<Seq<u8>>,
    program_id: Seq<u8>,
) -> bool {
    match r {
        Some((k, b)) => program_address(seeds, program_id) == Some((k.bytes@, b)),
        None => program_address(seeds, program_id) is None,
    }
}

/// Relies on `Pubkey::try_find_program_address` of solana-program (through
/// anchor-lang): the address from the highest valid bump seed, computed from
/// the seeds and the program id alone, or `None` when no bump is valid or a
/// seed is too long.
#[verifier::external_body]
fn find_program_address(seeds: &Vec<Vec<u8>>, program_id: &Pubkey) -> (r: Option<(Pubkey, u8)>)
    ensures
        match r {
            Some((k, b)) => program_address(seeds.deep_view(), program_id.bytes@) == Some(
                (k.bytes@, b),
            ),
            None => program_address(seeds.deep_view(), program_id.bytes@) is None,
        },
{
    let refs: Vec<&[u8]> = seeds.iter().map(|s| s.as_slice()).collect();
    let id = anchor_lang::prelude::Pubkey::new_from_array(program_id.bytes);
    anchor_lang::prelude::Pubkey::try_find_program_address(&refs, &id).map(
        |(k, b)| (Pubkey { bytes: k.to_bytes() }, b),
    )
}

/// The seed that starts every vault address: the bytes of "vault".
pub open spec fn vault_seed() -> Seq<u8> {
    seq![118u8, 97u8, 117u8, 108u8, 116u8]
}

/// The seed that starts every proposal address: the bytes of "proposal".
pub open spec fn proposal_seed() -> Seq<u8> {
    seq![112u8, 114u8, 111u8, 112u8, 111u8, 115u8, 97u8, 108u8]
}

/// The seeds of the vault that `authority` creates.
pub open spec fn vault_seeds(authority: Pubkey) -> Seq<Seq<u8>> {
    seq![vault_seed(), authority.bytes@]
}

/// The seeds of proposal number `proposal_id` of `vault`.
pub open spec fn proposal_seeds(vault: Pubkey, proposal_id: u64) -> Seq<Seq<u8>> {
    seq![proposal_seed(), vault.bytes@, le_bytes(proposal_id)]
}

/// The address of the vault that `authority` creates under `program_id`.
pub fn derive_vault_pda(authority: &Pubkey, program_id: &Pubkey) -> (r: Option<(Pubkey, u8)>)
    ensures
        is_program_address(r, vault_seeds(*authority), program_id.bytes@),
{
    let tag: Vec<u8> = vec![118u8, 97u8, 117u8, 108u8, 116u8];
    let key = key_bytes(authority);
    assert(tag.deep_view() =~= vault_seed());
    assert(key.deep_view() =~= authority.bytes@);
    let seeds: Vec<Vec<u8>> = vec![tag, key];
    assert(seeds.deep_view() =~= vault_seeds(*authority));
    find_program_address(&seeds, program_id)
}

/// The address of proposal number `proposal_id` of `vault` under `program_id`.
pub fn derive_proposal_pda(vault: &Pubkey, proposal_id: u64, program_id: &Pubkey) -> (r: Option<(Pubkey, u8)>)
    ensures
        is_program_address(r, proposal_seeds(*vault, proposal_id), program_id.bytes@),
{
    let tag: Vec<u8> = vec![112u8, 114u8, 111u8, 112u8, 111u8, 115u8, 97u8, 108u8];
    let key = key_bytes(vault);
    let id_bytes = u64_le_bytes(proposal_id);
    assert(tag.deep_view() =~= proposal_seed());
    assert(key.deep_view() =~= vault.bytes@);
    assert(id_bytes.deep_view() =~= le_bytes(proposal_id));
    let seeds: Vec<Vec<u8>> = vec![tag, key, id_bytes];
    assert(seeds.deep_view() =~= proposal_seeds(*vault, proposal_id));
    find_program_address(&seeds, program_id)
}

} // verus!
