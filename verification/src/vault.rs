//! Deterministic derivation of the vault address.  The vault is a
//! program-controlled holding account; its address is a pure function of a
//! fixed domain-separation tag, the escrow record's identifier, and the
//! program identifier, searched so that it collides with no valid signing
//! key.  The derivation must match the on-chain program byte for byte.

use vstd::prelude::*;

verus! {

/// The outcome of the program-derived-address search for the given seed
/// tag, seed key, and program identifier: the derived address, or `None`
/// when no bump seed yields a valid address.  The search is a pure
/// function of these inputs, so both the address and whether the search
/// succeeds are fixed by them.
pub uninterp spec fn derived_address_of(tag: Seq<u8>, key: Seq<u8>, program: Seq<u8>) -> Option<
    Seq<u8>,
>;

/// Relies on solana_sdk's `Pubkey::try_find_program_address`: a bump-seed
/// search computed from the seed bytes and the program identifier alone,
/// so the same inputs always yield the same outcome — the same address,
/// and `None` only in the statistically improbable event that no bump
/// seed works, which likewise depends on the inputs alone.
#[verifier::external_body]
fn find_program_address_bytes(tag: &Vec<u8>, key: &[u8; 32], program: &[u8; 32]) -> (r: Option<
    [u8; 32],
>)
    ensures
        r is Some <==> derived_address_of(tag@, key@, program@) is Some,
        r matches Some(a) ==> derived_address_of(tag@, key@, program@) == Some(a@),
{
    let program_id = solana_sdk::pubkey::Pubkey::new_from_array(*program);
    let seeds: [&[u8]; 2] = [tag.as_slice(), key.as_slice()];
    solana_sdk::pubkey::Pubkey::try_find_program_address(&seeds, &program_id)
        .map(|(address, _bump)| address.to_bytes())
}

/// The domain-separation tag of vault derivation: the bytes of "vault".
pub open spec fn vault_seed_tag() -> Seq<u8> {
    seq![118u8, 97u8, 117u8, 108u8, 116u8]
}

/// The outcome of vault derivation for an escrow record under a program.
pub open spec fn vault_address_of(escrow_id: Seq<u8>, program_id: Seq<u8>) -> Option<Seq<u8>> {
    derived_address_of(vault_seed_tag(), escrow_id, program_id)
}

/// Derives the vault address for an escrow record: the tag "vault" and the
/// record's identifier are the seed material.  Deterministic and pure; the
/// result is the outcome the bump-seed search owes for these identifiers,
/// `None` only when that search finds no valid address, which is
/// statistically improbable.
pub fn derive_vault(escrow_id: &[u8; 32], program_id: &[u8; 32]) -> (r: Option<[u8; 32]>)
    ensures
        r is Some <==> vault_address_of(escrow_id@, program_id@) is Some,
        r matches Some(a) ==> vault_address_of(escrow_id@, program_id@) == Some(a@),
{
    let mut tag: Vec<u8> = Vec::new();
    tag.push(118);  // 'v'
    tag.push(97);  // 'a'
    tag.push(117);  // 'u'
    tag.push(108);  // 'l'
    tag.push(116);  // 't'
    proof {
        assert(tag@ =~= vault_seed_tag());
    }
    find_program_address_bytes(&tag, escrow_id, program_id)
}

/// Law: vault derivation is deterministic.  Any two calls of
/// `derive_vault` on byte-equal escrow and program identifiers agree: one
/// search succeeds exactly when the other does, and the derived addresses
/// are byte-identical.
pub proof fn lemma_derive_vault_deterministic(
    escrow_a: &[u8; 32],
    program_a: &[u8; 32],
    r_a: Option<[u8; 32]>,
    escrow_b: &[u8; 32],
    program_b: &[u8; 32],
    r_b: Option<[u8; 32]>,
)
    requires
        escrow_a@ == escrow_b@,
        program_a@ == program_b@,
        call_ensures(derive_vault, (escrow_a, program_a), r_a),
        call_ensures(derive_vault, (escrow_b, program_b), r_b),
    ensures
        r_a is Some <==> r_b is Some,
        r_a matches Some(a) ==> (r_b matches Some(b) && a@ == b@),
{
}

} // verus!
