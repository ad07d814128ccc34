//! Deterministic address derivation.
//!
//! A derived address proves that a record's placement was not chosen
//! arbitrarily: it is computed from an ordered list of seeds and the owning
//! component's id, together with a bump that makes the result a valid
//! program-derived address. The computation is a one-way digest; re-deriving
//! from identical seeds always yields the identical address.

use vstd::prelude::*;

use crate::address::Address;
use crate::errors::ProtocolError;

verus! {

/// What `Pubkey::try_find_program_address` returns for the given seeds and
/// owning component id: `None` when no valid bump exists (or the seeds break
/// its limits), otherwise the derived 32-byte address and the bump. The
/// digest takes pages to state, but it is a pure function of its arguments,
/// so it is only named here; both callers and the constraint engine speak of
/// this name.
pub uninterp spec fn derived_address(seeds: Seq<Seq<u8>>, owner: Seq<u8>) -> Option<(Seq<u8>, u8)>;

/// Relies on `Pubkey::try_find_program_address` (solana-address, re-exported
/// through `anchor_lang::solana_program::pubkey`): a deterministic, total
/// function of the seed list and the program id. It returns `None` instead of
/// panicking when the seeds exceed its limits or no bump yields a valid
/// address.
#[verifier::external_body]
fn try_derive(seeds: &Vec<Vec<u8>>, owner: &Address) -> (r: Option<(Address, u8)>)
    ensures
        r matches Some(p) ==> derived_address(seeds.deep_view(), owner@) == Some((p.0@, p.1)),
        r is None ==> derived_address(seeds.deep_view(), owner@) is None,
{
    let seed_slices: Vec<&[u8]> = seeds.iter().map(|s| s.as_slice()).collect();
    let owner_key = anchor_lang::solana_program::pubkey::Pubkey::new_from_array(owner.bytes);
    anchor_lang::solana_program::pubkey::Pubkey::try_find_program_address(&seed_slices, &owner_key)
        .map(|(key, bump)| (Address { bytes: key.to_bytes() }, bump))
}

/// The derived address for the given seeds under the given owning component,
/// with its bump; `DerivationExhausted` when no valid derived address exists.
/// The failure is fatal: callers must not retry it transparently.
pub fn derive_address(seeds: &Vec<Vec<u8>>, owner_id: &Address) -> (r: Result<
    (Address, u8),
    ProtocolError,
>)
    ensures
        r matches Ok(p) ==> derived_address(seeds.deep_view(), owner_id@) == Some((p.0@, p.1)),
        r matches Err(e) ==> e == ProtocolError::DerivationExhausted && derived_address(
            seeds.deep_view(),
            owner_id@,
        ) is None,
{
    match try_derive(seeds, owner_id) {
        Some(p) => Ok(p),
        None => Err(ProtocolError::DerivationExhausted),
    }
}

/// Law: derivation is idempotent. Two derivations from equal seed lists under
/// equal owning components yield equal results — the derived address is a
/// function of the seeds and the owner alone.
pub proof fn lemma_derive_deterministic(s1: Seq<Seq<u8>>, o1: Seq<u8>, s2: Seq<Seq<u8>>, o2: Seq<u8>)
    requires
        s1 == s2,
        o1 == o2,
    ensures
        derived_address(s1, o1) == derived_address(s2, o2),
{
}

} // verus!
