use vstd::prelude::*;

use crate::bytes_util::bytes_clone;
use crate::bytes_util::bytes_eq;

verus! {

/// What `Pubkey::try_find_program_address` returns for the given seeds and
/// program id: the derived address with its bump seed, or nothing in the
/// (statistically improbable) event that no bump yields a valid address.
/// The derivation is a pure function of the seeds and program id alone.
pub uninterp spec fn derived_address(seeds: Seq<Seq<u8>>, program_id: Seq<u8>) -> Option<
    (Seq<u8>, u8),
>;

/// What `Pubkey::create_program_address` returns for the given seeds (the bump
/// carried as the last seed) and program id, or nothing when those seeds give
/// no valid address.  Also a pure function of its inputs.
pub uninterp spec fn address_for_bump(seeds: Seq<Seq<u8>>, program_id: Seq<u8>) -> Option<Seq<u8>>;

/// Relies on `Pubkey::try_find_program_address` (solana-address, re-exported
/// through anchor-lang): it searches for the first bump seed for which
/// `create_program_address` over the same seeds succeeds and returns that
/// address and bump, deterministically in the seeds and program id; a returned
/// address is 32 bytes.
#[verifier::external_body]
fn find_program_address_raw(seeds: &Vec<Vec<u8>>, program_id: &Vec<u8>) -> (r: Option<
    (Vec<u8>, u8),
>)
    requires
        program_id@.len() == 32,
    ensures
        match r {
            Some(p) => derived_address(seeds.deep_view(), program_id@) == Some((p.0@, p.1))
                && p.0@.len() == 32 && address_for_bump(
                seeds.deep_view().push(seq![p.1]),
                program_id@,
            ) == Some(p.0@),
            None => derived_address(seeds.deep_view(), program_id@) is None,
        },
{
    let pid = anchor_lang::prelude::Pubkey::new_from_array(
        program_id.as_slice().try_into().unwrap(),
    );
    let refs: Vec<&[u8]> = seeds.iter().map(|s| s.as_slice()).collect();
    let (pk, bump) = anchor_lang::prelude::Pubkey::try_find_program_address(&refs, &pid)?;
    Some((pk.to_bytes().to_vec(), bump))
}

/// Relies on `Pubkey::create_program_address` (solana-address, re-exported
/// through anchor-lang): it recomputes the address for seeds that already
/// carry a bump, deterministically in the seeds and program id; a returned
/// address is 32 bytes.
#[verifier::external_body]
fn create_program_address_raw(seeds: &Vec<Vec<u8>>, program_id: &Vec<u8>) -> (r: Option<Vec<u8>>)
    requires
        program_id@.len() == 32,
    ensures
        match r {
            Some(a) => address_for_bump(seeds.deep_view(), program_id@) == Some(a@) && a@.len()
                == 32,
            None => address_for_bump(seeds.deep_view(), program_id@) is None,
        },
{
    let pid = anchor_lang::prelude::Pubkey::new_from_array(
        program_id.as_slice().try_into().unwrap(),
    );
    let refs: Vec<&[u8]> = seeds.iter().map(|s| s.as_slice()).collect();
    match anchor_lang::prelude::Pubkey::create_program_address(&refs, &pid) {
        Ok(pk) => Some(pk.to_bytes().to_vec()),
        Err(_) => None,
    }
}

/// Seed list for a record addressed by a namespace tag and one identity.
pub open spec fn single_seeds(tag: Seq<u8>, a: Seq<u8>) -> Seq<Seq<u8>> {
    seq![tag, a]
}

/// Seed list for a record addressed by a namespace tag and two identities.
pub open spec fn pair_seeds(tag: Seq<u8>, a: Seq<u8>, b: Seq<u8>) -> Seq<Seq<u8>> {
    seq![tag, a, b]
}

/// Derives the storage address (and bump) for a record keyed by one identity.
pub fn derive_single_address(tag: &Vec<u8>, a: &Vec<u8>, program_id: &Vec<u8>) -> (r: Option<
    (Vec<u8>, u8),
>)
    requires
        program_id@.len() == 32,
    ensures
        match r {
            Some(p) => derived_address(single_seeds(tag@, a@), program_id@) == Some((p.0@, p.1))
                && p.0@.len() == 32 && address_for_bump(
                single_seeds(tag@, a@).push(seq![p.1]),
                program_id@,
            ) == Some(p.0@),
            None => derived_address(single_seeds(tag@, a@), program_id@) is None,
        },
{
    let mut seeds: Vec<Vec<u8>> = Vec::new();
    seeds.push(bytes_clone(tag));
    seeds.push(bytes_clone(a));
    proof {
        assert(seeds.deep_view() =~~= single_seeds(tag@, a@));
    }
    find_program_address_raw(&seeds, program_id)
}

/// Derives the storage address (and bump) for a record keyed by two identities.
pub fn derive_pair_address(tag: &Vec<u8>, a: &Vec<u8>, b: &Vec<u8>, program_id: &Vec<u8>) -> (r:
    Option<(Vec<u8>, u8)>)
    requires
        program_id@.len() == 32,
    ensures
        match r {
            Some(p) => derived_address(pair_seeds(tag@, a@, b@), program_id@) == Some((p.0@, p.1))
                && p.0@.len() == 32 && address_for_bump(
                pair_seeds(tag@, a@, b@).push(seq![p.1]),
                program_id@,
            ) == Some(p.0@),
            None => derived_address(pair_seeds(tag@, a@, b@), program_id@) is None,
        },
{
    let mut seeds: Vec<Vec<u8>> = Vec::new();
    seeds.push(bytes_clone(tag));
    seeds.push(bytes_clone(a));
    seeds.push(bytes_clone(b));
    proof {
        assert(seeds.deep_view() =~~= pair_seeds(tag@, a@, b@));
    }
    find_program_address_raw(&seeds, program_id)
}

/// Recomputes the address for one identity with the bump stored at creation
/// and compares it with the claimed address.  Any mismatch means a forged
/// reference or a stale client, never a data error.
pub fn check_single_address(
    tag: &Vec<u8>,
    a: &Vec<u8>,
    bump: u8,
    claimed: &Vec<u8>,
    program_id: &Vec<u8>,
) -> (r: bool)
    requires
        program_id@.len() == 32,
    ensures
        r == (address_for_bump(single_seeds(tag@, a@).push(seq![bump]), program_id@) == Some(
            claimed@,
        )),
{
    let mut seeds: Vec<Vec<u8>> = Vec::new();
    seeds.push(bytes_clone(tag));
    seeds.push(bytes_clone(a));
    let mut bump_seed: Vec<u8> = Vec::new();
    bump_seed.push(bump);
    seeds.push(bump_seed);
    proof {
        assert(seeds.deep_view() =~~= single_seeds(tag@, a@).push(seq![bump]));
    }
    match create_program_address_raw(&seeds, program_id) {
        Some(addr) => bytes_eq(&addr, claimed),
        None => false,
    }
}

/// Recomputes the address for two identities with the bump stored at creation
/// and compares it with the claimed address.
pub fn check_pair_address(
    tag: &Vec<u8>,
    a: &Vec<u8>,
    b: &Vec<u8>,
    bump: u8,
    claimed: &Vec<u8>,
    program_id: &Vec<u8>,
) -> (r: bool)
    requires
        program_id@.len() == 32,
    ensures
        r == (address_for_bump(pair_seeds(tag@, a@, b@).push(seq![bump]), program_id@) == Some(
            claimed@,
        )),
{
    let mut seeds: Vec<Vec<u8>> = Vec::new();
    seeds.push(bytes_clone(tag));
    seeds.push(bytes_clone(a));
    seeds.push(bytes_clone(b));
    let mut bump_seed: Vec<u8> = Vec::new();
    bump_seed.push(bump);
    seeds.push(bump_seed);
    proof {
        assert(seeds.deep_view() =~~= pair_seeds(tag@, a@, b@).push(seq![bump]));
    }
    match create_program_address_raw(&seeds, program_id) {
        Some(addr) => bytes_eq(&addr, claimed),
        None => false,
    }
}

} // verus!
