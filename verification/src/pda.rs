//! Deterministic address derivation.
//!
//! The pool's vault authority and every user record slot live at addresses
//! derived from fixed seeds and the program's own identity.  The derivation
//! itself is the address-derivation service of the runtime; this module
//! wraps it and names its results, so the operations can state exactly which
//! derivations they check.

use vstd::prelude::*;

use crate::key::Key;

verus! {

/// The result of deriving an address from a full seed list (bump included)
/// and a program identity, or `None` where the seed list admits no address.
/// The derivation depends on the seeds and the program identity alone.
pub uninterp spec fn pda_create(seeds: Seq<Seq<u8>>, program_id: Seq<u8>) -> Option<Seq<u8>>;

/// The address and bump that a search over bump values finds for a seed list
/// and a program identity, or `None` where no bump yields an address.
/// The search depends on the seeds and the program identity alone.
pub uninterp spec fn pda_find(seeds: Seq<Seq<u8>>, program_id: Seq<u8>) -> Option<(Seq<u8>, u8)>;

/// Relies on `solana_pubkey::Pubkey::create_program_address`: the derived
/// address is a pure function of the seed list and the program identity, and
/// an `Err` (seed too long, or no address exists for these seeds) depends on
/// the same inputs alone.
#[verifier::external_body]
pub(crate) fn create_program_address(seeds: &Vec<Vec<u8>>, program_id: &Key) -> (r: Option<Key>)
    ensures
        match r {
            Some(k) => pda_create(seeds.deep_view(), program_id@) == Some(k@),
            None => pda_create(seeds.deep_view(), program_id@) is None,
        },
{
    let seed_slices: Vec<&[u8]> = seeds.iter().map(|s| s.as_slice()).collect();
    let pid = solana_pubkey::Pubkey::new_from_array(program_id.bytes);
    match solana_pubkey::Pubkey::create_program_address(&seed_slices, &pid) {
        Ok(addr) => Some(Key { bytes: addr.to_bytes() }),
        Err(_) => None,
    }
}

/// Relies on `solana_pubkey::Pubkey::try_find_program_address`: the found
/// address and bump are a pure function of the seed list and the program
/// identity, and appending the found bump to the seeds and deriving directly
/// reproduces the found address (the search is documented to return exactly
/// the first bump for which that derivation succeeds).
#[verifier::external_body]
pub(crate) fn try_find_program_address(seeds: &Vec<Vec<u8>>, program_id: &Key) -> (r: Option<
    (Key, u8),
>)
    ensures
        match r {
            Some(p) => pda_find(seeds.deep_view(), program_id@) == Some((p.0@, p.1))
                && pda_create(seeds.deep_view().push(seq![p.1]), program_id@) == Some(p.0@),
            None => pda_find(seeds.deep_view(), program_id@) is None,
        },
{
    let seed_slices: Vec<&[u8]> = seeds.iter().map(|s| s.as_slice()).collect();
    let pid = solana_pubkey::Pubkey::new_from_array(program_id.bytes);
    match solana_pubkey::Pubkey::try_find_program_address(&seed_slices, &pid) {
        Some((addr, bump)) => Some((Key { bytes: addr.to_bytes() }, bump)),
        None => None,
    }
}

/// The fixed seed under which the vault authority is derived: `simple_stake`.
pub open spec fn vault_authority_seed() -> Seq<u8> {
    seq![
        's' as u8, 'i' as u8, 'm' as u8, 'p' as u8, 'l' as u8, 'e' as u8, '_' as u8, 's' as u8,
        't' as u8, 'a' as u8, 'k' as u8, 'e' as u8,
    ]
}

/// The fixed seed under which the vault custody account is allocated:
/// `pool_vault_account`.
pub open spec fn vault_account_seed() -> Seq<u8> {
    seq![
        'p' as u8, 'o' as u8, 'o' as u8, 'l' as u8, '_' as u8, 'v' as u8, 'a' as u8, 'u' as u8,
        'l' as u8, 't' as u8, '_' as u8, 'a' as u8, 'c' as u8, 'c' as u8, 'o' as u8, 'u' as u8,
        'n' as u8, 't' as u8,
    ]
}

/// The fixed seed under which the pool record slot is allocated:
/// `pool_shared_account`.
pub open spec fn pool_account_seed() -> Seq<u8> {
    seq![
        'p' as u8, 'o' as u8, 'o' as u8, 'l' as u8, '_' as u8, 's' as u8, 'h' as u8, 'a' as u8,
        'r' as u8, 'e' as u8, 'd' as u8, '_' as u8, 'a' as u8, 'c' as u8, 'c' as u8, 'o' as u8,
        'u' as u8, 'n' as u8, 't' as u8,
    ]
}

/// The vault authority seed as bytes.
pub fn vault_authority_seed_bytes() -> (r: Vec<u8>)
    ensures
        r@ == vault_authority_seed(),
{
    let r: Vec<u8> = vec![
        's' as u8, 'i' as u8, 'm' as u8, 'p' as u8, 'l' as u8, 'e' as u8, '_' as u8, 's' as u8,
        't' as u8, 'a' as u8, 'k' as u8, 'e' as u8,
    ];
    proof {
        assert(r@ =~= vault_authority_seed());
    }
    r
}

/// The vault account seed as bytes.
pub fn vault_account_seed_bytes() -> (r: Vec<u8>)
    ensures
        r@ == vault_account_seed(),
{
    let r: Vec<u8> = vec![
        'p' as u8, 'o' as u8, 'o' as u8, 'l' as u8, '_' as u8, 'v' as u8, 'a' as u8, 'u' as u8,
        'l' as u8, 't' as u8, '_' as u8, 'a' as u8, 'c' as u8, 'c' as u8, 'o' as u8, 'u' as u8,
        'n' as u8, 't' as u8,
    ];
    proof {
        assert(r@ =~= vault_account_seed());
    }
    r
}

/// The pool record seed as bytes.
pub fn pool_account_seed_bytes() -> (r: Vec<u8>)
    ensures
        r@ == pool_account_seed(),
{
    let r: Vec<u8> = vec![
        'p' as u8, 'o' as u8, 'o' as u8, 'l' as u8, '_' as u8, 's' as u8, 'h' as u8, 'a' as u8,
        'r' as u8, 'e' as u8, 'd' as u8, '_' as u8, 'a' as u8, 'c' as u8, 'c' as u8, 'o' as u8,
        'u' as u8, 'n' as u8, 't' as u8,
    ];
    proof {
        assert(r@ =~= pool_account_seed());
    }
    r
}

/// The seed list `[seed, [bump]]` that checks a stored bump against an
/// allocated slot address.
pub fn seeds_with_bump(seed: Vec<u8>, bump: u8) -> (r: Vec<Vec<u8>>)
    ensures
        r.deep_view() == seq![seed@, seq![bump]],
{
    let mut bump_seed: Vec<u8> = Vec::new();
    bump_seed.push(bump);
    let mut r: Vec<Vec<u8>> = Vec::new();
    r.push(seed);
    r.push(bump_seed);
    proof {
        assert(r.deep_view() =~~= seq![seed@, seq![bump]]);
    }
    r
}

/// The one-element seed list `[seed]`.
pub fn single_seed(seed: Vec<u8>) -> (r: Vec<Vec<u8>>)
    ensures
        r.deep_view() == seq![seed@],
{
    let mut r: Vec<Vec<u8>> = Vec::new();
    r.push(seed);
    proof {
        assert(r.deep_view() =~~= seq![seed@]);
    }
    r
}

} // verus!
