//! Deterministic addresses of the records the registry keeps.
//!
//! A record lives at an address derived from a list of seeds and the identity
//! of the program that owns it. The derivation also yields a bump: the one
//! extra seed byte under which the seeds produce a valid address.

use vstd::prelude::*;
use crate::pubkey::Pubkey;

verus! {

/// The address and bump that the seeds derive under a program, or `None`
/// where the seeds derive no address.
pub uninterp spec fn program_address(seeds: Seq<Seq<u8>>, program_id: Seq<u8>) -> Option<
    (Seq<u8>, u8),
>;

/// Calls `Pubkey::try_find_program_address` of `anchor_lang` (there a
/// re-export of `solana_program`). It tries the bumps from 255 downwards and
/// answers with the first under which the seeds, the bump and the program
/// identity hash to a valid address. The outcome depends on the seeds and the
/// program identity alone; the contract gives it the name
/// [`program_address`] and claims nothing else of it. In particular nothing
/// here says that an address is found, or that different seeds derive
/// different addresses.
#[verifier::external_body]
fn find_program_address(seeds: &Vec<Vec<u8>>, program_id: &Pubkey) -> (found: Option<(Pubkey, u8)>)
    ensures
        match found {
            Some((address, bump)) => program_address(seeds.deep_view(), program_id@) == Some(
                (address@, bump),
            ),
            None => program_address(seeds.deep_view(), program_id@) is None,
        },
{
    let parts: Vec<&[u8]> = seeds.iter().map(|seed| seed.as_slice()).collect();
    let program = anchor_lang::prelude::Pubkey::new_from_array(program_id.bytes);
    anchor_lang::prelude::Pubkey::try_find_program_address(&parts, &program).map(
        |(address, bump)| (Pubkey { bytes: address.to_bytes() }, bump),
    )
}

/// The bytes of the identity under which the registry is deployed.
pub open spec fn spec_id() -> Seq<u8> {
    seq![
        101u8, 147u8, 153u8, 79u8, 190u8, 211u8, 172u8, 108u8, 248u8, 226u8, 143u8, 80u8, 87u8,
        23u8, 138u8, 133u8, 130u8, 202u8, 64u8, 99u8, 13u8, 150u8, 149u8, 19u8, 154u8, 92u8, 19u8,
        86u8, 147u8, 54u8, 60u8, 112u8,
    ]
}

/// The identity under which the registry is deployed:
/// `7qWiT8orEzgLHDz3BkWFon5PgZScny7gSAHZKAuALRN7` in base 58.
pub fn id() -> (program_id: Pubkey)
    ensures
        program_id@ == spec_id(),
{
    let program_id = Pubkey {
        bytes: [
            101, 147, 153, 79, 190, 211, 172, 108, 248, 226, 143, 80, 87, 23, 138, 133, 130, 202,
            64, 99, 13, 150, 149, 19, 154, 92, 19, 86, 147, 54, 60, 112,
        ],
    };
    assert(program_id@ =~= spec_id());
    program_id
}

/// The seed of the registry record: the bytes of `tree_guardian`.
pub const REGISTRY_SEED: [u8; 13] = [116, 114, 101, 101, 95, 103, 117, 97, 114, 100, 105, 97, 110];

/// The seed that starts the address of every certificate record: the bytes of
/// `nft_metadata`.
pub const METADATA_SEED: [u8; 12] = [110, 102, 116, 95, 109, 101, 116, 97, 100, 97, 116, 97];

/// The seeds of the registry record.
pub open spec fn registry_seeds() -> Seq<Seq<u8>> {
    seq![REGISTRY_SEED@]
}

/// The seeds of the certificate record for the asset `nft_mint`.
pub open spec fn metadata_seeds(nft_mint: Pubkey) -> Seq<Seq<u8>> {
    seq![METADATA_SEED@, nft_mint@]
}

/// Reads the outcome of a derivation with its address as a key.
pub open spec fn as_key(derived: Option<(Seq<u8>, u8)>) -> Option<(Pubkey, u8)> {
    match derived {
        Some((bytes, bump)) => Some((Pubkey::spec_from_bytes(bytes), bump)),
        None => None,
    }
}

/// Where the registry record of a program lives: the address that the
/// registry seed derives, with its bump.
pub open spec fn spec_registry_address(program_id: Pubkey) -> Option<(Pubkey, u8)> {
    as_key(program_address(registry_seeds(), program_id@))
}

/// Where the record of the certificate for an asset lives: the address that
/// the metadata seed and the asset's identity derive, with its bump.
pub open spec fn spec_metadata_address(program_id: Pubkey, nft_mint: Pubkey) -> Option<
    (Pubkey, u8),
> {
    as_key(program_address(metadata_seeds(nft_mint), program_id@))
}

fn to_vec(seed: &[u8]) -> (bytes: Vec<u8>)
    ensures
        bytes@ == seed@,
{
    let mut bytes: Vec<u8> = Vec::new();
    let mut i: usize = 0;
    while i < seed.len()
        invariant
            i <= seed.len(),
            bytes@ == seed@.take(i as int),
        decreases seed.len() - i,
    {
        bytes.push(seed[i]);
        assert(seed@.take(i + 1) == seed@.take(i as int).push(seed@[i as int]));
        i += 1;
    }
    assert(seed@.take(i as int) == seed@);
    bytes
}

/// Derives the address of the registry record of `program_id`, with its bump.
/// `None` where the seeds derive no address.
pub fn registry_address(program_id: &Pubkey) -> (found: Option<(Pubkey, u8)>)
    ensures
        found == spec_registry_address(*program_id),
        found matches Some((address, bump)) ==> program_address(registry_seeds(), program_id@)
            == Some((address@, bump)),
{
    let mut seeds: Vec<Vec<u8>> = Vec::new();
    seeds.push(to_vec(&REGISTRY_SEED));
    assert(seeds.deep_view() =~~= registry_seeds());
    let found = find_program_address(&seeds, program_id);
    proof {
        if let Some((address, _)) = found {
            address.lemma_from_bytes();
        }
    }
    found
}

/// Derives the address of the certificate record that belongs to the asset
/// `nft_mint`, with its bump. `None` where the seeds derive no address.
pub fn metadata_address(program_id: &Pubkey, nft_mint: &Pubkey) -> (found: Option<(Pubkey, u8)>)
    ensures
        found == spec_metadata_address(*program_id, *nft_mint),
        found matches Some((address, bump)) ==> program_address(
            metadata_seeds(*nft_mint),
            program_id@,
        ) == Some((address@, bump)),
{
    let mut seeds: Vec<Vec<u8>> = Vec::new();
    seeds.push(to_vec(&METADATA_SEED));
    seeds.push(to_vec(&nft_mint.bytes));
    assert(seeds.deep_view() =~~= metadata_seeds(*nft_mint));
    let found = find_program_address(&seeds, program_id);
    proof {
        if let Some((address, _)) = found {
            address.lemma_from_bytes();
        }
    }
    found
}

} // verus!
