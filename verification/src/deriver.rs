//! Deterministic derivation of program-owned addresses from seeds.

use vstd::prelude::*;
use vstd::slice::slice_to_vec;
use crate::address::{lemma_address_ext, Address, ASSOCIATED_TOKEN_PROGRAM_ID, METADATA_PROGRAM_ID};

verus! {

/// Most seeds that a derivation accepts, the trailing discriminant not counted.
pub const MAX_SEEDS: usize = 15;

/// Most bytes in one seed.
pub const MAX_SEED_LEN: usize = 32;

/// The first seed of every metadata address: the ASCII text `metadata`.
pub const METADATA_SEED: [u8; 8] = [109, 101, 116, 97, 100, 97, 116, 97];

/// The address and discriminant that the ledger derives from `seeds` for `program`:
/// the result of `solana_sdk::pubkey::Pubkey::try_find_program_address`, or `None`
/// where no discriminant gives an address off the signing curve.
pub uninterp spec fn program_address(
    seeds: Seq<Seq<u8>>,
    program: Seq<u8>,
) -> Option<(Seq<u8>, u8)>;

/// The byte strings held by a sequence of seeds.
pub open spec fn seeds_view(seeds: Seq<Vec<u8>>) -> Seq<Seq<u8>> {
    seeds.map_values(|s: Vec<u8>| s@)
}

/// The model of a derivation's outcome.
pub open spec fn derived_view(found: Option<(Address, u8)>) -> Option<(Seq<u8>, u8)> {
    match found {
        Some((address, bump)) => Some((address@, bump)),
        None => None,
    }
}

/// Whether the seeds are within the limits that a derivation accepts.
pub open spec fn seeds_in_limits(seeds: Seq<Seq<u8>>) -> bool {
    &&& seeds.len() <= MAX_SEEDS
    &&& forall|i: int| 0 <= i < seeds.len() ==> (#[trigger] seeds[i]).len() <= MAX_SEED_LEN
}

/// Calls `solana_sdk::pubkey::Pubkey::try_find_program_address`. The contract names the
/// result, a function of the seeds and the program alone, and claims what the function's
/// documentation says of seeds over the limits: that none is derived from them.
#[verifier::external_body]
fn try_find_program_address(
    seeds: &Vec<Vec<u8>>,
    program: &Address,
) -> (found: Option<(Address, u8)>)
    ensures
        derived_view(found) == program_address(seeds_view(seeds@), program@),
        !seeds_in_limits(seeds_view(seeds@)) ==> found is None,
{
    let slices: Vec<&[u8]> = seeds.iter().map(|s| s.as_slice()).collect();
    solana_sdk::pubkey::Pubkey::try_find_program_address(&slices, &program.0.into())
        .map(|(address, bump)| (Address(address.to_bytes()), bump))
}

/// Derives the address that `program` owns for `seeds`, with the discriminant found.
pub fn derive(seeds: &Vec<Vec<u8>>, program: &Address) -> (found: Option<(Address, u8)>)
    ensures
        derived_view(found) == program_address(seeds_view(seeds@), program@),
        !seeds_in_limits(seeds_view(seeds@)) ==> found is None,
{
    try_find_program_address(seeds, program)
}

/// The seeds of the metadata account of `mint`.
pub open spec fn metadata_seeds(mint: Seq<u8>) -> Seq<Seq<u8>> {
    seq![METADATA_SEED@, METADATA_PROGRAM_ID@, mint]
}

/// The address of the metadata account of `mint`, where one is derived.
pub open spec fn metadata_address(mint: Seq<u8>) -> Option<Seq<u8>> {
    match program_address(metadata_seeds(mint), METADATA_PROGRAM_ID@) {
        Some((address, _)) => Some(address),
        None => None,
    }
}

/// The seeds of the token account associated with `wallet` for `mint` under `token_program`.
pub open spec fn associated_seeds(
    wallet: Seq<u8>,
    token_program: Seq<u8>,
    mint: Seq<u8>,
) -> Seq<Seq<u8>> {
    seq![wallet, token_program, mint]
}

/// The address of the token account associated with `wallet` for `mint` under
/// `token_program`, where one is derived.
pub open spec fn associated_address(
    wallet: Seq<u8>,
    token_program: Seq<u8>,
    mint: Seq<u8>,
) -> Option<Seq<u8>> {
    match program_address(
        associated_seeds(wallet, token_program, mint),
        ASSOCIATED_TOKEN_PROGRAM_ID@,
    ) {
        Some((address, _)) => Some(address),
        None => None,
    }
}

/// The model of an optional address.
pub open spec fn optional_view(address: Option<Address>) -> Option<Seq<u8>> {
    match address {
        Some(a) => Some(a@),
        None => None,
    }
}

/// Derives the address of the metadata account of `mint`.
pub fn find_metadata_address(mint: &Address) -> (found: Option<Address>)
    ensures
        optional_view(found) == metadata_address(mint@),
{
    let program = Address(METADATA_PROGRAM_ID);
    let mut seeds: Vec<Vec<u8>> = Vec::new();
    seeds.push(slice_to_vec(METADATA_SEED.as_slice()));
    seeds.push(program.to_vec());
    seeds.push(mint.to_vec());
    assert(seeds_view(seeds@) =~= metadata_seeds(mint@));
    match derive(&seeds, &program) {
        Some((address, _)) => Some(address),
        None => None,
    }
}

/// Deriving twice from the same seeds and program gives the same address and discriminant:
/// any two outcomes that `derive` may return for one input are equal.
pub proof fn lemma_derivation_deterministic(
    seeds: Seq<Seq<u8>>,
    program: Seq<u8>,
    first: Option<(Address, u8)>,
    second: Option<(Address, u8)>,
)
    requires
        derived_view(first) == program_address(seeds, program),
        derived_view(second) == program_address(seeds, program),
    ensures
        first == second,
{
    if let Some((a, _)) = first {
        if let Some((b, _)) = second {
            lemma_address_ext(a, b);
        }
    }
}

} // verus!
