//! Program-derived addresses: where the records and the vault authority live.
//!
//! A record has no key of its own. Its address is derived from fixed seeds,
//! from the identities it belongs to, and from the identity of the program,
//! so that anyone can find it again.

use vstd::prelude::*;
use vstd::bytes::{spec_u64_to_le_bytes, u64_to_le_bytes};
use vstd::pervasive::unreached;
use vstd::string::StringSliceAdditionalSpecFns;
use crate::identity::Identity;

verus! {

/// The seed of the certificate counter.
pub const NFT_COUNTER_SEED: &'static str = "nft_counter";

/// The seed of a certificate's mint.
pub const NFT_MINT_SEED: &'static str = "nft_mint";

/// The seed of a certificate's metadata.
pub const NFT_METADATA_SEED: &'static str = "nft_metadata";

/// The seed of a stake record.
pub const STAKE_ACCOUNT_SEED: &'static str = "stake_account";

/// The seed of the vault authority.
pub const STAKE_AUTHORITY_SEED: &'static str = "stake_authority";

/// The identity of the program.
pub const PROGRAM_ID: [u8; 32] = [
    75, 145, 171, 168, 81, 106, 68, 45, 237, 138, 9, 129, 33, 243, 112, 127, 68, 205, 229, 80, 158,
    15, 104, 123, 62, 2, 202, 162, 244, 77, 216, 106,
];

/// The address that a list of seeds and a program derive, with its bump seed;
/// `None` where the seeds derive none.
pub uninterp spec fn program_address(seeds: Seq<Seq<u8>>, program_id: Seq<u8>) -> Option<
    (Seq<u8>, u8),
>;

/// A list of seeds as a sequence of byte sequences.
pub open spec fn seeds_view(seeds: &[&[u8]]) -> Seq<Seq<u8>> {
    Seq::new(seeds@.len(), |i: int| seeds@[i]@)
}

/// The identity of the program.
pub fn program_id() -> (r: Identity)
    ensures
        r@ == PROGRAM_ID@,
{
    Identity { bytes: PROGRAM_ID }
}

/// Calls `Pubkey::try_find_program_address` of solana-program. The address
/// and the bump seed that it finds depend on the seeds and on the program
/// alone, and are named `program_address`. It finds none where there are
/// more than 15 seeds, where a seed is longer than 32 bytes, or where no
/// bump seed leads to an address off the curve.
#[verifier::external_body]
fn try_find_program_address(seeds: &[&[u8]], program_id: &Identity) -> (r: Option<(Identity, u8)>)
    ensures
        match r {
            Some((address, bump)) => program_address(seeds_view(seeds), program_id@) == Some(
                (address@, bump),
            ),
            None => program_address(seeds_view(seeds), program_id@) is None,
        },
{
    let program = anchor_lang::prelude::Pubkey::new_from_array(program_id.bytes);
    match anchor_lang::prelude::Pubkey::try_find_program_address(seeds, &program) {
        Some((address, bump)) => Some((Identity { bytes: address.to_bytes() }, bump)),
        None => None,
    }
}

/// Whether `found` is the address and bump seed that `named` gives, or none
/// where it gives none.
pub open spec fn is_address(found: Option<(Identity, u8)>, named: Option<(Seq<u8>, u8)>) -> bool {
    match found {
        Some((address, bump)) => named == Some((address@, bump)),
        None => named is None,
    }
}

/// The address of the certificate counter with its bump seed, if the seed
/// derives one.
pub open spec fn nft_counter_address() -> Option<(Seq<u8>, u8)> {
    program_address(seq![NFT_COUNTER_SEED.spec_bytes()], PROGRAM_ID@)
}

/// The address of the mint of certificate number `count` of `collection`
/// with its bump seed, if the seeds derive one. The number enters as eight
/// bytes, lowest first.
pub open spec fn nft_mint_address(collection: Identity, count: u64) -> Option<(Seq<u8>, u8)> {
    program_address(
        seq![NFT_MINT_SEED.spec_bytes(), collection@, spec_u64_to_le_bytes(count)],
        PROGRAM_ID@,
    )
}

/// The address of the metadata of the certificate minted at `mint` with its
/// bump seed, if the seeds derive one.
pub open spec fn nft_metadata_address(mint: Identity) -> Option<(Seq<u8>, u8)> {
    program_address(seq![NFT_METADATA_SEED.spec_bytes(), mint@], PROGRAM_ID@)
}

/// The address of the stake record of `staker` in `token_mint` with its bump
/// seed, if the seeds derive one.
pub open spec fn stake_account_address(staker: Identity, token_mint: Identity) -> Option<
    (Seq<u8>, u8),
> {
    program_address(seq![STAKE_ACCOUNT_SEED.spec_bytes(), staker@, token_mint@], PROGRAM_ID@)
}

/// The address of the vault authority with its bump seed, if the seed
/// derives one.
pub open spec fn stake_authority_address() -> Option<(Seq<u8>, u8)> {
    program_address(seq![STAKE_AUTHORITY_SEED.spec_bytes()], PROGRAM_ID@)
}

fn derive_nft_counter() -> (r: Option<(Identity, u8)>)
    ensures
        is_address(r, nft_counter_address()),
{
    let seeds: [&[u8]; 1] = [NFT_COUNTER_SEED.as_bytes()];
    let list: &[&[u8]] = seeds.as_slice();
    proof {
        assert(seeds_view(list) =~= seq![NFT_COUNTER_SEED.spec_bytes()]);
    }
    try_find_program_address(list, &program_id())
}

fn derive_nft_mint(collection: &Identity, count: u64) -> (r: Option<(Identity, u8)>)
    ensures
        is_address(r, nft_mint_address(*collection, count)),
{
    let number = u64_to_le_bytes(count);
    let seeds: [&[u8]; 3] = [
        NFT_MINT_SEED.as_bytes(),
        collection.bytes.as_slice(),
        number.as_slice(),
    ];
    let list: &[&[u8]] = seeds.as_slice();
    proof {
        assert(seeds_view(list) =~= seq![
            NFT_MINT_SEED.spec_bytes(),
            collection@,
            spec_u64_to_le_bytes(count),
        ]);
    }
    try_find_program_address(list, &program_id())
}

fn derive_nft_metadata(mint: &Identity) -> (r: Option<(Identity, u8)>)
    ensures
        is_address(r, nft_metadata_address(*mint)),
{
    let seeds: [&[u8]; 2] = [NFT_METADATA_SEED.as_bytes(), mint.bytes.as_slice()];
    let list: &[&[u8]] = seeds.as_slice();
    proof {
        assert(seeds_view(list) =~= seq![NFT_METADATA_SEED.spec_bytes(), mint@]);
    }
    try_find_program_address(list, &program_id())
}

fn derive_stake_account(staker: &Identity, token_mint: &Identity) -> (r: Option<(Identity, u8)>)
    ensures
        is_address(r, stake_account_address(*staker, *token_mint)),
{
    let seeds: [&[u8]; 3] = [
        STAKE_ACCOUNT_SEED.as_bytes(),
        staker.bytes.as_slice(),
        token_mint.bytes.as_slice(),
    ];
    let list: &[&[u8]] = seeds.as_slice();
    proof {
        assert(seeds_view(list) =~= seq![
            STAKE_ACCOUNT_SEED.spec_bytes(),
            staker@,
            token_mint@,
        ]);
    }
    try_find_program_address(list, &program_id())
}

fn derive_stake_authority() -> (r: Option<(Identity, u8)>)
    ensures
        is_address(r, stake_authority_address()),
{
    let seeds: [&[u8]; 1] = [STAKE_AUTHORITY_SEED.as_bytes()];
    let list: &[&[u8]] = seeds.as_slice();
    proof {
        assert(seeds_view(list) =~= seq![STAKE_AUTHORITY_SEED.spec_bytes()]);
    }
    try_find_program_address(list, &program_id())
}

/// The address of the certificate counter and its bump seed.
pub fn find_nft_counter_pda() -> (r: (Identity, u8))
    requires
        nft_counter_address() is Some,
    ensures
        nft_counter_address() == Some((r.0@, r.1)),
{
    match derive_nft_counter() {
        Some(found) => found,
        None => unreached(),
    }
}

/// The address of the certificate counter and its bump seed; `None` where
/// the seed derives no address.
pub fn try_find_nft_counter_pda() -> (r: Option<(Identity, u8)>)
    ensures
        is_address(r, nft_counter_address()),
{
    if derive_nft_counter().is_some() {
        Some(find_nft_counter_pda())
    } else {
        None
    }
}

/// The address of the mint of certificate number `count` of `collection`,
/// and its bump seed.
pub fn find_nft_mint_pda(collection: &Identity, count: u64) -> (r: (Identity, u8))
    requires
        nft_mint_address(*collection, count) is Some,
    ensures
        nft_mint_address(*collection, count) == Some((r.0@, r.1)),
{
    match derive_nft_mint(collection, count) {
        Some(found) => found,
        None => unreached(),
    }
}

/// The address of the mint of certificate number `count` of `collection`,
/// and its bump seed; `None` where the seeds derive no address.
pub fn try_find_nft_mint_pda(collection: &Identity, count: u64) -> (r: Option<(Identity, u8)>)
    ensures
        is_address(r, nft_mint_address(*collection, count)),
{
    if derive_nft_mint(collection, count).is_some() {
        Some(find_nft_mint_pda(collection, count))
    } else {
        None
    }
}

/// The address of the metadata of the certificate minted at `mint`, and its
/// bump seed.
pub fn find_nft_metadata_pda(mint: &Identity) -> (r: (Identity, u8))
    requires
        nft_metadata_address(*mint) is Some,
    ensures
        nft_metadata_address(*mint) == Some((r.0@, r.1)),
{
    match derive_nft_metadata(mint) {
        Some(found) => found,
        None => unreached(),
    }
}

/// The address of the metadata of the certificate minted at `mint`, and its
/// bump seed; `None` where the seeds derive no address.
pub fn try_find_nft_metadata_pda(mint: &Identity) -> (r: Option<(Identity, u8)>)
    ensures
        is_address(r, nft_metadata_address(*mint)),
{
    if derive_nft_metadata(mint).is_some() {
        Some(find_nft_metadata_pda(mint))
    } else {
        None
    }
}

/// The address of the stake record of `staker` in `token_mint`, and its
/// bump seed.
pub fn find_stake_account_pda(staker: &Identity, token_mint: &Identity) -> (r: (Identity, u8))
    requires
        stake_account_address(*staker, *token_mint) is Some,
    ensures
        stake_account_address(*staker, *token_mint) == Some((r.0@, r.1)),
{
    match derive_stake_account(staker, token_mint) {
        Some(found) => found,
        None => unreached(),
    }
}

/// The address of the stake record of `staker` in `token_mint`, and its
/// bump seed; `None` where the seeds derive no address.
pub fn try_find_stake_account_pda(staker: &Identity, token_mint: &Identity) -> (r: Option<
    (Identity, u8),
>)
    ensures
        is_address(r, stake_account_address(*staker, *token_mint)),
{
    if derive_stake_account(staker, token_mint).is_some() {
        Some(find_stake_account_pda(staker, token_mint))
    } else {
        None
    }
}

/// The address of the vault authority and its bump seed.
pub fn find_stake_authority_pda() -> (r: (Identity, u8))
    requires
        stake_authority_address() is Some,
    ensures
        stake_authority_address() == Some((r.0@, r.1)),
{
    match derive_stake_authority() {
        Some(found) => found,
        None => unreached(),
    }
}

/// The address of the vault authority and its bump seed; `None` where the
/// seed derives no address.
pub fn try_find_stake_authority_pda() -> (r: Option<(Identity, u8)>)
    ensures
        is_address(r, stake_authority_address()),
{
    if derive_stake_authority().is_some() {
        Some(find_stake_authority_pda())
    } else {
        None
    }
}

} // verus!
