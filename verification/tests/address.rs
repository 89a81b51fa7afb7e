use adr_token_mint::address::{
    program_id, NFT_COUNTER_SEED, NFT_METADATA_SEED, NFT_MINT_SEED, PROGRAM_ID,
    STAKE_ACCOUNT_SEED, STAKE_AUTHORITY_SEED,
};
use adr_token_mint::{
    find_nft_counter_pda, find_nft_metadata_pda, find_nft_mint_pda, find_stake_account_pda,
    find_stake_authority_pda, try_find_nft_counter_pda, try_find_nft_metadata_pda,
    try_find_nft_mint_pda, try_find_stake_account_pda, try_find_stake_authority_pda, Identity,
};
use anchor_lang::prelude::Pubkey;
use std::str::FromStr;

fn program() -> Pubkey {
    Pubkey::from_str("65zQjC4UYf4zJdDyfScpZjgaBbiMRpmFhNJkFSp39GZF").unwrap()
}

fn expected(seeds: &[&[u8]]) -> (Identity, u8) {
    let (address, bump) = Pubkey::find_program_address(seeds, &program());
    (Identity::new(address.to_bytes()), bump)
}

#[test]
fn program_identity_is_the_declared_one() {
    assert_eq!(PROGRAM_ID, program().to_bytes());
    assert_eq!(program_id(), Identity::new(program().to_bytes()));
    assert_eq!(program_id().to_bytes(), PROGRAM_ID);
}

#[test]
fn seeds_are_the_declared_ones() {
    assert_eq!(NFT_COUNTER_SEED.as_bytes(), b"nft_counter");
    assert_eq!(NFT_MINT_SEED.as_bytes(), b"nft_mint");
    assert_eq!(NFT_METADATA_SEED.as_bytes(), b"nft_metadata");
    assert_eq!(STAKE_ACCOUNT_SEED.as_bytes(), b"stake_account");
    assert_eq!(STAKE_AUTHORITY_SEED.as_bytes(), b"stake_authority");
}

#[test]
fn counter_address_is_derived_from_its_seed() {
    let want = expected(&[b"nft_counter"]);
    assert_eq!(try_find_nft_counter_pda(), Some(want));
    assert_eq!(find_nft_counter_pda(), want);
    assert_ne!(want.0, program_id());
}

#[test]
fn vault_authority_address_is_derived_from_its_seed() {
    let want = expected(&[b"stake_authority"]);
    assert_eq!(try_find_stake_authority_pda(), Some(want));
    assert_eq!(find_stake_authority_pda(), want);
    assert_ne!(want, expected(&[b"nft_counter"]));
}

#[test]
fn mint_address_is_derived_from_collection_and_number() {
    let collection = Identity::new([5; 32]);
    for count in [0u64, 1, 2, 255, 256, 1 << 40, u64::MAX] {
        let number = count.to_le_bytes();
        let want = expected(&[b"nft_mint", &[5u8; 32], &number]);
        assert_eq!(try_find_nft_mint_pda(&collection, count), Some(want));
        assert_eq!(find_nft_mint_pda(&collection, count), want);
    }
    assert_ne!(find_nft_mint_pda(&collection, 0), find_nft_mint_pda(&collection, 1));
    assert_ne!(
        find_nft_mint_pda(&collection, 0),
        find_nft_mint_pda(&Identity::new([6; 32]), 0)
    );
}

#[test]
fn metadata_address_is_derived_from_the_mint() {
    let mint = Identity::new([8; 32]);
    let want = expected(&[b"nft_metadata", &[8u8; 32]]);
    assert_eq!(try_find_nft_metadata_pda(&mint), Some(want));
    assert_eq!(find_nft_metadata_pda(&mint), want);
    assert_ne!(find_nft_metadata_pda(&Identity::new([9; 32])), want);
}

#[test]
fn stake_record_address_is_derived_from_holder_and_token() {
    let staker = Identity::new([2; 32]);
    let token = Identity::new([3; 32]);
    let want = expected(&[b"stake_account", &[2u8; 32], &[3u8; 32]]);
    assert_eq!(try_find_stake_account_pda(&staker, &token), Some(want));
    assert_eq!(find_stake_account_pda(&staker, &token), want);
    // Holder and token are not interchangeable.
    assert_ne!(find_stake_account_pda(&token, &staker), want);
    assert_ne!(want.0, staker);
    assert_ne!(want.0, token);
}

#[test]
fn derived_addresses_lead_back_through_their_bump_seed() {
    let (address, bump) = find_stake_authority_pda();
    let again =
        Pubkey::create_program_address(&[b"stake_authority", &[bump]], &program()).unwrap();
    assert_eq!(address.to_bytes(), again.to_bytes());
    assert!(!again.is_on_curve());
}

#[test]
fn identity_keeps_its_bytes() {
    let mut bytes = [0u8; 32];
    for (i, b) in bytes.iter_mut().enumerate() {
        *b = i as u8;
    }
    let id = Identity::new(bytes);
    assert_eq!(id.to_bytes(), bytes);
    assert_eq!(id, Identity::new(bytes));
    assert!(!id.is_empty());
    assert!(Identity::default().is_empty());
    assert_eq!(Identity::default().to_bytes(), [0u8; 32]);
    assert_eq!(Identity::default().to_bytes(), Pubkey::default().to_bytes());
    let mut last = [0u8; 32];
    last[31] = 1;
    assert!(!Identity::new(last).is_empty());
    assert_ne!(Identity::new(last), Identity::default());
}
