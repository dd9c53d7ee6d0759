use collection_provision::address::{candy_machine_program_id, Address};
use collection_provision::pdas::{
    find_candy_machine_creator_pda, find_collection_pda, find_holding_address,
    find_master_edition_pda, find_metadata_pda, try_find_candy_machine_creator_pda,
    try_find_collection_pda, try_find_holding_address, try_find_master_edition_pda,
    try_find_metadata_pda, CollectionPDA, Seeds,
};
use mpl_token_metadata::accounts::{MasterEdition, Metadata};
use solana_sdk::pubkey::Pubkey;

fn sample(seed: u8) -> Address {
    let mut bytes = [0u8; 32];
    for (i, b) in bytes.iter_mut().enumerate() {
        *b = (i as u8).wrapping_mul(13).wrapping_add(seed);
    }
    Address::new(bytes)
}

fn key(a: &Address) -> Pubkey {
    Pubkey::new_from_array(a.bytes)
}

#[test]
fn metadata_pda_is_the_programs() {
    for seed in 0..20u8 {
        let mint = sample(seed);
        let (expected, _) = Metadata::find_pda(&key(&mint));
        assert_eq!(try_find_metadata_pda(&mint).unwrap().bytes, expected.to_bytes());
        assert_eq!(find_metadata_pda(&mint).bytes, expected.to_bytes());
    }
}

#[test]
fn metadata_pda_from_its_seeds() {
    let mint = sample(42);
    let program = mpl_token_metadata::ID;
    let (expected, bump) = Pubkey::find_program_address(
        &[b"metadata", program.as_ref(), &mint.bytes],
        &program,
    );
    let (address, found_bump) = (Seeds::Metadata { mint }).derive().unwrap();
    assert_eq!(address.bytes, expected.to_bytes());
    assert_eq!(found_bump, bump);
    assert_eq!(find_metadata_pda(&mint).bytes, expected.to_bytes());
}

#[test]
fn master_edition_pda_is_the_programs() {
    for seed in 0..20u8 {
        let mint = sample(seed);
        let (expected, bump) = MasterEdition::find_pda(&key(&mint));
        assert_eq!(try_find_master_edition_pda(&mint).unwrap().bytes, expected.to_bytes());
        assert_eq!(find_master_edition_pda(&mint).bytes, expected.to_bytes());
        let (address, found_bump) = (Seeds::MasterEdition { mint }).derive().unwrap();
        assert_eq!(address.bytes, expected.to_bytes());
        assert_eq!(found_bump, bump);
    }
}

#[test]
fn master_edition_pda_from_its_seeds() {
    let mint = sample(7);
    let program = mpl_token_metadata::ID;
    let (expected, _) = Pubkey::find_program_address(
        &[b"metadata", program.as_ref(), &mint.bytes, b"edition"],
        &program,
    );
    assert_eq!(find_master_edition_pda(&mint).bytes, expected.to_bytes());
}

#[test]
fn metadata_and_master_edition_differ() {
    let mint = sample(1);
    assert_ne!(find_metadata_pda(&mint), find_master_edition_pda(&mint));
    assert_ne!(find_metadata_pda(&mint), mint);
}

#[test]
fn derivation_is_repeatable() {
    let mint = sample(99);
    assert_eq!(find_metadata_pda(&mint), find_metadata_pda(&mint));
    assert_eq!(find_master_edition_pda(&mint), find_master_edition_pda(&mint));
    assert_eq!(find_collection_pda(&mint), find_collection_pda(&mint));
    assert_eq!(
        find_candy_machine_creator_pda(&mint),
        find_candy_machine_creator_pda(&mint)
    );
}

#[test]
fn distinct_mints_give_distinct_addresses() {
    let mut seen = std::collections::HashSet::new();
    for seed in 0..50u8 {
        let mint = sample(seed);
        assert!(seen.insert(find_metadata_pda(&mint).bytes));
        assert!(seen.insert(find_master_edition_pda(&mint).bytes));
    }
}

#[test]
fn candy_machine_creator_pda_from_its_seeds() {
    let candy_machine = sample(5);
    let program = key(&candy_machine_program_id());
    let (expected, bump) =
        Pubkey::find_program_address(&[b"candy_machine", &candy_machine.bytes], &program);
    let (address, found_bump) = find_candy_machine_creator_pda(&candy_machine);
    assert_eq!(address.bytes, expected.to_bytes());
    assert_eq!(found_bump, bump);
    assert_eq!(
        try_find_candy_machine_creator_pda(&candy_machine),
        Some((address, found_bump))
    );
}

#[test]
fn collection_pda_from_its_seeds() {
    let candy_machine = sample(6);
    let program = key(&candy_machine_program_id());
    let (expected, bump) =
        Pubkey::find_program_address(&[b"collection", &candy_machine.bytes], &program);
    let (address, found_bump) = find_collection_pda(&candy_machine);
    assert_eq!(address.bytes, expected.to_bytes());
    assert_eq!(found_bump, bump);
    assert_eq!(try_find_collection_pda(&candy_machine), Some((address, found_bump)));
    assert_ne!(find_collection_pda(&candy_machine).0, find_candy_machine_creator_pda(&candy_machine).0);
}

#[test]
fn holding_address_is_the_associated_token_address() {
    for seed in 0..10u8 {
        let wallet = sample(seed);
        let mint = sample(seed.wrapping_add(100));
        let expected = spl_associated_token_account::get_associated_token_address(
            &key(&wallet),
            &key(&mint),
        );
        assert_eq!(find_holding_address(&wallet, &mint).bytes, expected.to_bytes());
        assert_eq!(
            try_find_holding_address(&wallet, &mint).unwrap().bytes,
            expected.to_bytes()
        );
        let (address, _) = (Seeds::Holding { wallet, mint }).derive().unwrap();
        assert_eq!(address.bytes, expected.to_bytes());
    }
}

#[test]
fn seed_lists_are_the_documented_ones() {
    let mint = sample(3);
    let wallet = sample(4);
    let program = mpl_token_metadata::ID.to_bytes().to_vec();
    assert_eq!(
        (Seeds::Metadata { mint }).to_list(),
        vec![b"metadata".to_vec(), program.clone(), mint.bytes.to_vec()]
    );
    assert_eq!(
        (Seeds::MasterEdition { mint }).to_list(),
        vec![b"metadata".to_vec(), program, mint.bytes.to_vec(), b"edition".to_vec()]
    );
    assert_eq!(
        (Seeds::CandyMachineCreator { candy_machine: mint }).to_list(),
        vec![b"candy_machine".to_vec(), mint.bytes.to_vec()]
    );
    assert_eq!(
        (Seeds::Collection { candy_machine: mint }).to_list(),
        vec![b"collection".to_vec(), mint.bytes.to_vec()]
    );
    assert_eq!(
        (Seeds::Holding { wallet, mint }).to_list(),
        vec![wallet.bytes.to_vec(), spl_token::ID.to_bytes().to_vec(), mint.bytes.to_vec()]
    );
    assert_eq!((Seeds::Metadata { mint }).owner().bytes, mpl_token_metadata::ID.to_bytes());
    assert_eq!(
        (Seeds::Holding { wallet, mint }).owner().bytes,
        spl_associated_token_account::ID.to_bytes()
    );
    assert_eq!((Seeds::Collection { candy_machine: mint }).owner(), candy_machine_program_id());
}

#[test]
fn collection_pda_holds_mint_and_candy_machine() {
    let pda = CollectionPDA { mint: sample(1), candy_machine: sample(2) };
    assert_eq!(pda.mint, sample(1));
    assert_eq!(pda.candy_machine, sample(2));
}
