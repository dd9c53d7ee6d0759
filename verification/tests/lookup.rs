use collection_provision::address::Address;
use collection_provision::error::{AccountKind, Error};
use collection_provision::pdas::{
    find_master_edition_pda, find_metadata_pda, get_master_edition_pda, get_metadata_pda, Key,
    MasterEditionRecord,
};
use mpl_token_metadata::accounts::{MasterEdition, Metadata};

fn sample(seed: u8) -> Address {
    let mut bytes = [0u8; 32];
    for (i, b) in bytes.iter_mut().enumerate() {
        *b = (i as u8).wrapping_mul(17).wrapping_add(seed);
    }
    Address::new(bytes)
}

fn text(s: &str) -> Vec<u8> {
    let mut out = (s.len() as u32).to_le_bytes().to_vec();
    out.extend_from_slice(s.as_bytes());
    out
}

fn metadata_bytes(update_authority: &Address, mint: &Address) -> Vec<u8> {
    let mut data = vec![4u8];
    data.extend_from_slice(&update_authority.bytes);
    data.extend_from_slice(&mint.bytes);
    data.extend(text("My Collection"));
    data.extend(text("MC"));
    data.extend(text("ipfs://abc"));
    data.extend_from_slice(&0u16.to_le_bytes());
    data.push(1);
    data.extend_from_slice(&1u32.to_le_bytes());
    data.extend_from_slice(&update_authority.bytes);
    data.extend_from_slice(&[1, 100]);
    data.push(0); // primary sale happened
    data.push(1); // is mutable
    data.extend_from_slice(&[1, 254]); // edition nonce
    data.extend_from_slice(&[1, 0]); // token standard: non-fungible
    data.push(0); // collection
    data.push(0); // uses
    data.extend_from_slice(&[1, 0]); // collection details, version 1
    data.extend_from_slice(&0u64.to_le_bytes());
    data.push(0); // programmable config
    data
}

fn master_edition_bytes(key: u8, supply: u64, max_supply: Option<u64>) -> Vec<u8> {
    let mut data = vec![key];
    data.extend_from_slice(&supply.to_le_bytes());
    match max_supply {
        Some(max) => {
            data.push(1);
            data.extend_from_slice(&max.to_le_bytes());
        }
        None => data.push(0),
    }
    data
}

#[test]
fn metadata_is_decoded_at_the_derived_address() {
    let (payer, mint) = (sample(1), sample(2));
    let data = metadata_bytes(&payer, &mint);
    let (address, metadata) = get_metadata_pda(&mint, Some(data.clone())).unwrap();
    assert_eq!(address, find_metadata_pda(&mint));
    assert_eq!(metadata, Metadata::safe_deserialize(&data).unwrap());
    assert_eq!(metadata.name, "My Collection");
    assert_eq!(metadata.symbol, "MC");
    assert_eq!(metadata.uri, "ipfs://abc");
    assert_eq!(metadata.mint.to_bytes(), mint.bytes);
    assert_eq!(metadata.update_authority.to_bytes(), payer.bytes);
    assert_eq!(metadata.seller_fee_basis_points, 0);
    assert_eq!(metadata.creators.as_ref().unwrap().len(), 1);
    assert_eq!(metadata.creators.as_ref().unwrap()[0].share, 100);
    assert!(metadata.creators.as_ref().unwrap()[0].verified);
    assert!(metadata.is_mutable);
}

#[test]
fn absent_metadata_account_is_not_found() {
    let mint = sample(2);
    let error = get_metadata_pda(&mint, None).unwrap_err();
    assert_eq!(
        error,
        Error::AccountNotFound { kind: AccountKind::Metadata, address: find_metadata_pda(&mint) }
    );
    assert_eq!(
        error.message(),
        format!("Couldn't find metadata account: {}", find_metadata_pda(&mint).to_base58())
    );
}

#[test]
fn malformed_metadata_account_fails_to_deserialize() {
    let (payer, mint) = (sample(1), sample(2));
    let address = find_metadata_pda(&mint);
    let expected = Error::DeserializeFailed { kind: AccountKind::Metadata, address };
    assert_eq!(get_metadata_pda(&mint, Some(vec![])).unwrap_err(), expected);
    assert_eq!(get_metadata_pda(&mint, Some(vec![4])).unwrap_err(), expected);
    assert_eq!(get_metadata_pda(&mint, Some(vec![4; 40])).unwrap_err(), expected);
    let mut wrong_key = metadata_bytes(&payer, &mint);
    wrong_key[0] = 6;
    assert_eq!(get_metadata_pda(&mint, Some(wrong_key)).unwrap_err(), expected);
    let mut cut = metadata_bytes(&payer, &mint);
    cut.truncate(70);
    assert_eq!(get_metadata_pda(&mint, Some(cut)).unwrap_err(), expected);
    assert_eq!(
        expected.message(),
        format!("Failed to deserialize metadata account: {}", address.to_base58())
    );
}

#[test]
fn master_edition_is_decoded_at_the_derived_address() {
    let mint = sample(3);
    let data = master_edition_bytes(6, 0, Some(0));
    let (address, edition) = get_master_edition_pda(&mint, Some(data.clone())).unwrap();
    assert_eq!(address, find_master_edition_pda(&mint));
    assert_eq!(
        edition,
        MasterEditionRecord { key: Key::MasterEditionV2, supply: 0, max_supply: Some(0) }
    );
    let theirs = MasterEdition::from_bytes(&data).unwrap();
    assert_eq!(theirs.key, mpl_token_metadata::types::Key::MasterEditionV2);
    assert_eq!((theirs.supply, theirs.max_supply), (edition.supply, edition.max_supply));
}

#[test]
fn master_edition_fields_are_little_endian() {
    let mint = sample(3);
    let data = master_edition_bytes(2, 0x0102030405060708, Some(0x1112131415161718));
    assert_eq!(data[1..9], [8, 7, 6, 5, 4, 3, 2, 1]);
    let (_, edition) = get_master_edition_pda(&mint, Some(data)).unwrap();
    assert_eq!(
        edition,
        MasterEditionRecord {
            key: Key::MasterEditionV1,
            supply: 0x0102030405060708,
            max_supply: Some(0x1112131415161718)
        }
    );
    let (_, uncapped) =
        get_master_edition_pda(&mint, Some(master_edition_bytes(6, 5, None))).unwrap();
    assert_eq!(
        uncapped,
        MasterEditionRecord { key: Key::MasterEditionV2, supply: 5, max_supply: None }
    );
}

#[test]
fn master_edition_ignores_what_follows_the_record() {
    let mint = sample(3);
    let mut data = master_edition_bytes(6, 9, None);
    data.extend_from_slice(&[0xff; 30]);
    let (_, edition) = get_master_edition_pda(&mint, Some(data.clone())).unwrap();
    assert_eq!(edition, MasterEditionRecord { key: Key::MasterEditionV2, supply: 9, max_supply: None });
    assert!(MasterEdition::from_bytes(&data).is_ok());
}

#[test]
fn master_edition_decoding_agrees_with_the_program_on_every_key_and_flag() {
    let mint = sample(4);
    for key in 0..=255u8 {
        for flag in [0u8, 1, 2, 255] {
            for len in [0usize, 1, 8, 9, 10, 11, 17, 18, 19, 40] {
                let mut data = vec![key];
                data.extend_from_slice(&77u64.to_le_bytes());
                data.push(flag);
                data.extend_from_slice(&[0x5a; 30]);
                data.truncate(len);
                let ours = get_master_edition_pda(&mint, Some(data.clone()));
                let theirs = MasterEdition::from_bytes(&data);
                assert_eq!(ours.is_ok(), theirs.is_ok(), "key {key} flag {flag} len {len}");
                if let (Ok((_, ours)), Ok(theirs)) = (ours, theirs) {
                    assert_eq!(ours.supply, theirs.supply);
                    assert_eq!(ours.max_supply, theirs.max_supply);
                    assert_eq!(ours.key as u8, theirs.key as u8);
                    assert_eq!(ours.key as u8, key);
                }
            }
        }
    }
}

#[test]
fn absent_master_edition_account_is_not_found() {
    let mint = sample(5);
    let address = find_master_edition_pda(&mint);
    let error = get_master_edition_pda(&mint, None).unwrap_err();
    assert_eq!(error, Error::AccountNotFound { kind: AccountKind::MasterEdition, address });
    assert_eq!(
        error.message(),
        format!("Couldn't find master edition account: {}", address.to_base58())
    );
}

#[test]
fn malformed_master_edition_account_is_invalid() {
    let mint = sample(5);
    let address = find_master_edition_pda(&mint);
    let expected = Error::DeserializeFailed { kind: AccountKind::MasterEdition, address };
    assert_eq!(get_master_edition_pda(&mint, Some(vec![])).unwrap_err(), expected);
    assert_eq!(get_master_edition_pda(&mint, Some(vec![6; 9])).unwrap_err(), expected);
    assert_eq!(
        get_master_edition_pda(&mint, Some(master_edition_bytes(14, 0, None))).unwrap_err(),
        expected
    );
    let mut bad_flag = master_edition_bytes(6, 0, None);
    bad_flag[9] = 2;
    assert_eq!(get_master_edition_pda(&mint, Some(bad_flag)).unwrap_err(), expected);
    let mut cut = master_edition_bytes(6, 0, Some(1));
    cut.truncate(17);
    assert_eq!(get_master_edition_pda(&mint, Some(cut)).unwrap_err(), expected);
    assert_eq!(
        expected.message(),
        format!("Invalid master edition account: {}", address.to_base58())
    );
}

#[test]
fn key_codes() {
    assert_eq!(Key::from_code(0), Some(Key::Uninitialized));
    assert_eq!(Key::from_code(4), Some(Key::MetadataV1));
    assert_eq!(Key::from_code(6), Some(Key::MasterEditionV2));
    assert_eq!(Key::from_code(13), Some(Key::EditionMarkerV2));
    assert_eq!(Key::from_code(14), None);
    assert_eq!(Key::from_code(255), None);
    for code in 0..14u8 {
        assert_eq!(Key::from_code(code).unwrap() as u8, code);
    }
}
