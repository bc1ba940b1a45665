use cnft_collection::address::{find_auth_address, find_config_address, Address};
use cnft_collection::error::{CustomError, ProgramError};
use cnft_collection::instructions::create_collection::{self, CreateAccounts, CONFIG_SPACE};
use cnft_collection::instructions::dispatch::{decode_instruction, Instruction};
use cnft_collection::instructions::mint::{self, MintAccounts, MintArgs};
use cnft_collection::states::config::CollectionConfig;

const SYSVAR_INSTRUCTIONS: [u8; 32] = [
    6, 167, 213, 23, 24, 123, 209, 102, 53, 218, 212, 4, 85, 253, 194, 192, 193, 36, 198, 143, 33,
    86, 117, 165, 219, 186, 203, 95, 8, 0, 0, 0,
];

fn program() -> Address {
    Address::new([7u8; 32])
}

fn config_named(name: &str, sfbp: u16) -> CollectionConfig {
    CollectionConfig {
        name: name.to_string(),
        symbol: "FOO".to_string(),
        uri: "https://example.com/foo/".to_string(),
        auth_pda: Address::new([1u8; 32]),
        collection_key: Address::new([2u8; 32]),
        update_auth: Address::new([3u8; 32]),
        sfbp,
        creator_1: Address::new([0xAAu8; 32]),
        creator_1_cut: 50,
        merkle_tree: Address::new([4u8; 32]),
    }
}

fn create_accounts(name: &str, signed: bool, data: Vec<u8>) -> CreateAccounts {
    let p = program();
    let name = name.to_string();
    CreateAccounts {
        payer_signed: signed,
        config: find_config_address(&name, &p).unwrap().0,
        config_data: data,
        authority: find_auth_address(&name, &p).unwrap().0,
    }
}

fn mint_accounts(name: &str, config_data: Vec<u8>) -> MintAccounts {
    let p = program();
    let name = name.to_string();
    MintAccounts {
        payer: Address::new([0x11u8; 32]),
        tree_config: Address::new([0x12u8; 32]),
        merkle_tree: Address::new([0x13u8; 32]),
        config: find_config_address(&name, &p).unwrap().0,
        config_data,
        collection_authority: find_auth_address(&name, &p).unwrap().0,
        instructions_sysvar: Address::new(SYSVAR_INSTRUCTIONS),
        collection_mint: Address::new([9u8; 32]),
    }
}

fn member() -> MintArgs {
    MintArgs {
        name: "Foo #1".to_string(),
        uri: "https://example.com/foo/1.json".to_string(),
        symbol: "FOO".to_string(),
    }
}

#[test]
fn derivation_matches_ledger_search() {
    let p = program();
    let name = "Foo".to_string();
    let pid = solana_program::pubkey::Pubkey::new_from_array(p.bytes);
    let (key, bump) =
        solana_program::pubkey::Pubkey::find_program_address(&[b"Foo", pid.as_ref()], &pid);
    let (a, b) = find_config_address(&name, &p).unwrap();
    assert_eq!(a.bytes, key.to_bytes());
    assert_eq!(b, bump);
    let (key, bump) = solana_program::pubkey::Pubkey::find_program_address(
        &[b"Foo", b"auth", pid.as_ref()],
        &pid,
    );
    let (a, b) = find_auth_address(&name, &p).unwrap();
    assert_eq!(a.bytes, key.to_bytes());
    assert_eq!(b, bump);
}

#[test]
fn derivation_is_stable_and_distinct() {
    let p = program();
    let name = "Foo".to_string();
    let c1 = find_config_address(&name, &p).unwrap();
    let c2 = find_config_address(&name, &p).unwrap();
    let a1 = find_auth_address(&name, &p).unwrap();
    assert_eq!(c1.0.bytes, c2.0.bytes);
    assert_eq!(c1.1, c2.1);
    assert!(!c1.0.same(&a1.0));
}

#[test]
fn derivation_of_overlong_name_is_none() {
    let name = "x".repeat(33);
    assert!(find_config_address(&name, &program()).is_none());
    assert!(find_auth_address(&name, &program()).is_none());
}

#[test]
fn record_layout_matches_borsh() {
    let c = config_named("Foo", 500);
    let expected = borsh::to_vec(&(
        c.name.clone(),
        c.symbol.clone(),
        c.uri.clone(),
        c.auth_pda.bytes,
        c.collection_key.bytes,
        c.update_auth.bytes,
        c.sfbp,
        c.creator_1.bytes,
        c.creator_1_cut,
        c.merkle_tree.bytes,
    ))
    .unwrap();
    assert_eq!(c.encode(), expected);
}

#[test]
fn record_field_offsets() {
    let c = config_named("Foo", 0x0102);
    let bytes = c.encode();
    // name, symbol and uri take 7 + 7 + 28 bytes; auth_pda follows
    let base = 7 + 7 + 28;
    assert_eq!(&bytes[base..base + 32], &[1u8; 32]);
    assert_eq!(&bytes[base + 32..base + 64], &[2u8; 32]);
    assert_eq!(&bytes[base + 64..base + 96], &[3u8; 32]);
    assert_eq!(&bytes[base + 96..base + 98], &[0x02, 0x01]);
    assert_eq!(&bytes[base + 98..base + 130], &[0xAAu8; 32]);
    assert_eq!(bytes[base + 130], 50);
    assert_eq!(&bytes[base + 131..], &[4u8; 32]);
}

#[test]
fn record_round_trip() {
    let c = config_named("Foo", 500);
    let mut data = vec![0xEEu8; 1400];
    assert_eq!(c.save(&mut data), Ok(()));
    let n = c.encode().len();
    assert!(data[n..].iter().all(|b| *b == 0xEE));
    let (d, end) = CollectionConfig::decode_from(&data, 0).unwrap();
    assert_eq!(end, n);
    assert_eq!(d.name, "Foo");
    assert_eq!(d.symbol, c.symbol);
    assert_eq!(d.uri, c.uri);
    assert_eq!(d.sfbp, 500);
    assert_eq!(d.creator_1.bytes, c.creator_1.bytes);
    assert_eq!(d.creator_1_cut, 50);
    assert_eq!(d.merkle_tree.bytes, c.merkle_tree.bytes);
    assert_eq!(d.auth_pda.bytes, c.auth_pda.bytes);
    assert_eq!(d.collection_key.bytes, c.collection_key.bytes);
    assert_eq!(d.update_auth.bytes, c.update_auth.bytes);
}

#[test]
fn save_into_short_storage_fails_unchanged() {
    let c = config_named("Foo", 500);
    let mut data = vec![5u8; 10];
    assert_eq!(c.save(&mut data), Err(ProgramError::InvalidAccountData));
    assert_eq!(data, vec![5u8; 10]);
}

#[test]
fn decode_rejects_truncated_and_bad_utf8() {
    let bytes = config_named("Foo", 500).encode();
    assert!(CollectionConfig::decode_from(&bytes[..bytes.len() - 1], 0).is_none());
    let mut bad = bytes.clone();
    bad[4] = 0xFF;
    assert!(CollectionConfig::decode_from(&bad, 0).is_none());
}

#[test]
fn create_checks_sfbp() {
    assert!(CollectionConfig::create(config_named("Foo", 9999)).is_ok());
    assert_eq!(
        CollectionConfig::create(config_named("Foo", 10000)).unwrap_err(),
        CustomError::InvalidSfbp
    );
}

#[test]
fn error_codes_and_messages() {
    assert_eq!(ProgramError::from(CustomError::InvalidSfbp), ProgramError::Custom(0));
    assert_eq!(ProgramError::from(CustomError::AuthKeyFailure), ProgramError::Custom(1));
    assert_eq!(ProgramError::from(CustomError::InvalidConfigAccount), ProgramError::Custom(2));
    assert_eq!(CustomError::AuthKeyFailure.message(), "Authority key mismatch.");
    assert_eq!(CustomError::InvalidSfbp.message(), "sfbp must be below 10000");
}

#[test]
fn creation_with_sfbp_at_limit_fails() {
    let data = config_named("Foo", 10000).encode();
    let r = create_collection::process(&program(), &create_accounts("Foo", true, vec![]), &data);
    assert_eq!(r.err(), Some(ProgramError::Custom(0)));
    let data = config_named("Foo", 65535).encode();
    let r = create_collection::process(&program(), &create_accounts("Foo", true, vec![]), &data);
    assert_eq!(r.err(), Some(ProgramError::Custom(0)));
}

#[test]
fn creation_with_wrong_config_address_fails() {
    let data = config_named("Foo", 500).encode();
    let mut acc = create_accounts("Foo", true, vec![]);
    acc.config = Address::new([8u8; 32]);
    let r = create_collection::process(&program(), &acc, &data);
    assert_eq!(r.err(), Some(ProgramError::Custom(2)));
}

#[test]
fn creation_with_wrong_authority_fails() {
    let data = config_named("Foo", 500).encode();
    let mut acc = create_accounts("Foo", true, vec![]);
    acc.authority = Address::new([8u8; 32]);
    let r = create_collection::process(&program(), &acc, &data);
    assert_eq!(r.err(), Some(ProgramError::Custom(1)));
}

#[test]
fn creation_without_signature_fails() {
    let data = config_named("Foo", 500).encode();
    let r = create_collection::process(&program(), &create_accounts("Foo", false, vec![]), &data);
    assert_eq!(r.err(), Some(ProgramError::MissingRequiredSignature));
}

#[test]
fn creation_with_malformed_payload_fails() {
    let mut data = config_named("Foo", 500).encode();
    data.push(0);
    let r = create_collection::process(&program(), &create_accounts("Foo", true, vec![]), &data);
    assert_eq!(r.err(), Some(ProgramError::InvalidInstructionData));
    let r = create_collection::process(&program(), &create_accounts("Foo", true, vec![]), &[1, 2]);
    assert_eq!(r.err(), Some(ProgramError::InvalidInstructionData));
}

#[test]
fn creation_into_small_existing_storage_fails() {
    let data = config_named("Foo", 500).encode();
    let r = create_collection::process(&program(), &create_accounts("Foo", true, vec![0; 8]), &data);
    assert_eq!(r.err(), Some(ProgramError::InvalidInstructionData));
}

#[test]
fn creation_of_fresh_collection() {
    let p = program();
    let data = config_named("Foo", 500).encode();
    let acc = create_accounts("Foo", true, vec![]);
    let plan = create_collection::process(&p, &acc, &data).unwrap();
    let alloc = plan.allocation.unwrap();
    assert_eq!(alloc.space, CONFIG_SPACE);
    assert_eq!(alloc.owner.bytes, p.bytes);
    let bump = find_config_address(&"Foo".to_string(), &p).unwrap().1;
    assert_eq!(alloc.signer_seeds, vec![b"Foo".to_vec(), p.bytes.to_vec(), vec![bump]]);
    let anchor = plan.anchor.unwrap();
    assert_eq!(anchor.name, "Foo");
    assert_eq!(anchor.uri, "https://example.com/foo/collection.json");
    assert_eq!(anchor.symbol, "FOO");
    assert_eq!(anchor.seller_fee_basis_points, 500);
    assert!(anchor.is_mutable);
    assert_eq!(anchor.creators.len(), 1);
    assert_eq!(anchor.creators[0].address.bytes, acc.authority.bytes);
    assert!(anchor.creators[0].verified);
    assert_eq!(anchor.creators[0].share, 100);
    assert_eq!(anchor.collection_size, 1);
    assert_eq!(anchor.amount, 1);
    let abump = find_auth_address(&"Foo".to_string(), &p).unwrap().1;
    assert_eq!(
        anchor.signer_seeds,
        vec![b"Foo".to_vec(), b"auth".to_vec(), p.bytes.to_vec(), vec![abump]]
    );
    assert_eq!(plan.config_data.len(), CONFIG_SPACE);
    assert_eq!(&plan.config_data[..data.len()], &data[..]);
    assert!(plan.config_data[data.len()..].iter().all(|b| *b == 0));
}

#[test]
fn creation_over_existing_storage_only_rewrites() {
    let data = config_named("Foo", 700).encode();
    let acc = create_accounts("Foo", true, vec![0xEE; 600]);
    let plan = create_collection::process(&program(), &acc, &data).unwrap();
    assert!(plan.allocation.is_none());
    assert!(plan.anchor.is_none());
    assert_eq!(plan.config_data.len(), 600);
    assert_eq!(&plan.config_data[..data.len()], &data[..]);
    assert_eq!(plan.config_data[data.len()], 0xEE);
    assert_eq!(plan.record.sfbp, 700);
}

#[test]
fn mint_with_wrong_authority_fails() {
    let stored = config_named("Foo", 500).encode();
    let mut acc = mint_accounts("Foo", stored);
    acc.collection_authority = Address::new([8u8; 32]);
    let r = mint::process(&program(), &acc, member());
    assert_eq!(r.err(), Some(ProgramError::Custom(1)));
}

#[test]
fn mint_with_wrong_sysvar_fails() {
    let stored = config_named("Foo", 500).encode();
    let mut acc = mint_accounts("Foo", stored);
    acc.instructions_sysvar = Address::new([0u8; 32]);
    let r = mint::process(&program(), &acc, member());
    assert_eq!(r.err(), Some(ProgramError::InvalidAccountData));
}

#[test]
fn mint_with_wrong_config_fails() {
    let stored = config_named("Foo", 500).encode();
    let mut acc = mint_accounts("Foo", stored);
    acc.config = Address::new([8u8; 32]);
    let r = mint::process(&program(), &acc, member());
    assert_eq!(r.err(), Some(ProgramError::InvalidAccountData));
}

#[test]
fn mint_with_missing_record_fails() {
    let acc = mint_accounts("Foo", vec![]);
    let r = mint::process(&program(), &acc, member());
    assert_eq!(r.err(), Some(ProgramError::InvalidAccountData));
}

#[test]
fn create_then_mint_end_to_end() {
    let p = program();
    let data = config_named("Foo", 500).encode();
    let acc = create_accounts("Foo", true, vec![]);
    let plan = create_collection::process(&p, &acc, &data).unwrap();
    let macc = mint_accounts("Foo", plan.config_data);
    let minted = mint::process(&p, &macc, member()).unwrap();
    assert_eq!(minted.tree_config.bytes, [0x12u8; 32]);
    assert_eq!(minted.merkle_tree.bytes, [0x13u8; 32]);
    assert_eq!(minted.leaf_owner.bytes, [0x11u8; 32]);
    assert_eq!(minted.leaf_delegate.bytes, [0x11u8; 32]);
    assert_eq!(minted.payer.bytes, [0x11u8; 32]);
    assert_eq!(minted.tree_creator_or_delegate.bytes, [0x11u8; 32]);
    assert_eq!(minted.collection_authority.bytes, acc.authority.bytes);
    assert_eq!(minted.collection_mint.bytes, [9u8; 32]);
    assert_eq!(minted.extra_account.address.bytes, acc.authority.bytes);
    assert!(minted.extra_account.is_writable);
    assert!(minted.extra_account.is_signer);
    let m = minted.metadata;
    assert_eq!(m.name, "Foo #1");
    assert_eq!(m.creators.len(), 2);
    assert_eq!(m.creators[0].address.bytes, acc.authority.bytes);
    assert!(m.creators[0].verified);
    assert_eq!(m.creators[0].share, 0);
    assert_eq!(m.creators[1].address.bytes, [0xAAu8; 32]);
    assert!(!m.creators[1].verified);
    assert_eq!(m.creators[1].share, 50);
    assert_eq!(m.seller_fee_basis_points, 500);
    assert!(!m.primary_sale_happened);
    assert!(m.is_mutable);
    assert_eq!(m.edition_nonce, Some(0));
    assert_eq!(m.collection.bytes, [9u8; 32]);
    assert!(m.collection_verified);
    let abump = find_auth_address(&"Foo".to_string(), &p).unwrap().1;
    assert_eq!(
        minted.signer_seeds,
        vec![b"Foo".to_vec(), b"auth".to_vec(), p.bytes.to_vec(), vec![abump]]
    );
}

#[test]
fn dispatch_by_leading_byte() {
    assert_eq!(decode_instruction(&[]).err(), Some(ProgramError::InvalidInstructionData));
    assert_eq!(decode_instruction(&[3, 0]).err(), Some(ProgramError::InvalidArgument));
    assert_eq!(decode_instruction(&[0]).err(), Some(ProgramError::InvalidArgument));
    match decode_instruction(&[1, 4, 5]) {
        Ok(Instruction::CreateCollection(p)) => assert_eq!(p, vec![4, 5]),
        _ => panic!("expected a creation"),
    }
    let mut data = vec![2u8];
    data.extend(borsh::to_vec(&("Foo #1".to_string(), "u".to_string(), "S".to_string())).unwrap());
    data.push(77);
    match decode_instruction(&data) {
        Ok(Instruction::Mint(a)) => {
            assert_eq!(a.name, "Foo #1");
            assert_eq!(a.uri, "u");
            assert_eq!(a.symbol, "S");
        }
        _ => panic!("expected a mint"),
    }
    assert_eq!(decode_instruction(&[2, 1, 0]).err(), Some(ProgramError::InvalidInstructionData));
}
