use disco::address::Address;
use disco::bridge::{
    consume_use, create_master_edition, create_metadata, verify_collection, AccountMeta, Instruction, UseMethod,
    Uses,
};
use disco::programs;
use solana_program::pubkey::Pubkey;

fn key(byte: u8) -> Address {
    Address { bytes: [byte; 32] }
}

fn pubkey(byte: u8) -> Pubkey {
    Pubkey::from([byte; 32])
}

fn writable(pubkey: Address, is_signer: bool) -> AccountMeta {
    AccountMeta { pubkey, is_signer, is_writable: true }
}

fn readonly(pubkey: Address, is_signer: bool) -> AccountMeta {
    AccountMeta { pubkey, is_signer, is_writable: false }
}

fn same_instruction(ours: &Instruction, theirs: &solana_program::instruction::Instruction) {
    assert_eq!(ours.program_id.bytes, theirs.program_id.to_bytes());
    assert_eq!(ours.accounts.len(), theirs.accounts.len());
    for (our, their) in ours.accounts.iter().zip(theirs.accounts.iter()) {
        assert_eq!(our.pubkey.bytes, their.pubkey.to_bytes());
        assert_eq!(our.is_signer, their.is_signer);
        assert_eq!(our.is_writable, their.is_writable);
    }
    assert_eq!(ours.data, theirs.data);
}

fn text(bytes: &[u8]) -> Vec<u8> {
    let mut encoded = (bytes.len() as u32).to_le_bytes().to_vec();
    encoded.extend_from_slice(bytes);
    encoded
}

#[test]
fn create_metadata_names_its_accounts_in_order() {
    let instruction = create_metadata(
        &key(1),
        &key(2),
        &key(3),
        &key(4),
        "Gala".to_string(),
        "GALA".to_string(),
        "https://gala.example/1.json".to_string(),
        None,
    );
    assert_eq!(instruction.program_id, programs::metadata_program_id());
    assert_eq!(
        instruction.accounts,
        vec![
            writable(key(1), false),
            readonly(key(2), false),
            readonly(key(3), true),
            writable(key(4), true),
            readonly(key(3), true),
            readonly(programs::system_program_id(), false),
        ]
    );
}

#[test]
fn create_metadata_bytes_without_uses() {
    let instruction = create_metadata(
        &key(1),
        &key(2),
        &key(3),
        &key(4),
        "Gala".to_string(),
        "GA".to_string(),
        "u".to_string(),
        None,
    );
    let mut expected = vec![33u8];
    expected.extend(text(b"Gala"));
    expected.extend(text(b"GA"));
    expected.extend(text(b"u"));
    expected.extend([0u8, 0]); // no royalties
    expected.push(0); // no creators
    expected.push(0); // no collection
    expected.push(0); // no uses
    expected.push(1); // mutable
    expected.push(0); // no collection details
    assert_eq!(instruction.data, expected);
}

#[test]
fn create_metadata_bytes_with_uses() {
    let uses = Uses { use_method: UseMethod::Multiple, remaining: 3, total: 3 };
    let instruction = create_metadata(
        &key(1),
        &key(2),
        &key(3),
        &key(4),
        "Día".to_string(),
        "D".to_string(),
        "".to_string(),
        Some(uses),
    );
    let mut expected = vec![33u8];
    expected.extend(text("Día".as_bytes()));
    expected.extend(text(b"D"));
    expected.extend(text(b""));
    expected.extend([0u8, 0]);
    expected.push(0);
    expected.push(0);
    expected.push(1);
    expected.push(1); // multiple
    expected.extend(3u64.to_le_bytes());
    expected.extend(3u64.to_le_bytes());
    expected.push(1);
    expected.push(0);
    assert_eq!(instruction.data, expected);
}

#[test]
fn create_metadata_is_the_metadata_service_instruction() {
    for (use_method, theirs) in [
        (UseMethod::Burn, mpl_token_metadata::state::UseMethod::Burn),
        (UseMethod::Multiple, mpl_token_metadata::state::UseMethod::Multiple),
        (UseMethod::Single, mpl_token_metadata::state::UseMethod::Single),
    ] {
        let instruction = create_metadata(
            &key(1),
            &key(2),
            &key(3),
            &key(4),
            "Gala".to_string(),
            "GALA".to_string(),
            "https://gala.example/1.json".to_string(),
            Some(Uses { use_method, remaining: 7, total: 9 }),
        );
        let expected = mpl_token_metadata::instruction::create_metadata_accounts_v3(
            mpl_token_metadata::ID,
            pubkey(1),
            pubkey(2),
            pubkey(3),
            pubkey(4),
            pubkey(3),
            "Gala".to_string(),
            "GALA".to_string(),
            "https://gala.example/1.json".to_string(),
            None,
            0,
            true,
            true,
            None,
            Some(mpl_token_metadata::state::Uses { use_method: theirs, remaining: 7, total: 9 }),
            None,
        );
        same_instruction(&instruction, &expected);
    }
}

#[test]
fn create_master_edition_names_its_accounts_in_order() {
    let instruction = create_master_edition(&key(1), &key(2), &key(3), &key(4), &key(5));
    assert_eq!(instruction.program_id, programs::metadata_program_id());
    assert_eq!(
        instruction.accounts,
        vec![
            writable(key(1), false),
            writable(key(2), false),
            readonly(key(3), true),
            readonly(key(3), true),
            writable(key(5), true),
            writable(key(4), false),
            readonly(programs::token_program_id(), false),
            readonly(programs::system_program_id(), false),
        ]
    );
}

#[test]
fn create_master_edition_allows_no_copy() {
    let instruction = create_master_edition(&key(1), &key(2), &key(3), &key(4), &key(5));
    assert_eq!(instruction.data, vec![17u8, 1, 0, 0, 0, 0, 0, 0, 0, 0]);
}

#[test]
fn create_master_edition_is_the_metadata_service_instruction() {
    let instruction = create_master_edition(&key(1), &key(2), &key(3), &key(4), &key(5));
    let expected = mpl_token_metadata::instruction::create_master_edition_v3(
        mpl_token_metadata::ID,
        pubkey(1),
        pubkey(2),
        pubkey(3),
        pubkey(3),
        pubkey(4),
        pubkey(5),
        Some(0),
    );
    same_instruction(&instruction, &expected);
}

#[test]
fn verify_collection_names_its_accounts_in_order() {
    let instruction = verify_collection(&key(1), &key(2), &key(3), &key(4), &key(5), &key(6));
    assert_eq!(instruction.program_id, programs::metadata_program_id());
    assert_eq!(
        instruction.accounts,
        vec![
            writable(key(1), false),
            writable(key(2), true),
            writable(key(3), true),
            readonly(key(2), false),
            readonly(key(4), false),
            readonly(key(5), false),
            readonly(key(6), false),
        ]
    );
    assert_eq!(instruction.data, vec![25u8]);
}

#[test]
fn verify_collection_is_the_metadata_service_instruction() {
    let instruction = verify_collection(&key(1), &key(2), &key(3), &key(4), &key(5), &key(6));
    let expected = mpl_token_metadata::instruction::set_and_verify_collection(
        mpl_token_metadata::ID,
        pubkey(1),
        pubkey(2),
        pubkey(3),
        pubkey(2),
        pubkey(4),
        pubkey(5),
        pubkey(6),
        None,
    );
    same_instruction(&instruction, &expected);
}

#[test]
fn consume_use_names_its_accounts_in_order() {
    let instruction = consume_use(&key(1), &key(2), &key(3), &key(4));
    assert_eq!(instruction.program_id, programs::metadata_program_id());
    assert_eq!(
        instruction.accounts,
        vec![
            writable(key(1), false),
            writable(key(2), false),
            writable(key(3), false),
            writable(key(4), true),
            readonly(key(4), false),
            readonly(programs::token_program_id(), false),
            readonly(programs::associated_token_program_id(), false),
            readonly(programs::system_program_id(), false),
        ]
    );
}

#[test]
fn consume_use_consumes_one_use() {
    let instruction = consume_use(&key(1), &key(2), &key(3), &key(4));
    assert_eq!(instruction.data, vec![19u8, 1, 0, 0, 0, 0, 0, 0, 0]);
}

#[test]
fn consume_use_is_the_metadata_service_instruction() {
    let instruction = consume_use(&key(1), &key(2), &key(3), &key(4));
    let expected = mpl_token_metadata::instruction::utilize(
        mpl_token_metadata::ID,
        pubkey(1),
        pubkey(2),
        pubkey(3),
        None,
        pubkey(4),
        pubkey(4),
        None,
        1,
    );
    same_instruction(&instruction, &expected);
}

#[test]
fn create_metadata_bytes_of_each_use_method() {
    for (use_method, number) in [(UseMethod::Burn, 0u8), (UseMethod::Multiple, 1), (UseMethod::Single, 2)] {
        let uses = Uses { use_method, remaining: 0x0102030405060708, total: u64::MAX };
        let instruction =
            create_metadata(&key(1), &key(2), &key(3), &key(4), "n".repeat(300), String::new(), "u".to_string(), Some(uses));
        let mut expected = vec![33u8, 44, 1, 0, 0];
        expected.extend(vec![b'n'; 300]);
        expected.extend([0u8, 0, 0, 0]);
        expected.extend([1u8, 0, 0, 0, b'u']);
        expected.extend([0u8, 0]);
        expected.extend([0u8, 0]);
        expected.extend([1u8, number]);
        expected.extend([8u8, 7, 6, 5, 4, 3, 2, 1]);
        expected.extend([255u8; 8]);
        expected.extend([1u8, 0]);
        assert_eq!(instruction.data, expected);
    }
}
