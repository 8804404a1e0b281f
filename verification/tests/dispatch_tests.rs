use solana_pubkey::Pubkey;
use yeet_at::addresses::{derive_post_address, derive_user_address};
use yeet_at::{process_instruction, Account, YeetError};

const PROGRAM_ID: [u8; 32] = [7u8; 32];

fn pda_user(owner: &[u8; 32]) -> [u8; 32] {
    let pid = Pubkey::new_from_array(PROGRAM_ID);
    let (addr, _) = Pubkey::derive_program_address(&[b"user".as_slice(), owner.as_slice()], &pid)
        .unwrap();
    addr.to_bytes()
}

fn pda_post(author: &[u8; 32], index: u64) -> [u8; 32] {
    let pid = Pubkey::new_from_array(PROGRAM_ID);
    let le = index.to_le_bytes();
    let (addr, _) = Pubkey::derive_program_address(
        &[b"post".as_slice(), author.as_slice(), le.as_slice()],
        &pid,
    )
    .unwrap();
    addr.to_bytes()
}

fn signer(key: [u8; 32]) -> Account {
    Account {
        key,
        owner: [0u8; 32],
        is_signer: true,
        is_writable: true,
        executable: false,
        data: Vec::new(),
    }
}

fn fresh_profile(owner_key: &[u8; 32]) -> Account {
    Account {
        key: pda_user(owner_key),
        owner: PROGRAM_ID,
        is_signer: false,
        is_writable: true,
        executable: false,
        data: vec![0u8; 41],
    }
}

fn fresh_post(author: &[u8; 32], index: u64, content_len: usize) -> Account {
    Account {
        key: pda_post(author, index),
        owner: PROGRAM_ID,
        is_signer: false,
        is_writable: true,
        executable: false,
        data: vec![0u8; 43 + content_len],
    }
}

#[test]
fn test_derive_user_address_deterministic() {
    let owner = [5u8; 32];
    let first = derive_user_address(&owner, &PROGRAM_ID);
    let second = derive_user_address(&owner, &PROGRAM_ID);
    assert!(first.is_some());
    assert_eq!(first, second);
}

#[test]
fn test_derive_user_address_matches_reference() {
    let owner = [5u8; 32];
    let got = derive_user_address(&owner, &PROGRAM_ID).unwrap();
    assert_eq!(got, pda_user(&owner));
}

#[test]
fn test_derive_post_address_matches_reference() {
    let author = [5u8; 32];
    let got = derive_post_address(&author, 3, &PROGRAM_ID).unwrap();
    assert_eq!(got, pda_post(&author, 3));
    let other = derive_post_address(&author, 4, &PROGRAM_ID).unwrap();
    assert_ne!(got, other);
}

#[test]
fn test_dispatch_empty_instruction() {
    let mut accounts: Vec<Account> = Vec::new();
    let ix: Vec<u8> = Vec::new();
    assert_eq!(
        process_instruction(&PROGRAM_ID, &mut accounts, &ix),
        Err(YeetError::MalformedInstruction)
    );
}

#[test]
fn test_dispatch_unknown_opcode() {
    let a = [1u8; 32];
    let mut accounts = vec![signer(a), fresh_profile(&a)];
    let ix = vec![9u8];
    assert_eq!(
        process_instruction(&PROGRAM_ID, &mut accounts, &ix),
        Err(YeetError::MalformedInstruction)
    );
}

#[test]
fn test_dispatch_init_missing_accounts() {
    let a = [1u8; 32];
    let mut accounts = vec![signer(a)];
    let ix = vec![0u8];
    assert_eq!(
        process_instruction(&PROGRAM_ID, &mut accounts, &ix),
        Err(YeetError::MissingAccounts)
    );
}

#[test]
fn test_dispatch_create_missing_accounts() {
    let a = [1u8; 32];
    let mut accounts = vec![signer(a), fresh_profile(&a)];
    let ix = vec![1u8, b'h', b'i'];
    assert_eq!(
        process_instruction(&PROGRAM_ID, &mut accounts, &ix),
        Err(YeetError::MissingAccounts)
    );
}

#[test]
fn test_init_and_create_post() {
    let a = [1u8; 32];
    let content = b"hello yeet@".to_vec();

    let mut accounts = vec![signer(a), fresh_profile(&a)];
    let init_ix = vec![0u8];
    assert_eq!(process_instruction(&PROGRAM_ID, &mut accounts, &init_ix), Ok(()));

    let profile = accounts.remove(1);
    let mut accounts = vec![signer(a), profile, fresh_post(&a, 0, content.len())];
    let mut create_ix = vec![1u8];
    create_ix.extend_from_slice(&content);
    let res = process_instruction(&PROGRAM_ID, &mut accounts, &create_ix);
    assert!(res.is_ok());
}

#[test]
fn test_dispatch_create_post_writes_both_accounts() {
    let a = [1u8; 32];
    let mut accounts = vec![signer(a), fresh_profile(&a)];
    let init_ix = vec![0u8];
    assert_eq!(process_instruction(&PROGRAM_ID, &mut accounts, &init_ix), Ok(()));

    let payer = accounts[0].clone();
    let profile = accounts[1].clone();
    let content = b"hi".to_vec();
    let mut accounts = vec![payer, profile, fresh_post(&a, 0, content.len())];
    let mut create_ix = vec![1u8];
    create_ix.extend_from_slice(&content);
    assert_eq!(process_instruction(&PROGRAM_ID, &mut accounts, &create_ix), Ok(()));

    let mut expected_profile = vec![1u8];
    expected_profile.extend_from_slice(&a);
    expected_profile.extend_from_slice(&1u64.to_le_bytes());
    assert_eq!(accounts[1].data, expected_profile);

    let mut expected_post = vec![2u8];
    expected_post.extend_from_slice(&a);
    expected_post.extend_from_slice(&0u64.to_le_bytes());
    expected_post.extend_from_slice(&2u16.to_le_bytes());
    expected_post.extend_from_slice(&content);
    assert_eq!(accounts[2].data, expected_post);
}

#[test]
fn test_dispatch_failure_leaves_accounts_unchanged() {
    let a = [1u8; 32];
    let mut accounts = vec![signer(a), fresh_profile(&a), fresh_post(&a, 0, 2)];
    accounts[1].data[0] = 1;
    let before = accounts.clone();
    let ix = vec![1u8];
    assert_eq!(
        process_instruction(&PROGRAM_ID, &mut accounts, &ix),
        Err(YeetError::MalformedInstruction)
    );
    assert_eq!(accounts, before);
}
