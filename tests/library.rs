use fast_tester::{
    account_from_fields, decode_message, reconstruct_signers, sign_transaction, status_code,
    FtLogger, ProcessError, SubmitOutcome,
};
use solana_sdk::message::Message;
use solana_sdk::pubkey::Pubkey;
use solana_sdk::signature::Keypair;
use solana_sdk::signer::Signer;
use solana_sdk::system_instruction;
use solana_sdk::system_program;

fn transfer_message(from: &Keypair, to: &Pubkey, lamports: u64) -> Message {
    let ix = system_instruction::transfer(&from.pubkey(), to, lamports);
    Message::new(&[ix], Some(&from.pubkey()))
}

fn anchor() -> solana_sdk::hash::Hash {
    solana_sdk::hash::Hash::new_from_array([7u8; 32])
}

#[test]
fn account_fields_decode_exactly() {
    let address = [3u8; 32];
    let owner = system_program::id().to_bytes();
    let lamports = 1_000_000u64.to_le_bytes();
    let rent_epoch = [1u8, 0, 0, 0, 0, 0, 0, 0x80];
    let data = [9u8, 8, 7];
    let (addr, rec) = account_from_fields(&address, &lamports, &data, &owner, 2, &rent_epoch);
    assert_eq!(addr, address);
    assert_eq!(rec.lamports, 1_000_000);
    assert_eq!(rec.data, vec![9u8, 8, 7]);
    assert_eq!(rec.owner, owner);
    assert!(rec.executable);
    assert_eq!(rec.rent_epoch, 0x8000_0000_0000_0001);
}

#[test]
fn account_fields_empty_data_and_zero_flag() {
    let (addr, rec) =
        account_from_fields(&[0u8; 32], &[0u8; 8], &[], &[255u8; 32], 0, &[255u8; 8]);
    assert_eq!(addr, [0u8; 32]);
    assert_eq!(rec.lamports, 0);
    assert!(rec.data.is_empty());
    assert_eq!(rec.owner, [255u8; 32]);
    assert!(!rec.executable);
    assert_eq!(rec.rent_epoch, u64::MAX);
}

#[test]
fn account_fields_round_trip() {
    let owner = [42u8; 32];
    let data = vec![1u8, 2, 3, 4, 5];
    let first = account_from_fields(&[5u8; 32], &123_456u64.to_le_bytes(), &data, &owner, 1, &77u64.to_le_bytes());
    let second = account_from_fields(&[5u8; 32], &123_456u64.to_le_bytes(), &data, &owner, 1, &77u64.to_le_bytes());
    assert_eq!(first.1.lamports, 123_456);
    assert_eq!(first.1.data, data);
    assert_eq!(first.1.rent_epoch, 77);
    assert_eq!(first.0, second.0);
    assert_eq!(first.1.lamports, second.1.lamports);
    assert_eq!(first.1.data, second.1.data);
    assert_eq!(first.1.owner, second.1.owner);
    assert_eq!(first.1.executable, second.1.executable);
    assert_eq!(first.1.rent_epoch, second.1.rent_epoch);
}

#[test]
fn decode_message_reads_header() {
    let a = Keypair::new();
    let msg = transfer_message(&a, &Pubkey::new_unique(), 100);
    let bytes = bincode::serialize(&msg).unwrap();
    let decoded = decode_message(&bytes).unwrap();
    assert_eq!(decoded, msg);
    assert_eq!(decoded.header.num_required_signatures, bytes[0]);
    assert_eq!(decoded.header.num_required_signatures, 1);
}

#[test]
fn decode_message_rejects_garbage() {
    assert_eq!(decode_message(&[]).unwrap_err(), ProcessError::MalformedMessage);
    assert_eq!(decode_message(&[1, 0, 1, 200]).unwrap_err(), ProcessError::MalformedMessage);
}

#[test]
fn reconstruct_signers_keeps_order() {
    let a = Keypair::new();
    let b = Keypair::new();
    let mut bytes = a.to_bytes().to_vec();
    bytes.extend_from_slice(&b.to_bytes());
    let keys = reconstruct_signers(&bytes, 2).unwrap();
    assert_eq!(keys.len(), 2);
    assert_eq!(keys[0].pubkey(), a.pubkey());
    assert_eq!(keys[1].pubkey(), b.pubkey());
    assert!(reconstruct_signers(&[], 0).unwrap().is_empty());
}

#[test]
fn reconstruct_signers_reports_first_malformed() {
    let a = Keypair::new();
    let mut bytes = a.to_bytes().to_vec();
    let mut bad = Keypair::new().to_bytes();
    bad[40] ^= 1;
    bytes.extend_from_slice(&bad);
    bytes.extend_from_slice(&bad);
    assert_eq!(reconstruct_signers(&bytes, 3).unwrap_err(), ProcessError::MalformedSigner(1));
}

#[test]
fn sign_transaction_with_required_signer() {
    let a = Keypair::new();
    let b = Pubkey::new_unique();
    let msg = transfer_message(&a, &b, 100);
    let bytes = bincode::serialize(&msg).unwrap();
    let decoded = decode_message(&bytes).unwrap();
    let tx = sign_transaction(decoded, &a.to_bytes(), 1, anchor()).unwrap();
    assert!(tx.is_signed());
    assert!(tx.verify().is_ok());
    assert_eq!(tx.message.recent_blockhash, anchor());
    assert_eq!(tx.message.account_keys, msg.account_keys);
    assert_eq!(tx.signatures.len(), 1);
}

#[test]
fn sign_transaction_with_fewer_signers_fails() {
    let a = Keypair::new();
    let msg = transfer_message(&a, &Pubkey::new_unique(), 100);
    assert_eq!(sign_transaction(msg, &[], 0, anchor()).unwrap_err(), ProcessError::Signing);
}

#[test]
fn sign_transaction_with_missing_required_signer_fails() {
    let a = Keypair::new();
    let payer = Keypair::new();
    let ix = system_instruction::transfer(&a.pubkey(), &Pubkey::new_unique(), 100);
    let msg = Message::new(&[ix], Some(&payer.pubkey()));
    assert_eq!(msg.header.num_required_signatures, 2);
    let result = sign_transaction(msg, &payer.to_bytes(), 1, anchor());
    assert_eq!(result.unwrap_err(), ProcessError::Signing);
}

#[test]
fn sign_transaction_with_foreign_signer_fails() {
    let a = Keypair::new();
    let msg = transfer_message(&a, &Pubkey::new_unique(), 100);
    let other = Keypair::new();
    assert_eq!(
        sign_transaction(msg, &other.to_bytes(), 1, anchor()).unwrap_err(),
        ProcessError::Signing
    );
}

#[test]
fn sign_transaction_with_malformed_signer_fails() {
    let a = Keypair::new();
    let msg = transfer_message(&a, &Pubkey::new_unique(), 100);
    let mut key = a.to_bytes();
    key[63] ^= 0x55;
    assert_eq!(
        sign_transaction(msg, &key, 1, anchor()).unwrap_err(),
        ProcessError::MalformedSigner(0)
    );
}

#[test]
fn status_code_of_outcomes() {
    assert_eq!(status_code(&SubmitOutcome::Accepted), Some(0));
    assert_eq!(status_code(&SubmitOutcome::Rejected), Some(1));
    assert_eq!(status_code(&SubmitOutcome::TransportFailure), None);
}

#[test]
fn sign_transaction_with_two_required_signers_in_any_order() {
    let a = Keypair::new();
    let payer = Keypair::new();
    let ix = system_instruction::transfer(&a.pubkey(), &Pubkey::new_unique(), 100);
    let msg = Message::new(&[ix], Some(&payer.pubkey()));
    let mut keys = a.to_bytes().to_vec();
    keys.extend_from_slice(&payer.to_bytes());
    let tx = sign_transaction(msg.clone(), &keys, 2, anchor()).unwrap();
    assert!(tx.verify().is_ok());
    assert_eq!(tx.signatures.len(), 2);
    assert_eq!(tx.message.account_keys[0], payer.pubkey());
}

#[test]
fn sign_transaction_with_extra_signer_fails() {
    let a = Keypair::new();
    let msg = transfer_message(&a, &Pubkey::new_unique(), 100);
    let mut keys = a.to_bytes().to_vec();
    keys.extend_from_slice(&Keypair::new().to_bytes());
    assert_eq!(sign_transaction(msg, &keys, 2, anchor()).unwrap_err(), ProcessError::Signing);
}

#[test]
fn logger_is_quiet() {
    let metadata = log::Metadata::builder().level(log::Level::Error).target("bank").build();
    let logger = FtLogger;
    assert!(!logger.enabled(&metadata));
    logger.flush();
}
