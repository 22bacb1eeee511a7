use solwallet::address::Address;
use solwallet::errors::WalletError;
use solwallet::keys::Keypair;
use solwallet::message::{sign_message, signed_message_verifies, verify_message, Signature};
use solana_sdk::signer::Signer;

#[test]
fn sign_then_verify_round_trips() {
    let kp = Keypair::generate();
    let msg: Vec<u8> = b"hello world".to_vec();
    let sig = sign_message(&kp, &msg);
    let addr = kp.address();
    assert!(verify_message(&sig, &addr, &msg));
    assert!(signed_message_verifies(&kp, &msg));
}

#[test]
fn sign_then_verify_empty_message() {
    let kp = Keypair::generate();
    let msg: Vec<u8> = Vec::new();
    let sig = sign_message(&kp, &msg);
    let addr = kp.address();
    assert!(verify_message(&sig, &addr, &msg));
}

#[test]
fn verify_with_wrong_key_is_false_not_error() {
    let kp = Keypair::generate();
    let other = Keypair::generate();
    let msg: Vec<u8> = b"payload".to_vec();
    let sig = sign_message(&kp, &msg);
    let wrong_addr = other.address();
    assert!(!verify_message(&sig, &wrong_addr, &msg));
}

#[test]
fn verify_with_wrong_message_is_false_not_error() {
    let kp = Keypair::generate();
    let msg: Vec<u8> = b"payload".to_vec();
    let tampered: Vec<u8> = b"payloae".to_vec();
    let sig = sign_message(&kp, &msg);
    let addr = kp.address();
    assert!(!verify_message(&sig, &addr, &tampered));
}

#[test]
fn library_signature_matches_solana_signature() {
    let kp = Keypair::generate();
    let msg: Vec<u8> = b"cross-check".to_vec();
    let sig = sign_message(&kp, &msg);
    let raw = solana_sdk::signer::keypair::Keypair::from_base58_string(&kp.to_base58());
    let raw_sig = raw.sign_message(&msg);
    assert_eq!(sig.as_bytes().as_slice(), raw_sig.as_ref());
    assert_eq!(kp.address().as_bytes().as_slice(), raw.pubkey().to_bytes().as_slice());
}

#[test]
fn signature_base58_round_trips() {
    let kp = Keypair::generate();
    let msg: Vec<u8> = b"round trip".to_vec();
    let sig = sign_message(&kp, &msg);
    let text = sig.to_base58();
    let back = Signature::from_base58(&text).unwrap();
    assert_eq!(back.as_bytes(), sig.as_bytes());
}

#[test]
fn malformed_signature_encoding_is_rejected() {
    assert!(matches!(
        Signature::from_base58("not a base58 string!"),
        Err(WalletError::InvalidSignatureEncoding)
    ));
    // Well-formed base58, wrong decoded length.
    let short = bs58::encode(&[7u8; 10]).into_string();
    assert!(matches!(
        Signature::from_base58(&short),
        Err(WalletError::InvalidSignatureEncoding)
    ));
    assert!(matches!(
        Signature::from_bytes(vec![1u8; 63]),
        Err(WalletError::InvalidSignatureEncoding)
    ));
    assert!(Signature::from_bytes(vec![1u8; 64]).is_ok());
}

#[test]
fn verify_accepts_any_address_bytes_without_failing() {
    // A 32-byte string that is no valid curve point still verifies as
    // false rather than failing.
    let kp = Keypair::generate();
    let msg: Vec<u8> = b"x".to_vec();
    let sig = sign_message(&kp, &msg);
    let junk = Address::from_bytes(vec![0xffu8; 32]).unwrap();
    assert!(!verify_message(&sig, &junk, &msg));
}
