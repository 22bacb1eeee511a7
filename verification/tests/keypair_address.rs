use solwallet::address::Address;
use solwallet::derive::derive_token_account;
use solwallet::errors::WalletError;
use solwallet::keys::{keypair_encoding_round_trips, Keypair};

#[test]
fn generated_keypair_serializes_to_64_bytes() {
    let kp = Keypair::generate();
    let decoded = bs58::decode(kp.to_base58()).into_vec().unwrap();
    assert_eq!(decoded.len(), 64);
    // The address is the public half: the last 32 bytes.
    assert_eq!(kp.address().as_bytes().as_slice(), &decoded[32..]);
}

#[test]
fn keypair_base58_round_trips() {
    let kp = Keypair::generate();
    let text = kp.to_base58();
    let back = Keypair::from_base58(&text).unwrap();
    assert!(back.address().same_as(&kp.address()));
    assert_eq!(back.to_base58(), text);
}

#[test]
fn malformed_keypair_encoding_is_rejected() {
    assert!(matches!(
        Keypair::from_base58("!!!not base58!!!"),
        Err(WalletError::InvalidKeyEncoding)
    ));
    // Well-formed base58 of the wrong length: 32 bytes, not 64.
    let short = bs58::encode(&[9u8; 32]).into_string();
    assert!(matches!(
        Keypair::from_base58(&short),
        Err(WalletError::InvalidKeyEncoding)
    ));
    // 64 bytes whose public half does not match the secret half.
    let kp = Keypair::generate();
    let mut bytes = bs58::decode(kp.to_base58()).into_vec().unwrap();
    bytes[40] ^= 0x01;
    let broken = bs58::encode(&bytes).into_string();
    assert!(matches!(
        Keypair::from_base58(&broken),
        Err(WalletError::InvalidKeyEncoding)
    ));
}

#[test]
fn address_from_bytes_enforces_length() {
    assert!(Address::from_bytes(vec![1u8; 32]).is_ok());
    assert!(matches!(
        Address::from_bytes(vec![1u8; 31]),
        Err(WalletError::InvalidAddressEncoding)
    ));
    assert!(matches!(
        Address::from_bytes(vec![1u8; 33]),
        Err(WalletError::InvalidAddressEncoding)
    ));
}

#[test]
fn address_base58_round_trips() {
    let a = Address::from_bytes((0u8..32u8).collect()).unwrap();
    let text = a.to_base58();
    let back = Address::from_base58(&text).unwrap();
    assert!(back.same_as(&a));
}

#[test]
fn all_zero_address_encodes_as_system_program_text() {
    let a = Address::from_bytes(vec![0u8; 32]).unwrap();
    assert_eq!(a.to_base58(), "11111111111111111111111111111111");
}

#[test]
fn malformed_address_encoding_is_rejected() {
    assert!(matches!(
        Address::from_base58("0OIl"),
        Err(WalletError::InvalidAddressEncoding)
    ));
    let short = bs58::encode(&[3u8; 16]).into_string();
    assert!(matches!(
        Address::from_base58(&short),
        Err(WalletError::InvalidAddressEncoding)
    ));
}

#[test]
fn derivation_is_deterministic_and_input_sensitive() {
    let owner = Keypair::generate().address();
    let other = Keypair::generate().address();
    let mint = Keypair::generate().address();
    let a1 = derive_token_account(&owner, &mint);
    let a2 = derive_token_account(&owner, &mint);
    assert!(a1.same_as(&a2));
    let b = derive_token_account(&other, &mint);
    assert!(!b.same_as(&a1));
    let c = derive_token_account(&owner, &other);
    assert!(!c.same_as(&a1));
}

#[test]
fn derivation_matches_spl_derivation() {
    let owner = Keypair::generate().address();
    let mint = Keypair::generate().address();
    let ours = derive_token_account(&owner, &mint);
    let o = solana_sdk::pubkey::Pubkey::try_from(owner.as_bytes().as_slice()).unwrap();
    let m = solana_sdk::pubkey::Pubkey::try_from(mint.as_bytes().as_slice()).unwrap();
    let theirs = spl_associated_token_account::get_associated_token_address(&o, &m);
    assert_eq!(ours.as_bytes().as_slice(), theirs.to_bytes().as_slice());
}

#[test]
fn keypair_encoding_round_trip_law_holds() {
    let kp = Keypair::generate();
    assert!(keypair_encoding_round_trips(&kp));
}
