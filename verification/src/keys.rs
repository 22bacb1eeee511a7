use vstd::prelude::*;

use crate::address::Address;
use crate::base58::{b58_decode, b58_encode, base58_decode_of, base58_of};
use crate::errors::WalletError;
use solana_sdk::signer::Signer;

verus! {

/// Whether `b` is a well-formed 64-byte keypair encoding: exactly the
/// byte strings that solana_sdk's Keypair::from_bytes accepts.
pub uninterp spec fn keypair_valid(b: Seq<u8>) -> bool;

/// The ed25519 signature that the keypair encoded by `kp` produces over
/// `msg`; ed25519 signing is deterministic, so this is a function of the
/// two arguments alone.
pub uninterp spec fn signature_of(kp: Seq<u8>, msg: Seq<u8>) -> Seq<u8>;

/// Whether the 64-byte signature `sig` verifies against the public key
/// bytes `pk` over the message `msg`.
pub uninterp spec fn sig_verify_of(sig: Seq<u8>, pk: Seq<u8>, msg: Seq<u8>) -> bool;

/// The address of the keypair encoded by `kp`: its public half, the
/// last 32 of its 64 bytes.
pub open spec fn keypair_address(kp: Seq<u8>) -> Seq<u8> {
    kp.subrange(32, 64)
}

/// Relies on solana_sdk Keypair::new and Keypair::to_bytes: a freshly
/// generated keypair serializes to 64 bytes that Keypair::from_bytes
/// accepts back.
#[verifier::external_body]
fn generate_keypair_bytes() -> (r: Vec<u8>)
    ensures
        r@.len() == 64,
        keypair_valid(r@),
{
    solana_sdk::signer::keypair::Keypair::new().to_bytes().to_vec()
}

/// Relies on solana_sdk Keypair::from_bytes: it succeeds exactly on the
/// well-formed keypair encodings, and on nothing shorter or longer than
/// 64 bytes.
#[verifier::external_body]
fn check_keypair_bytes(b: &Vec<u8>) -> (r: bool)
    ensures
        r == keypair_valid(b@),
        r ==> b@.len() == 64,
{
    solana_sdk::signer::keypair::Keypair::from_bytes(b).is_ok()
}

/// Relies on solana_sdk Keypair::sign_message and Signature::verify:
/// signing depends on the keypair bytes and the message alone, yields 64
/// bytes, and the produced signature verifies against the keypair's
/// public half.
#[verifier::external_body]
pub(crate) fn ed25519_sign(kp: &Vec<u8>, msg: &Vec<u8>) -> (r: Vec<u8>)
    requires
        kp@.len() == 64,
        keypair_valid(kp@),
    ensures
        r@ == signature_of(kp@, msg@),
        r@.len() == 64,
        sig_verify_of(r@, keypair_address(kp@), msg@),
{
    let keypair = solana_sdk::signer::keypair::Keypair::from_bytes(kp).unwrap();
    let sig = keypair.sign_message(msg);
    sig.as_ref().to_vec()
}

/// Relies on solana_sdk Signature::verify: a pure function of the
/// signature, public-key bytes and message; a malformed public key
/// verifies as false rather than failing.
#[verifier::external_body]
pub(crate) fn ed25519_verify(sig: &Vec<u8>, pk: &Vec<u8>, msg: &Vec<u8>) -> (r: bool)
    requires
        sig@.len() == 64,
    ensures
        r == sig_verify_of(sig@, pk@, msg@),
{
    let s = solana_sdk::signature::Signature::try_from(sig.as_slice()).unwrap();
    s.verify(pk.as_slice(), msg.as_slice())
}

/// An ed25519 signing identity: 64 bytes, the secret half followed by
/// the public half. Held in memory only; never persisted.
pub struct Keypair {
    bytes: Vec<u8>,
}

impl View for Keypair {
    type V = Seq<u8>;

    closed spec fn view(&self) -> Seq<u8> {
        self.bytes@
    }
}

impl Keypair {
    /// Every keypair holds a well-formed 64-byte encoding.
    #[verifier::type_invariant]
    pub open spec fn wf(self) -> bool {
        self@.len() == 64 && keypair_valid(self@)
    }

    /// A fresh keypair from cryptographically random material.
    pub fn generate() -> (r: Keypair)
        ensures
            r@.len() == 64,
    {
        let bytes = generate_keypair_bytes();
        Keypair { bytes }
    }

    /// Recovers a keypair from its base58 text encoding; rejects text
    /// that is not well-formed base58 or does not decode to a
    /// well-formed 64-byte keypair.
    pub fn from_base58(s: &str) -> (r: Result<Keypair, WalletError>)
        ensures
            (r is Ok) == (base58_decode_of(s@) matches Some(b) && keypair_valid(b)),
            r matches Ok(kp) ==> base58_decode_of(s@) == Some(kp@),
            r is Err ==> r == Err::<Keypair, WalletError>(WalletError::InvalidKeyEncoding),
    {
        match b58_decode(s) {
            Some(bytes) => {
                if check_keypair_bytes(&bytes) {
                    Ok(Keypair { bytes })
                } else {
                    Err(WalletError::InvalidKeyEncoding)
                }
            },
            None => Err(WalletError::InvalidKeyEncoding),
        }
    }

    /// The reversible base58 text encoding of the full keypair.
    pub fn to_base58(&self) -> (r: String)
        ensures
            r@ == base58_of(self@),
            base58_decode_of(r@) == Some(self@),
    {
        b58_encode(&self.bytes)
    }

    /// This keypair's public address: the public half of its bytes.
    pub fn address(&self) -> (a: Address)
        ensures
            a@ == keypair_address(self@),
    {
        proof {
            use_type_invariant(self);
        }
        let half = vstd::slice::slice_subrange(self.bytes.as_slice(), 32, 64);
        Address::from_fixed(vstd::slice::slice_to_vec(half))
    }

    /// The full 64 bytes, for the signing primitives.
    pub(crate) fn secret_ref(&self) -> (r: &Vec<u8>)
        ensures
            r@ == self@,
    {
        &self.bytes
    }
}

/// Law: the keypair text encoding is reversible — decoding what
/// `to_base58` produced always succeeds and yields a keypair with the
/// same bytes, hence the same address.
pub fn keypair_encoding_round_trips(kp: &Keypair) -> (r: bool)
    ensures
        r,
{
    proof {
        use_type_invariant(kp);
    }
    let text = kp.to_base58();
    match Keypair::from_base58(text.as_str()) {
        Ok(recovered) => {
            let a = recovered.address();
            let b = kp.address();
            a.same_as(&b)
        },
        Err(_) => false,
    }
}

} // verus!
