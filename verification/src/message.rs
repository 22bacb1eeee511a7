use vstd::prelude::*;

use crate::address::Address;
use crate::base58::{b58_decode, b58_encode, base58_decode_of, base58_of};
use crate::errors::WalletError;
use crate::keys::{ed25519_sign, ed25519_verify, keypair_address, sig_verify_of, signature_of,
    Keypair};

verus! {

/// A 64-byte ed25519 signature over some message.
pub struct Signature {
    bytes: Vec<u8>,
}

impl View for Signature {
    type V = Seq<u8>;

    closed spec fn view(&self) -> Seq<u8> {
        self.bytes@
    }
}

impl Signature {
    /// Every signature is exactly 64 bytes.
    #[verifier::type_invariant]
    pub open spec fn wf(self) -> bool {
        self@.len() == 64
    }

    /// A signature from raw bytes; rejects any length other than 64.
    pub fn from_bytes(bytes: Vec<u8>) -> (r: Result<Signature, WalletError>)
        ensures
            bytes@.len() == 64 ==> (r matches Ok(s) && s@ == bytes@),
            bytes@.len() != 64 ==> r == Err::<Signature, WalletError>(
                WalletError::InvalidSignatureEncoding,
            ),
    {
        if bytes.len() == 64 {
            Ok(Signature { bytes })
        } else {
            Err(WalletError::InvalidSignatureEncoding)
        }
    }

    /// Parses the base58 text encoding of a signature: well-formed
    /// base58 that decodes to exactly 64 bytes.
    pub fn from_base58(s: &str) -> (r: Result<Signature, WalletError>)
        ensures
            (r is Ok) == (base58_decode_of(s@) matches Some(b) && b.len() == 64),
            r matches Ok(sig) ==> base58_decode_of(s@) == Some(sig@),
            r is Err ==> r == Err::<Signature, WalletError>(
                WalletError::InvalidSignatureEncoding,
            ),
    {
        match b58_decode(s) {
            Some(bytes) => {
                if bytes.len() == 64 {
                    Ok(Signature { bytes })
                } else {
                    Err(WalletError::InvalidSignatureEncoding)
                }
            },
            None => Err(WalletError::InvalidSignatureEncoding),
        }
    }

    /// The base58 text encoding of this signature.
    pub fn to_base58(&self) -> (r: String)
        ensures
            r@ == base58_of(self@),
            base58_decode_of(r@) == Some(self@),
    {
        b58_encode(&self.bytes)
    }

    /// The 64 raw bytes.
    pub fn as_bytes(&self) -> (r: &Vec<u8>)
        ensures
            r@ == self@,
    {
        &self.bytes
    }
}

/// Signs `msg` with `kp`. The result is the deterministic ed25519
/// signature of the message under the keypair's secret half, and it
/// verifies against the keypair's address.
pub fn sign_message(kp: &Keypair, msg: &Vec<u8>) -> (r: Signature)
    ensures
        r@ == signature_of(kp@, msg@),
        sig_verify_of(r@, keypair_address(kp@), msg@),
{
    proof {
        use_type_invariant(kp);
    }
    let bytes = ed25519_sign(kp.secret_ref(), msg);
    Signature { bytes }
}

/// Verifies `sig` against the public key `address` over `msg`. A
/// well-formed signature that does not match returns false; that is a
/// normal return, not a failure.
pub fn verify_message(sig: &Signature, address: &Address, msg: &Vec<u8>) -> (r: bool)
    ensures
        r == sig_verify_of(sig@, address@, msg@),
{
    proof {
        use_type_invariant(sig);
    }
    ed25519_verify(sig.as_bytes(), address.as_bytes(), msg)
}

/// Law: a message signed with a keypair verifies against that keypair's
/// address, for every keypair and every message, the empty one included.
pub fn signed_message_verifies(kp: &Keypair, msg: &Vec<u8>) -> (r: bool)
    ensures
        r,
{
    let sig = sign_message(kp, msg);
    let address = kp.address();
    verify_message(&sig, &address, msg)
}

} // verus!
