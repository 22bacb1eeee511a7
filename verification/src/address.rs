use vstd::prelude::*;

use crate::base58::{b58_decode, b58_encode, base58_decode_of, base58_of};
use crate::errors::WalletError;

verus! {

/// A 32-byte identifier naming an account on the ledger.
///
/// An address is either the public half of a keypair or an address
/// derived deterministically from other addresses; both are plain
/// 32-byte strings here.
pub struct Address {
    bytes: Vec<u8>,
}

impl View for Address {
    type V = Seq<u8>;

    closed spec fn view(&self) -> Seq<u8> {
        self.bytes@
    }
}

impl Address {
    /// Every address is exactly 32 bytes.
    #[verifier::type_invariant]
    pub open spec fn wf(self) -> bool {
        self@.len() == 32
    }

    /// Wraps bytes already known to be 32 long.
    pub(crate) fn from_fixed(bytes: Vec<u8>) -> (a: Address)
        requires
            bytes@.len() == 32,
        ensures
            a@ == bytes@,
    {
        Address { bytes }
    }

    /// An address from raw bytes; rejects any length other than 32.
    pub fn from_bytes(bytes: Vec<u8>) -> (r: Result<Address, WalletError>)
        ensures
            bytes@.len() == 32 ==> (r matches Ok(a) && a@ == bytes@),
            bytes@.len() != 32 ==> r == Err::<Address, WalletError>(
                WalletError::InvalidAddressEncoding,
            ),
    {
        if bytes.len() == 32 {
            Ok(Address { bytes })
        } else {
            Err(WalletError::InvalidAddressEncoding)
        }
    }

    /// Parses the base58 text encoding of an address: well-formed base58
    /// that decodes to exactly 32 bytes.
    pub fn from_base58(s: &str) -> (r: Result<Address, WalletError>)
        ensures
            (r is Ok) == (base58_decode_of(s@) matches Some(b) && b.len() == 32),
            r matches Ok(a) ==> base58_decode_of(s@) == Some(a@),
            r is Err ==> r == Err::<Address, WalletError>(WalletError::InvalidAddressEncoding),
    {
        match b58_decode(s) {
            Some(bytes) => {
                if bytes.len() == 32 {
                    Ok(Address { bytes })
                } else {
                    Err(WalletError::InvalidAddressEncoding)
                }
            },
            None => Err(WalletError::InvalidAddressEncoding),
        }
    }

    /// The base58 text encoding of this address.
    pub fn to_base58(&self) -> (r: String)
        ensures
            r@ == base58_of(self@),
            base58_decode_of(r@) == Some(self@),
    {
        b58_encode(&self.bytes)
    }

    /// The 32 raw bytes.
    pub fn as_bytes(&self) -> (r: &Vec<u8>)
        ensures
            r@ == self@,
    {
        &self.bytes
    }

    /// Byte-for-byte equality of two addresses.
    pub fn same_as(&self, other: &Address) -> (r: bool)
        ensures
            r == (self@ == other@),
    {
        proof {
            use_type_invariant(self);
            use_type_invariant(other);
        }
        let mut i: usize = 0;
        while i < 32
            invariant
                self@.len() == 32,
                other@.len() == 32,
                i <= 32,
                forall|k: int| 0 <= k < i ==> self@[k] == other@[k],
            decreases 32 - i,
        {
            if self.bytes[i] != other.bytes[i] {
                return false;
            }
            i += 1;
        }
        proof {
            assert(self@ =~= other@);
        }
        true
    }
}

impl Clone for Address {
    fn clone(&self) -> (r: Self)
        ensures
            r@ == self@,
    {
        proof {
            use_type_invariant(self);
        }
        Address { bytes: vstd::slice::slice_to_vec(self.bytes.as_slice()) }
    }
}

} // verus!
