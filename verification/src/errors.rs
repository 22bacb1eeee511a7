use vstd::prelude::*;

verus! {

/// Everything that can go wrong in a wallet or token-transfer flow.
///
/// The first six variants are input faults, detected before any network
/// call is attempted; the three `Ledger*` variants classify failures of
/// the remote node interaction.
#[derive(Clone, Copy, Debug, PartialEq, Eq, Structural)]
pub enum WalletError {
    /// A keypair encoding was not a well-formed 64-byte keypair.
    InvalidKeyEncoding,
    /// An address string or byte string was not a well-formed 32-byte address.
    InvalidAddressEncoding,
    /// A signature encoding was not a well-formed 64-byte signature.
    InvalidSignatureEncoding,
    /// A parameter (such as a decimals value) was outside its valid range.
    InvalidParameter,
    /// A required signer's keypair was not supplied when signing.
    MissingSigner,
    /// A supplied keypair is not among the required signers.
    SignerMismatch,
    /// The ledger node could not be reached.
    LedgerUnavailable,
    /// The ledger node definitively rejected the transaction.
    LedgerRejected,
    /// Confirmation did not arrive in time; the true outcome is unknown.
    LedgerTimeout,
}

/// The HTTP status that reports `e`: input faults map to 400, an
/// unreachable node to 503, and the other ledger failures to 500.
pub open spec fn spec_http_status(e: WalletError) -> u16 {
    match e {
        WalletError::InvalidKeyEncoding => 400,
        WalletError::InvalidAddressEncoding => 400,
        WalletError::InvalidSignatureEncoding => 400,
        WalletError::InvalidParameter => 400,
        WalletError::MissingSigner => 400,
        WalletError::SignerMismatch => 400,
        WalletError::LedgerUnavailable => 503,
        WalletError::LedgerRejected => 500,
        WalletError::LedgerTimeout => 500,
    }
}

impl WalletError {
    /// The HTTP status code that a handler should report for this error.
    pub fn http_status(&self) -> (s: u16)
        ensures
            s == spec_http_status(*self),
    {
        match *self {
            WalletError::InvalidKeyEncoding => 400,
            WalletError::InvalidAddressEncoding => 400,
            WalletError::InvalidSignatureEncoding => 400,
            WalletError::InvalidParameter => 400,
            WalletError::MissingSigner => 400,
            WalletError::SignerMismatch => 400,
            WalletError::LedgerUnavailable => 503,
            WalletError::LedgerRejected => 500,
            WalletError::LedgerTimeout => 500,
        }
    }

    /// Short machine-readable code for error responses.
    pub fn code(&self) -> (r: &'static str)
        ensures
            r@ == match *self {
                WalletError::InvalidKeyEncoding => "InvalidKeyEncoding"@,
                WalletError::InvalidAddressEncoding => "InvalidAddressEncoding"@,
                WalletError::InvalidSignatureEncoding => "InvalidSignatureEncoding"@,
                WalletError::InvalidParameter => "InvalidParameter"@,
                WalletError::MissingSigner => "MissingSigner"@,
                WalletError::SignerMismatch => "SignerMismatch"@,
                WalletError::LedgerUnavailable => "LedgerUnavailable"@,
                WalletError::LedgerRejected => "LedgerRejected"@,
                WalletError::LedgerTimeout => "LedgerTimeout"@,
            },
    {
        match *self {
            WalletError::InvalidKeyEncoding => "InvalidKeyEncoding",
            WalletError::InvalidAddressEncoding => "InvalidAddressEncoding",
            WalletError::InvalidSignatureEncoding => "InvalidSignatureEncoding",
            WalletError::InvalidParameter => "InvalidParameter",
            WalletError::MissingSigner => "MissingSigner",
            WalletError::SignerMismatch => "SignerMismatch",
            WalletError::LedgerUnavailable => "LedgerUnavailable",
            WalletError::LedgerRejected => "LedgerRejected",
            WalletError::LedgerTimeout => "LedgerTimeout",
        }
    }
}

} // verus!
