use vstd::prelude::*;

use crate::address::Address;

verus! {

/// The deterministic associated token account address derived from an
/// owner address and a mint address by the network's hash-based
/// derivation; it is found, not generated, and is backed by no key.
pub uninterp spec fn ata_of(owner: Seq<u8>, mint: Seq<u8>) -> Seq<u8>;

/// Relies on spl_associated_token_account::get_associated_token_address:
/// a pure hash-based derivation from the owner and mint addresses alone,
/// yielding 32 bytes.
#[verifier::external_body]
fn ata_derive(owner: &Address, mint: &Address) -> (r: Vec<u8>)
    ensures
        r@ == ata_of(owner@, mint@),
        r@.len() == 32,
{
    let o = solana_sdk::pubkey::Pubkey::try_from(owner.as_bytes().as_slice()).unwrap();
    let m = solana_sdk::pubkey::Pubkey::try_from(mint.as_bytes().as_slice()).unwrap();
    let ata = spl_associated_token_account::get_associated_token_address(&o, &m);
    ata.to_bytes().to_vec()
}

/// The token account that holds `owner`'s balance of `mint`. Pure and
/// deterministic: any party holding the same two addresses computes the
/// same account.
pub fn derive_token_account(owner: &Address, mint: &Address) -> (r: Address)
    ensures
        r@ == ata_of(owner@, mint@),
{
    Address::from_fixed(ata_derive(owner, mint))
}

/// Law: the derivation is a pure function — two results derived from
/// identical owner and mint inputs are the identical address.
pub proof fn lemma_derive_token_account_pure(
    owner: Seq<u8>,
    mint: Seq<u8>,
    a1: Seq<u8>,
    a2: Seq<u8>,
)
    requires
        a1 == ata_of(owner, mint),
        a2 == ata_of(owner, mint),
    ensures
        a1 == a2,
{
}

} // verus!
