use vstd::prelude::*;

use crate::address::Address;
use crate::derive::{ata_of, derive_token_account};
use crate::errors::WalletError;
use crate::instruction::{create_account, initialize_mint, is_create_account_ix,
    is_initialize_mint_ix, is_transfer_ix, opt_addr_view, token_program_id, transfer, Instruction};
use crate::keys::Keypair;
use crate::transaction::{assemble, sign, LedgerEvent};
use solana_sdk::program_pack::Pack;

verus! {

/// The byte size of a mint account on the ledger.
pub open spec fn mint_account_space() -> u64 {
    82
}

/// Relies on spl_token::state::Mint::LEN: the packed size of a mint
/// account is 82 bytes.
#[verifier::external_body]
fn mint_len() -> (r: u64)
    ensures
        r == mint_account_space(),
{
    spl_token::state::Mint::LEN as u64
}

/// The byte size of a mint account, as callers need it when querying
/// the rent-exempt minimum for one.
pub fn mint_account_len() -> (r: u64)
    ensures
        r == mint_account_space(),
{
    mint_len()
}

/// Relies on spl_token::id(): the token program's identifier, whose 32
/// bytes `token_program_id` states.
#[verifier::external_body]
fn spl_token_id_bytes() -> (r: Vec<u8>)
    ensures
        r@ == token_program_id(),
{
    spl_token::id().to_bytes().to_vec()
}

/// The token program's address.
pub fn token_program_address() -> (a: Address)
    ensures
        a@ == token_program_id(),
{
    let bytes = spl_token_id_bytes();
    Address::from_fixed(bytes)
}

/// Checks a requested decimal count against the network's valid range
/// of 0 to 255, before anything is built or any network call is made.
pub fn validate_decimals(decimals: i64) -> (r: Result<u8, WalletError>)
    ensures
        0 <= decimals <= 255 ==> (r matches Ok(d) && d == decimals),
        !(0 <= decimals <= 255) ==> r == Err::<u8, WalletError>(WalletError::InvalidParameter),
{
    if 0 <= decimals && decimals <= 255 {
        Ok(decimals as u8)
    } else {
        Err(WalletError::InvalidParameter)
    }
}

/// Plans the create-and-initialize-mint flow: the create-account and
/// initialize-mint instructions, in order, meant for one transaction so
/// that the pair lands atomically — both succeed or neither does.
///
/// `rent_lamports` is the rent-exempt minimum that the ledger client
/// reported for a mint-sized account. A decimal count outside 0 to 255
/// is rejected with `InvalidParameter` and nothing is built.
pub fn plan_mint_creation(
    payer: &Address,
    mint: &Address,
    mint_authority: &Address,
    freeze_authority: &Option<Address>,
    decimals: i64,
    rent_lamports: u64,
) -> (r: Result<Vec<Instruction>, WalletError>)
    ensures
        !(0 <= decimals <= 255) ==> r == Err::<Vec<Instruction>, WalletError>(
            WalletError::InvalidParameter,
        ),
        0 <= decimals <= 255 ==> (r matches Ok(v) && v@.len() == 2 && is_create_account_ix(
            v@[0],
            payer@,
            mint@,
            rent_lamports,
            mint_account_space(),
            token_program_id(),
        ) && is_initialize_mint_ix(
            v@[1],
            mint@,
            mint_authority@,
            opt_addr_view(*freeze_authority),
            decimals as u8,
        )),
{
    let init = match initialize_mint(mint, mint_authority, freeze_authority, decimals) {
        Ok(ix) => ix,
        Err(e) => {
            return Err(e);
        },
    };
    let owner = token_program_address();
    let space = mint_len();
    let create = create_account(payer, mint, rent_lamports, space, &owner);
    let mut v: Vec<Instruction> = Vec::new();
    v.push(create);
    v.push(init);
    Ok(v)
}

/// Law: the create-and-initialize-mint flow is atomic. Its two
/// instructions ride in one transaction, so when the ledger rejects
/// that transaction the whole flow settles to `LedgerRejected` and
/// yields no confirmation — there is no path on which the account was
/// created but the mint left uninitialized. Shown here for every input:
/// whatever the parameters and signers, a rejected submission never
/// produces a confirmation.
pub fn mint_creation_rejected_confirms_nothing(
    payer: &Address,
    mint: &Address,
    mint_authority: &Address,
    freeze_authority: &Option<Address>,
    decimals: i64,
    rent_lamports: u64,
    freshness_token: Vec<u8>,
    signers: &Vec<Keypair>,
) -> (r: bool)
    ensures
        r,
{
    let plan = match plan_mint_creation(
        payer,
        mint,
        mint_authority,
        freeze_authority,
        decimals,
        rent_lamports,
    ) {
        Ok(p) => p,
        // Rejected before anything was built: no transaction exists.
        Err(_) => {
            return true;
        },
    };
    let tx = match assemble(plan, payer.clone(), Some(freshness_token)) {
        Ok(t) => t,
        Err(_) => {
            return true;
        },
    };
    let signed = match sign(tx, signers) {
        Ok(s) => s,
        // Never signed, so never submitted.
        Err(_) => {
            return true;
        },
    };
    match signed.settle(LedgerEvent::Rejected) {
        // The pair failed together; no mint and no identifier came back.
        Err(WalletError::LedgerRejected) => true,
        _ => false,
    }
}

/// Plans the token transfer flow: derives the owner's and the
/// destination's associated token accounts for `mint` and builds the
/// single transfer instruction, authorized by the owner. Both token
/// accounts are assumed to exist already; building never fails.
pub fn plan_token_transfer(
    owner: &Address,
    destination: &Address,
    mint: &Address,
    amount: u64,
) -> (r: Vec<Instruction>)
    ensures
        r@.len() == 1,
        is_transfer_ix(
            r@[0],
            ata_of(owner@, mint@),
            ata_of(destination@, mint@),
            owner@,
            amount,
        ),
{
    let source = derive_token_account(owner, mint);
    let destination_account = derive_token_account(destination, mint);
    let ix = transfer(&source, &destination_account, owner, amount);
    let mut v: Vec<Instruction> = Vec::new();
    v.push(ix);
    v
}

} // verus!
