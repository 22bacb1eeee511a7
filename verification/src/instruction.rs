use vstd::prelude::*;

use crate::address::Address;
use crate::errors::WalletError;
use solana_sdk::pubkey::Pubkey;

verus! {

/// One account referenced by an instruction, tagged with whether it
/// must sign the transaction and whether the program may write it.
pub struct AccountMeta {
    pub address: Address,
    pub is_signer: bool,
    pub is_writable: bool,
}

/// One immutable unit of intent for a single on-ledger program: the
/// target program, the ordered account references, and opaque payload
/// bytes.
pub struct Instruction {
    pub program_id: Address,
    pub accounts: Vec<AccountMeta>,
    pub data: Vec<u8>,
}

/// The token program's fixed 32-byte identifier.
pub open spec fn token_program_id() -> Seq<u8> {
    seq![
        6u8, 221u8, 246u8, 225u8, 215u8, 101u8, 161u8, 147u8,
        217u8, 203u8, 225u8, 70u8, 206u8, 235u8, 121u8, 172u8,
        28u8, 180u8, 133u8, 237u8, 95u8, 91u8, 55u8, 145u8,
        58u8, 140u8, 245u8, 133u8, 126u8, 255u8, 0u8, 169u8,
    ]
}

/// The system program's identifier: 32 zero bytes.
pub open spec fn system_program_id() -> Seq<u8> {
    Seq::new(32, |i: int| 0u8)
}

/// The rent sysvar's fixed 32-byte identifier.
pub open spec fn rent_sysvar_id() -> Seq<u8> {
    seq![
        6u8, 167u8, 213u8, 23u8, 25u8, 44u8, 92u8, 81u8,
        33u8, 140u8, 201u8, 76u8, 61u8, 74u8, 241u8, 127u8,
        88u8, 218u8, 238u8, 8u8, 155u8, 161u8, 253u8, 68u8,
        227u8, 219u8, 217u8, 138u8, 0u8, 0u8, 0u8, 0u8,
    ]
}

/// The eight little-endian bytes of `x`.
pub open spec fn u64_le_bytes(x: u64) -> Seq<u8> {
    seq![
        (x & 0xff) as u8,
        ((x >> 8) & 0xff) as u8,
        ((x >> 16) & 0xff) as u8,
        ((x >> 24) & 0xff) as u8,
        ((x >> 32) & 0xff) as u8,
        ((x >> 40) & 0xff) as u8,
        ((x >> 48) & 0xff) as u8,
        ((x >> 56) & 0xff) as u8,
    ]
}

/// The payload of a system-program create-account instruction: the
/// 4-byte little-endian variant tag 0, then lamports, space, and the
/// new account's owning program.
pub open spec fn create_account_data(lamports: u64, space: u64, owner: Seq<u8>) -> Seq<u8> {
    seq![0u8, 0u8, 0u8, 0u8] + u64_le_bytes(lamports) + u64_le_bytes(space) + owner
}

/// The payload of a token-program initialize-mint instruction: tag 0,
/// the decimals, the mint authority, then the optional freeze authority
/// as tag 1 plus its address when present and tag 0 when absent.
pub open spec fn initialize_mint_data(
    decimals: u8,
    authority: Seq<u8>,
    freeze: Option<Seq<u8>>,
) -> Seq<u8> {
    match freeze {
        Some(f) => seq![0u8, decimals] + authority + seq![1u8] + f,
        None => seq![0u8, decimals] + authority + seq![0u8],
    }
}

/// The payload of a token-program transfer instruction: tag 3 and the
/// amount of base units, little endian.
pub open spec fn transfer_data(amount: u64) -> Seq<u8> {
    seq![3u8] + u64_le_bytes(amount)
}

/// The view of an optional address.
pub open spec fn opt_addr_view(o: Option<Address>) -> Option<Seq<u8>> {
    match o {
        Some(a) => Some(a@),
        None => None,
    }
}

/// `ix` asks the system program to create `new_account` funded by
/// `payer` with `lamports`, sized `space`, owned by `owner`; both the
/// payer and the created account must sign.
pub open spec fn is_create_account_ix(
    ix: Instruction,
    payer: Seq<u8>,
    new_account: Seq<u8>,
    lamports: u64,
    space: u64,
    owner: Seq<u8>,
) -> bool {
    &&& ix.program_id@ == system_program_id()
    &&& ix.accounts@.len() == 2
    &&& ix.accounts@[0].address@ == payer
    &&& ix.accounts@[0].is_signer
    &&& ix.accounts@[0].is_writable
    &&& ix.accounts@[1].address@ == new_account
    &&& ix.accounts@[1].is_signer
    &&& ix.accounts@[1].is_writable
    &&& ix.data@ == create_account_data(lamports, space, owner)
}

/// `ix` asks the token program to initialize `mint` with the given
/// authorities and decimals; no account signs, and the rent sysvar is
/// read.
pub open spec fn is_initialize_mint_ix(
    ix: Instruction,
    mint: Seq<u8>,
    authority: Seq<u8>,
    freeze: Option<Seq<u8>>,
    decimals: u8,
) -> bool {
    &&& ix.program_id@ == token_program_id()
    &&& ix.accounts@.len() == 2
    &&& ix.accounts@[0].address@ == mint
    &&& !ix.accounts@[0].is_signer
    &&& ix.accounts@[0].is_writable
    &&& ix.accounts@[1].address@ == rent_sysvar_id()
    &&& !ix.accounts@[1].is_signer
    &&& !ix.accounts@[1].is_writable
    &&& ix.data@ == initialize_mint_data(decimals, authority, freeze)
}

/// `ix` asks the token program to move `amount` base units from
/// `source` to `destination`, authorized by `owner` as the sole signer.
pub open spec fn is_transfer_ix(
    ix: Instruction,
    source: Seq<u8>,
    destination: Seq<u8>,
    owner: Seq<u8>,
    amount: u64,
) -> bool {
    &&& ix.program_id@ == token_program_id()
    &&& ix.accounts@.len() == 3
    &&& ix.accounts@[0].address@ == source
    &&& !ix.accounts@[0].is_signer
    &&& ix.accounts@[0].is_writable
    &&& ix.accounts@[1].address@ == destination
    &&& !ix.accounts@[1].is_signer
    &&& ix.accounts@[1].is_writable
    &&& ix.accounts@[2].address@ == owner
    &&& ix.accounts@[2].is_signer
    &&& !ix.accounts@[2].is_writable
    &&& ix.data@ == transfer_data(amount)
}

/// Relies on solana_sdk system_instruction::create_account: it returns
/// the system-program instruction with the payer and the new account as
/// writable signers and the bincode payload stated here.
#[verifier::external_body]
fn sys_create_account(
    payer: &Address,
    new_account: &Address,
    lamports: u64,
    space: u64,
    owner: &Address,
) -> (r: Instruction)
    ensures
        is_create_account_ix(r, payer@, new_account@, lamports, space, owner@),
{
    let ix = solana_sdk::system_instruction::create_account(
        &Pubkey::try_from(payer.as_bytes().as_slice()).unwrap(),
        &Pubkey::try_from(new_account.as_bytes().as_slice()).unwrap(),
        lamports, space,
        &Pubkey::try_from(owner.as_bytes().as_slice()).unwrap());
    Instruction {
        program_id: Address::from_fixed(ix.program_id.to_bytes().to_vec()),
        accounts: ix.accounts.iter().map(|a| AccountMeta {
            address: Address::from_fixed(a.pubkey.to_bytes().to_vec()),
            is_signer: a.is_signer, is_writable: a.is_writable }).collect(),
        data: ix.data,
    }
}

/// Relies on spl_token::instruction::initialize_mint, called with
/// spl_token's own program id: it returns the token-program instruction
/// with the mint and the rent sysvar as its accounts and the packed
/// payload stated here.
#[verifier::external_body]
fn spl_initialize_mint(
    mint: &Address,
    authority: &Address,
    freeze: &Option<Address>,
    decimals: u8,
) -> (r: Instruction)
    ensures
        is_initialize_mint_ix(r, mint@, authority@, opt_addr_view(*freeze), decimals),
{
    let f = freeze.as_ref().map(|a| Pubkey::try_from(a.as_bytes().as_slice()).unwrap());
    let ix = spl_token::instruction::initialize_mint(&spl_token::id(),
        &Pubkey::try_from(mint.as_bytes().as_slice()).unwrap(),
        &Pubkey::try_from(authority.as_bytes().as_slice()).unwrap(),
        f.as_ref(), decimals).unwrap();
    Instruction {
        program_id: Address::from_fixed(ix.program_id.to_bytes().to_vec()),
        accounts: ix.accounts.iter().map(|a| AccountMeta {
            address: Address::from_fixed(a.pubkey.to_bytes().to_vec()),
            is_signer: a.is_signer, is_writable: a.is_writable }).collect(),
        data: ix.data,
    }
}

/// Relies on spl_token::instruction::transfer, called with spl_token's
/// own program id and no multisignature signers: it returns the
/// token-program instruction whose accounts and packed payload are
/// stated here.
#[verifier::external_body]
fn spl_transfer(
    source: &Address,
    destination: &Address,
    owner: &Address,
    amount: u64,
) -> (r: Instruction)
    ensures
        is_transfer_ix(r, source@, destination@, owner@, amount),
{
    let ix = spl_token::instruction::transfer(&spl_token::id(),
        &Pubkey::try_from(source.as_bytes().as_slice()).unwrap(),
        &Pubkey::try_from(destination.as_bytes().as_slice()).unwrap(),
        &Pubkey::try_from(owner.as_bytes().as_slice()).unwrap(),
        &[], amount).unwrap();
    Instruction {
        program_id: Address::from_fixed(ix.program_id.to_bytes().to_vec()),
        accounts: ix.accounts.iter().map(|a| AccountMeta {
            address: Address::from_fixed(a.pubkey.to_bytes().to_vec()),
            is_signer: a.is_signer, is_writable: a.is_writable }).collect(),
        data: ix.data,
    }
}

/// Builds the instruction that asks the system program to allocate and
/// fund a new account. `lamports` must cover the rent-exempt minimum
/// for `space`; querying that minimum is the assembler's business, and
/// this builder does no network work.
pub fn create_account(
    payer: &Address,
    new_account: &Address,
    lamports: u64,
    space: u64,
    owning_program: &Address,
) -> (r: Instruction)
    ensures
        is_create_account_ix(r, payer@, new_account@, lamports, space, owning_program@),
{
    sys_create_account(payer, new_account, lamports, space, owning_program)
}

/// Builds the instruction that initializes a mint with the given
/// authorities and decimal count. Decimals outside the network's valid
/// range of 0 to 255 are rejected before anything is built.
pub fn initialize_mint(
    mint: &Address,
    mint_authority: &Address,
    freeze_authority: &Option<Address>,
    decimals: i64,
) -> (r: Result<Instruction, WalletError>)
    ensures
        !(0 <= decimals <= 255) ==> r == Err::<Instruction, WalletError>(
            WalletError::InvalidParameter,
        ),
        0 <= decimals <= 255 ==> (r matches Ok(ix) && is_initialize_mint_ix(
            ix,
            mint@,
            mint_authority@,
            opt_addr_view(*freeze_authority),
            decimals as u8,
        )),
    {
    if decimals < 0 || decimals > 255 {
        return Err(WalletError::InvalidParameter);
    }
    Ok(spl_initialize_mint(mint, mint_authority, freeze_authority, decimals as u8))
}

/// Builds the instruction that moves `amount` base units between two
/// token accounts, authorized by `owner`. No balance check happens at
/// build time; sufficiency is enforced by the network at execution.
pub fn transfer(
    source: &Address,
    destination: &Address,
    owner: &Address,
    amount: u64,
) -> (r: Instruction)
    ensures
        is_transfer_ix(r, source@, destination@, owner@, amount),
{
    spl_transfer(source, destination, owner, amount)
}

} // verus!
