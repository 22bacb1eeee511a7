use solwallet::errors::WalletError;
use solwallet::derive::derive_token_account;
use solwallet::flows::{plan_mint_creation, plan_token_transfer};
use solwallet::instruction::Instruction;
use solwallet::keys::Keypair;
use solwallet::message::sign_message;
use solwallet::transaction::{assemble, required_signer_addresses, sign, Confirmation,
    LedgerEvent};

fn mint_plan(payer: &Keypair, mint: &Keypair, authority: &Keypair) -> Vec<Instruction> {
    plan_mint_creation(
        &payer.address(),
        &mint.address(),
        &authority.address(),
        &None,
        9,
        1_461_600,
    )
    .unwrap()
}

#[test]
fn assemble_rejects_empty_instruction_list() {
    let payer = Keypair::generate();
    let r = assemble(Vec::new(), payer.address(), Some(vec![1u8; 32]));
    assert!(matches!(r, Err(WalletError::InvalidParameter)));
}

#[test]
fn assemble_without_freshness_token_is_ledger_unavailable() {
    let payer = Keypair::generate();
    let mint = Keypair::generate();
    let authority = Keypair::generate();
    let plan = mint_plan(&payer, &mint, &authority);
    let r = assemble(plan, payer.address(), None);
    assert!(matches!(r, Err(WalletError::LedgerUnavailable)));
}

#[test]
fn assemble_keeps_instructions_payer_and_token() {
    let payer = Keypair::generate();
    let mint = Keypair::generate();
    let authority = Keypair::generate();
    let plan = mint_plan(&payer, &mint, &authority);
    let tx = assemble(plan, payer.address(), Some(vec![7u8; 32])).unwrap();
    assert_eq!(tx.instructions().len(), 2);
    assert!(tx.fee_payer().same_as(&payer.address()));
    assert_eq!(tx.freshness_token(), &vec![7u8; 32]);
}

#[test]
fn required_signers_are_payer_and_created_mint_once_each() {
    let payer = Keypair::generate();
    let mint = Keypair::generate();
    let authority = Keypair::generate();
    let plan = mint_plan(&payer, &mint, &authority);
    let req = required_signer_addresses(&plan, &payer.address());
    assert_eq!(req.len(), 2);
    assert!(req[0].same_as(&payer.address()));
    assert!(req[1].same_as(&mint.address()));
}

#[test]
fn sign_succeeds_with_exactly_the_required_signers() {
    let payer = Keypair::generate();
    let mint = Keypair::generate();
    let authority = Keypair::generate();
    let payer_addr = payer.address();
    let mint_addr = mint.address();
    let plan = mint_plan(&payer, &mint, &authority);
    let tx = assemble(plan, payer.address(), Some(vec![7u8; 32])).unwrap();
    let signed = sign(tx, &vec![payer, mint]).unwrap();
    let signers = signed.signer_addresses();
    assert_eq!(signers.len(), 2);
    assert!(signers[0].same_as(&payer_addr));
    assert!(signers[1].same_as(&mint_addr));
    // The wire transaction carries one signature per required signer,
    // and each one checks out against the serialized message.
    assert_eq!(signed.transaction().signatures.len(), 2);
    assert!(signed.transaction().verify().is_ok());
}

#[test]
fn sign_with_missing_signer_fails() {
    let payer = Keypair::generate();
    let mint = Keypair::generate();
    let authority = Keypair::generate();
    let plan = mint_plan(&payer, &mint, &authority);
    let tx = assemble(plan, payer.address(), Some(vec![7u8; 32])).unwrap();
    let r = sign(tx, &vec![payer]);
    assert!(matches!(r, Err(WalletError::MissingSigner)));
}

#[test]
fn sign_with_irrelevant_extra_signer_fails() {
    let payer = Keypair::generate();
    let mint = Keypair::generate();
    let authority = Keypair::generate();
    let stranger = Keypair::generate();
    let plan = mint_plan(&payer, &mint, &authority);
    let tx = assemble(plan, payer.address(), Some(vec![7u8; 32])).unwrap();
    let r = sign(tx, &vec![payer, mint, stranger]);
    assert!(matches!(r, Err(WalletError::SignerMismatch)));
}

#[test]
fn settle_classifies_every_ledger_answer() {
    let payer = Keypair::generate();
    let mint = Keypair::generate();
    let authority = Keypair::generate();

    let build_signed = |reply: LedgerEvent| -> Result<Confirmation, WalletError> {
        let plan = mint_plan(&payer, &mint, &authority);
        let tx = assemble(plan, payer.address(), Some(vec![7u8; 32])).unwrap();
        let kp_payer = Keypair::from_base58(&payer.to_base58()).unwrap();
        let kp_mint = Keypair::from_base58(&mint.to_base58()).unwrap();
        let signed = sign(tx, &vec![kp_payer, kp_mint]).unwrap();
        signed.settle(reply)
    };

    let ok = build_signed(LedgerEvent::Confirmed { transaction_id: "sig123".to_string() });
    assert_eq!(ok.unwrap().transaction_id, "sig123");
    assert!(matches!(
        build_signed(LedgerEvent::Rejected),
        Err(WalletError::LedgerRejected)
    ));
    assert!(matches!(
        build_signed(LedgerEvent::Unreachable),
        Err(WalletError::LedgerUnavailable)
    ));
    assert!(matches!(
        build_signed(LedgerEvent::TimedOut),
        Err(WalletError::LedgerTimeout)
    ));
}

#[test]
fn transfer_plan_uses_derived_token_accounts() {
    let owner = Keypair::generate().address();
    let destination = Keypair::generate().address();
    let mint = Keypair::generate().address();
    let plan = plan_token_transfer(&owner, &destination, &mint, 42);
    assert_eq!(plan.len(), 1);
    let ix = &plan[0];
    assert!(ix.accounts[0].address.same_as(&derive_token_account(&owner, &mint)));
    assert!(ix.accounts[1].address.same_as(&derive_token_account(&destination, &mint)));
    assert!(ix.accounts[2].address.same_as(&owner));
}

#[test]
fn transfer_transaction_requires_only_the_owner() {
    let owner = Keypair::generate();
    let destination = Keypair::generate().address();
    let mint = Keypair::generate().address();
    let owner_addr = owner.address();
    let plan = plan_token_transfer(&owner_addr, &destination, &mint, 42);
    let tx = assemble(plan, owner.address(), Some(vec![9u8; 32])).unwrap();
    let req = required_signer_addresses(tx.instructions(), tx.fee_payer());
    assert_eq!(req.len(), 1);
    assert!(req[0].same_as(&owner_addr));
    let signed = sign(tx, &vec![owner]).unwrap();
    assert_eq!(signed.signer_addresses().len(), 1);
}

#[test]
fn signing_an_unsigned_transfer_with_no_keys_fails() {
    let owner = Keypair::generate();
    let destination = Keypair::generate().address();
    let mint = Keypair::generate().address();
    let plan = plan_token_transfer(&owner.address(), &destination, &mint, 42);
    let tx = assemble(plan, owner.address(), Some(vec![9u8; 32])).unwrap();
    let r = sign(tx, &Vec::new());
    assert!(matches!(r, Err(WalletError::MissingSigner)));
}

#[test]
fn message_signature_is_reusable_across_message_types() {
    // A signature is bound to the exact bytes signed: a transaction's
    // freshness token bytes signed as a message do not verify as some
    // other byte string.
    let kp = Keypair::generate();
    let token: Vec<u8> = vec![7u8; 32];
    let other: Vec<u8> = vec![8u8; 32];
    let sig = sign_message(&kp, &token);
    let addr = kp.address();
    assert!(solwallet::message::verify_message(&sig, &addr, &token));
    assert!(!solwallet::message::verify_message(&sig, &addr, &other));
}

#[test]
fn mint_plan_funds_and_sizes_the_account_for_a_mint() {
    let payer = Keypair::generate();
    let mint = Keypair::generate();
    let authority = Keypair::generate();
    let plan = mint_plan(&payer, &mint, &authority);
    // Lamports and space ride in the create-account payload.
    assert_eq!(&plan[0].data[4..12], &1_461_600u64.to_le_bytes());
    assert_eq!(&plan[0].data[12..20], &82u64.to_le_bytes());
    // The requested decimal count rides in the initialize-mint payload.
    assert_eq!(plan[1].data[1], 9);
}
