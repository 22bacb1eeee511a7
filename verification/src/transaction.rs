use vstd::prelude::*;

use crate::address::Address;
use crate::errors::WalletError;
use crate::instruction::Instruction;
use crate::keys::{keypair_address, Keypair};
use solana_sdk::hash::Hash as RawHash;
use solana_sdk::instruction::AccountMeta as RawAccountMeta;
use solana_sdk::instruction::Instruction as RawInstruction;
use solana_sdk::pubkey::Pubkey;
use solana_sdk::signer::keypair::Keypair as RawKeypair;
use solana_sdk::transaction::Transaction as RawTransaction;

verus! {

/// The ledger's wire transaction type, carried opaquely from signing to
/// submission.
#[verifier::external_type_specification]
#[verifier::external_body]
pub struct ExRawTransaction(RawTransaction);

/// The ledger's wire instruction type, carried opaquely into signing.
#[verifier::external_type_specification]
#[verifier::external_body]
pub struct ExRawInstruction(RawInstruction);

/// `a` appears among the addresses `s`.
pub open spec fn contains_addr(s: Seq<Address>, a: Seq<u8>) -> bool {
    exists|k: int| 0 <= k < s.len() && s[k]@ == a
}

/// `a` must sign: it is the fee payer, or some instruction marks an
/// account with this address as a signer.
pub open spec fn is_required_signer(
    instrs: Seq<Instruction>,
    fee_payer: Seq<u8>,
    a: Seq<u8>,
) -> bool {
    a == fee_payer || exists|i: int, j: int|
        #![auto]
        0 <= i < instrs.len() && 0 <= j < instrs[i].accounts@.len()
            && instrs[i].accounts@[j].is_signer && instrs[i].accounts@[j].address@ == a
}

/// As `is_required_signer`, counting only the first `n` instructions.
spec fn required_in_first(instrs: Seq<Instruction>, n: int, fee_payer: Seq<u8>, a: Seq<u8>) -> bool {
    a == fee_payer || exists|i: int, j: int|
        #![auto]
        0 <= i < n && 0 <= j < instrs[i].accounts@.len()
            && instrs[i].accounts@[j].is_signer && instrs[i].accounts@[j].address@ == a
}

/// `a` is marked signer among the first `m` accounts of `ix`.
spec fn signer_in_accounts_first(ix: Instruction, m: int, a: Seq<u8>) -> bool {
    exists|q: int|
        #![auto]
        0 <= q < m && ix.accounts@[q].is_signer && ix.accounts@[q].address@ == a
}

/// Every keypair in `signers` covers one required signer, jointly all
/// of them.
pub open spec fn covers_required(
    signers: Seq<Keypair>,
    instrs: Seq<Instruction>,
    fee_payer: Seq<u8>,
) -> bool {
    forall|a: Seq<u8>| #[trigger]
        is_required_signer(instrs, fee_payer, a) ==> exists|j: int|
            0 <= j < signers.len() && keypair_address(signers[j]@) == a
}

/// No keypair in `signers` is irrelevant: each one's address is
/// required.
pub open spec fn no_extra_signers(
    signers: Seq<Keypair>,
    instrs: Seq<Instruction>,
    fee_payer: Seq<u8>,
) -> bool {
    forall|j: int|
        0 <= j < signers.len() ==> is_required_signer(
            instrs,
            fee_payer,
            keypair_address(#[trigger] signers[j]@),
        )
}

proof fn lemma_contains_push(s: Seq<Address>, x: Address, a: Seq<u8>)
    ensures
        contains_addr(s.push(x), a) <==> (contains_addr(s, a) || x@ == a),
{
    if contains_addr(s, a) {
        let k = choose|k: int| 0 <= k < s.len() && s[k]@ == a;
        assert(s.push(x)[k]@ == a);
    }
    if x@ == a {
        assert(s.push(x)[s.len() as int]@ == a);
    }
    if contains_addr(s.push(x), a) {
        let k = choose|k: int| 0 <= k < s.push(x).len() && s.push(x)[k]@ == a;
        if k < s.len() {
            assert(s[k]@ == a);
        } else {
            assert(x@ == a);
        }
    }
}

/// Finds whether `a` occurs in `v`.
#[verifier::loop_isolation(false)]
fn find_addr(v: &Vec<Address>, a: &Address) -> (r: bool)
    ensures
        r == contains_addr(v@, a@),
{
    let mut k: usize = 0;
    while k < v.len()
        invariant
            k <= v@.len(),
            forall|t: int| 0 <= t < k ==> v@[t]@ != a@,
        decreases v@.len() - k,
    {
        if v[k].same_as(a) {
            proof {
                assert(v@[k as int]@ == a@);
            }
            return true;
        }
        k += 1;
    }
    false
}

/// The set of addresses that must sign `instructions` with `fee_payer`
/// paying: the fee payer first, then every signer-marked account, each
/// address once.
#[verifier::loop_isolation(false)]
pub fn required_signer_addresses(instructions: &Vec<Instruction>, fee_payer: &Address) -> (r:
    Vec<Address>)
    ensures
        forall|t: int|
            0 <= t < r@.len() ==> is_required_signer(instructions@, fee_payer@, #[trigger] r@[t]@),
        forall|a: Seq<u8>| #[trigger]
            is_required_signer(instructions@, fee_payer@, a) ==> contains_addr(r@, a),
        forall|t1: int, t2: int| 0 <= t1 < t2 < r@.len() ==> r@[t1]@ != r@[t2]@,
{
    let mut req: Vec<Address> = Vec::new();
    req.push(fee_payer.clone());
    proof {
        assert(req@[0]@ == fee_payer@);
        assert forall|a: Seq<u8>| #[trigger]
            required_in_first(instructions@, 0, fee_payer@, a) implies contains_addr(req@, a) by {
            assert(a == fee_payer@);
            assert(req@[0]@ == a);
        }
    }
    let mut i: usize = 0;
    while i < instructions.len()
        invariant
            i <= instructions@.len(),
            forall|t: int|
                0 <= t < req@.len() ==> required_in_first(
                    instructions@,
                    i as int,
                    fee_payer@,
                    #[trigger] req@[t]@,
                ),
            forall|a: Seq<u8>| #[trigger]
                required_in_first(instructions@, i as int, fee_payer@, a) ==> contains_addr(
                    req@,
                    a,
                ),
            forall|t1: int, t2: int| 0 <= t1 < t2 < req@.len() ==> req@[t1]@ != req@[t2]@,
        decreases instructions@.len() - i,
    {
        let acc_len = instructions[i].accounts.len();
        let mut j: usize = 0;
        while j < acc_len
            invariant
                j <= acc_len,
                forall|t: int|
                    0 <= t < req@.len() ==> (required_in_first(
                        instructions@,
                        i as int,
                        fee_payer@,
                        #[trigger] req@[t]@,
                    ) || signer_in_accounts_first(instructions@[i as int], j as int, req@[t]@)),
                forall|a: Seq<u8>| #[trigger]
                    required_in_first(instructions@, i as int, fee_payer@, a) ==> contains_addr(
                        req@,
                        a,
                    ),
                forall|a: Seq<u8>| #[trigger]
                    signer_in_accounts_first(instructions@[i as int], j as int, a)
                        ==> contains_addr(req@, a),
                forall|t1: int, t2: int| 0 <= t1 < t2 < req@.len() ==> req@[t1]@ != req@[t2]@,
            decreases acc_len - j,
        {
            let is_signer = instructions[i].accounts[j].is_signer;
            if is_signer {
                let a = instructions[i].accounts[j].address.clone();
                if !find_addr(&req, &a) {
                    let ghost before = req@;
                    req.push(a);
                    proof {
                        assert forall|b: Seq<u8>| contains_addr(req@, b) == (contains_addr(
                            before,
                            b,
                        ) || a@ == b) by {
                            lemma_contains_push(before, a, b);
                        }
                    }
                }
            }
            j += 1;
            proof {
                assert forall|b: Seq<u8>| #[trigger]
                    signer_in_accounts_first(
                        instructions@[i as int],
                        j as int,
                        b,
                    ) implies contains_addr(req@, b) by {
                    let q = choose|q: int|
                        0 <= q < j && instructions@[i as int].accounts@[q].is_signer
                            && instructions@[i as int].accounts@[q].address@ == b;
                    if q < j - 1 {
                        assert(signer_in_accounts_first(instructions@[i as int], j - 1, b));
                    }
                }
            }
        }
        i += 1;
        proof {
            assert forall|b: Seq<u8>| #[trigger]
                required_in_first(instructions@, i as int, fee_payer@, b) implies contains_addr(
                req@,
                b,
            ) by {
                if b != fee_payer@ {
                    let (p, q): (int, int) = choose|p: int, q: int|
                        #![auto]
                        0 <= p < i && 0 <= q < instructions@[p].accounts@.len()
                            && instructions@[p].accounts@[q].is_signer
                            && instructions@[p].accounts@[q].address@ == b;
                    if p < i - 1 {
                        assert(required_in_first(instructions@, i - 1, fee_payer@, b));
                    } else {
                        assert(signer_in_accounts_first(instructions@[i - 1], acc_len as int, b));
                    }
                }
            }
            assert forall|t: int| 0 <= t < req@.len() implies required_in_first(
                instructions@,
                i as int,
                fee_payer@,
                #[trigger] req@[t]@,
            ) by {
                if req@[t]@ != fee_payer@ {
                    if required_in_first(instructions@, i - 1, fee_payer@, req@[t]@) {
                    } else {
                        assert(signer_in_accounts_first(
                            instructions@[i - 1],
                            acc_len as int,
                            req@[t]@,
                        ));
                    }
                }
            }
        }
    }
    proof {
        assert forall|a: Seq<u8>| #[trigger]
            is_required_signer(instructions@, fee_payer@, a) implies required_in_first(
            instructions@,
            instructions@.len() as int,
            fee_payer@,
            a,
        ) by {}
        assert forall|t: int| 0 <= t < req@.len() implies is_required_signer(
            instructions@,
            fee_payer@,
            #[trigger] req@[t]@,
        ) by {
            assert(required_in_first(
                instructions@,
                instructions@.len() as int,
                fee_payer@,
                req@[t]@,
            ));
        }
    }
    req
}

/// A transaction in state Built: an ordered, non-empty instruction
/// list, the fee payer, and the freshness token fetched at assembly.
pub struct BuiltTransaction {
    instructions: Vec<Instruction>,
    fee_payer: Address,
    freshness_token: Vec<u8>,
}

/// What a built transaction holds.
pub struct BuiltTransactionView {
    pub instructions: Seq<Instruction>,
    pub fee_payer: Seq<u8>,
    pub freshness_token: Seq<u8>,
}

impl View for BuiltTransaction {
    type V = BuiltTransactionView;

    closed spec fn view(&self) -> BuiltTransactionView {
        BuiltTransactionView {
            instructions: self.instructions@,
            fee_payer: self.fee_payer@,
            freshness_token: self.freshness_token@,
        }
    }
}

impl BuiltTransaction {
    /// At least one instruction, and a 32-byte freshness token.
    #[verifier::type_invariant]
    pub open spec fn wf(self) -> bool {
        self@.instructions.len() >= 1 && self@.freshness_token.len() == 32
    }

    /// The ordered instruction list.
    pub fn instructions(&self) -> (r: &Vec<Instruction>)
        ensures
            r@ == self@.instructions,
    {
        &self.instructions
    }

    /// The fee payer.
    pub fn fee_payer(&self) -> (r: &Address)
        ensures
            r@ == self@.fee_payer,
    {
        &self.fee_payer
    }

    /// The freshness token attached at assembly.
    pub fn freshness_token(&self) -> (r: &Vec<u8>)
        ensures
            r@ == self@.freshness_token,
    {
        &self.freshness_token
    }
}

/// Combines instructions into one transaction in state Built.
///
/// `freshness_token` is what the ledger client's freshness query
/// returned: `None` when the client could not be reached. An empty
/// instruction list is rejected before the token is even looked at, so
/// the input fault is reported whether or not the network was
/// reachable.
pub fn assemble(
    instructions: Vec<Instruction>,
    fee_payer: Address,
    freshness_token: Option<Vec<u8>>,
) -> (r: Result<BuiltTransaction, WalletError>)
    ensures
        instructions@.len() == 0 ==> r == Err::<BuiltTransaction, WalletError>(
            WalletError::InvalidParameter,
        ),
        instructions@.len() >= 1 && !(freshness_token matches Some(t) && t@.len() == 32) ==> r
            == Err::<BuiltTransaction, WalletError>(WalletError::LedgerUnavailable),
        instructions@.len() >= 1 && (freshness_token matches Some(t) && t@.len() == 32) ==> (
        r matches Ok(tx) && tx@.instructions == instructions@ && tx@.fee_payer == fee_payer@
            && tx@.freshness_token == freshness_token->Some_0@),
{
    if instructions.len() == 0 {
        return Err(WalletError::InvalidParameter);
    }
    match freshness_token {
        Some(token) => {
            if token.len() == 32 {
                Ok(BuiltTransaction { instructions, fee_payer, freshness_token: token })
            } else {
                Err(WalletError::LedgerUnavailable)
            }
        },
        None => Err(WalletError::LedgerUnavailable),
    }
}

/// A transaction in state Signed: the built transaction, the addresses
/// whose signatures it now carries, and the ledger's wire form holding
/// those signatures.
pub struct SignedTransaction {
    built: BuiltTransaction,
    signer_addresses: Vec<Address>,
    inner: RawTransaction,
}

/// What a signed transaction holds.
pub struct SignedTransactionView {
    pub instructions: Seq<Instruction>,
    pub fee_payer: Seq<u8>,
    pub freshness_token: Seq<u8>,
    pub signers: Seq<Address>,
}

impl View for SignedTransaction {
    type V = SignedTransactionView;

    closed spec fn view(&self) -> SignedTransactionView {
        SignedTransactionView {
            instructions: self.built@.instructions,
            fee_payer: self.built@.fee_payer,
            freshness_token: self.built@.freshness_token,
            signers: self.signer_addresses@,
        }
    }
}

impl SignedTransaction {
    /// State Signed carries exactly one signer entry per required
    /// signer: every required signer appears, nothing else appears, and
    /// no address appears twice.
    #[verifier::type_invariant]
    pub open spec fn wf(self) -> bool {
        &&& self@.instructions.len() >= 1
        &&& self@.freshness_token.len() == 32
        &&& forall|a: Seq<u8>| #[trigger]
            contains_addr(self@.signers, a) <==> is_required_signer(
                self@.instructions,
                self@.fee_payer,
                a,
            )
        &&& forall|t1: int, t2: int|
            0 <= t1 < t2 < self@.signers.len() ==> self@.signers[t1]@ != self@.signers[t2]@
    }

    /// The addresses that have signed, one entry each.
    pub fn signer_addresses(&self) -> (r: &Vec<Address>)
        ensures
            r@ == self@.signers,
    {
        &self.signer_addresses
    }

    /// The ledger's wire transaction, ready for submission.
    pub fn transaction(&self) -> &RawTransaction {
        &self.inner
    }

    /// Submission settled: consumes the signed transaction and
    /// classifies what the ledger reported. Only a confirmation yields
    /// a transaction identifier; every failure is an error, so no
    /// partial success is representable.
    pub fn settle(self, event: LedgerEvent) -> (r: Result<Confirmation, WalletError>)
        ensures
            (r is Ok) == (event is Confirmed),
            (event matches LedgerEvent::Confirmed { transaction_id } ==> (r matches Ok(c)
                && c.transaction_id@ == transaction_id@)),
            event is Rejected ==> r == Err::<Confirmation, WalletError>(
                WalletError::LedgerRejected,
            ),
            event is Unreachable ==> r == Err::<Confirmation, WalletError>(
                WalletError::LedgerUnavailable,
            ),
            event is TimedOut ==> r == Err::<Confirmation, WalletError>(WalletError::LedgerTimeout),
    {
        match event {
            LedgerEvent::Confirmed { transaction_id } => Ok(Confirmation { transaction_id }),
            LedgerEvent::Rejected => Err(WalletError::LedgerRejected),
            LedgerEvent::Unreachable => Err(WalletError::LedgerUnavailable),
            LedgerEvent::TimedOut => Err(WalletError::LedgerTimeout),
        }
    }
}

/// What the ledger client reported for a submitted transaction.
pub enum LedgerEvent {
    /// The network confirmed the transaction under this identifier.
    Confirmed { transaction_id: String },
    /// The node definitively rejected it; nothing landed.
    Rejected,
    /// The node could not be reached; nothing was submitted.
    Unreachable,
    /// Confirmation did not arrive in time; the outcome is unknown and
    /// must be re-queried by identifier, never blindly resubmitted.
    TimedOut,
}

/// A confirmed transaction: the identifier the network assigned.
pub struct Confirmation {
    pub transaction_id: String,
}

/// Relies on the solana_sdk instruction constructors only to carry one
/// instruction's values into the ledger's wire form, field for field;
/// the result is opaque and nothing is claimed of it.
#[verifier::external_body]
fn to_raw_instruction(x: &Instruction) -> RawInstruction {
    RawInstruction {
        program_id: Pubkey::try_from(x.program_id.as_bytes().as_slice()).unwrap(),
        accounts: x.accounts.iter().map(|a| RawAccountMeta {
            pubkey: Pubkey::try_from(a.address.as_bytes().as_slice()).unwrap(),
            is_signer: a.is_signer, is_writable: a.is_writable }).collect(),
        data: x.data.clone(),
    }
}

/// Relies on solana_sdk Transaction::new_signed_with_payer: it builds
/// the wire transaction from this transaction's own instructions, fee
/// payer and freshness token, and signs it with every given keypair.
/// Called only with keypairs for exactly the required signer set, under
/// which it cannot fail.
#[verifier::external_body]
fn build_signed_transaction(tx: &BuiltTransaction, signers: &Vec<Keypair>) -> RawTransaction
    requires
        covers_required(signers@, tx@.instructions, tx@.fee_payer),
        no_extra_signers(signers@, tx@.instructions, tx@.fee_payer),
{
    let v: Vec<RawInstruction> = tx.instructions.iter().map(to_raw_instruction).collect();
    let k: Vec<RawKeypair> =
        signers.iter().map(|s| RawKeypair::from_bytes(s.secret_ref()).unwrap()).collect();
    let h = RawHash::new(tx.freshness_token.as_slice());
    let p = Pubkey::try_from(tx.fee_payer.as_bytes().as_slice()).unwrap();
    RawTransaction::new_signed_with_payer(&v, Some(&p), &k.iter().collect::<Vec<_>>(), h)
}

/// Transitions Built to Signed.
///
/// The required signer set is the union of every account marked signer
/// across all instructions plus the fee payer. If `signers` misses any
/// of them the transition fails with `MissingSigner`; if it holds any
/// irrelevant keypair it fails with `SignerMismatch` (extras are
/// rejected, not ignored, to avoid masking configuration errors).
#[verifier::loop_isolation(false)]
pub fn sign(tx: BuiltTransaction, signers: &Vec<Keypair>) -> (r: Result<
    SignedTransaction,
    WalletError,
>)
    ensures
        (r is Ok) == (covers_required(signers@, tx@.instructions, tx@.fee_payer)
            && no_extra_signers(signers@, tx@.instructions, tx@.fee_payer)),
        !covers_required(signers@, tx@.instructions, tx@.fee_payer) ==> r == Err::<
            SignedTransaction,
            WalletError,
        >(WalletError::MissingSigner),
        covers_required(signers@, tx@.instructions, tx@.fee_payer) && !no_extra_signers(
            signers@,
            tx@.instructions,
            tx@.fee_payer,
        ) ==> r == Err::<SignedTransaction, WalletError>(WalletError::SignerMismatch),
        r matches Ok(st) ==> st@.instructions == tx@.instructions && st@.fee_payer == tx@.fee_payer
            && st@.freshness_token == tx@.freshness_token,
{
    proof {
        use_type_invariant(&tx);
    }
    let req = required_signer_addresses(tx.instructions(), tx.fee_payer());
    let mut addrs: Vec<Address> = Vec::new();
    let mut j: usize = 0;
    while j < signers.len()
        invariant
            j <= signers@.len(),
            addrs@.len() == j,
            forall|t: int| 0 <= t < j ==> addrs@[t]@ == keypair_address(#[trigger] signers@[t]@),
        decreases signers@.len() - j,
    {
        let a = signers[j].address();
        addrs.push(a);
        j += 1;
    }
    let mut k: usize = 0;
    while k < req.len()
        invariant
            k <= req@.len(),
            forall|t: int| 0 <= t < k ==> contains_addr(addrs@, #[trigger] req@[t]@),
        decreases req@.len() - k,
    {
        if !find_addr(&addrs, &req[k]) {
            proof {
                assert(is_required_signer(tx@.instructions, tx@.fee_payer, req@[k as int]@));
                assert forall|jj: int| 0 <= jj < signers@.len() implies keypair_address(
                    signers@[jj]@,
                ) != req@[k as int]@ by {
                    assert(addrs@[jj]@ == keypair_address(signers@[jj]@));
                }
                assert(!covers_required(signers@, tx@.instructions, tx@.fee_payer));
            }
            return Err(WalletError::MissingSigner);
        }
        k += 1;
    }
    proof {
        assert forall|a: Seq<u8>| #[trigger]
            is_required_signer(tx@.instructions, tx@.fee_payer, a) implies exists|jj: int|
            0 <= jj < signers@.len() && keypair_address(signers@[jj]@) == a by {
            assert(contains_addr(req@, a));
            let t = choose|t: int| 0 <= t < req@.len() && req@[t]@ == a;
            assert(contains_addr(addrs@, req@[t]@));
            let jj = choose|jj: int| 0 <= jj < addrs@.len() && addrs@[jj]@ == req@[t]@;
            assert(keypair_address(signers@[jj]@) == a);
        }
        assert(covers_required(signers@, tx@.instructions, tx@.fee_payer));
    }
    let mut m: usize = 0;
    while m < addrs.len()
        invariant
            m <= addrs@.len(),
            forall|t: int| 0 <= t < m ==> contains_addr(req@, #[trigger] addrs@[t]@),
        decreases addrs@.len() - m,
    {
        if !find_addr(&req, &addrs[m]) {
            proof {
                assert(addrs@[m as int]@ == keypair_address(signers@[m as int]@));
                if is_required_signer(
                    tx@.instructions,
                    tx@.fee_payer,
                    keypair_address(signers@[m as int]@),
                ) {
                    assert(contains_addr(req@, addrs@[m as int]@));
                }
                assert(!no_extra_signers(signers@, tx@.instructions, tx@.fee_payer));
            }
            return Err(WalletError::SignerMismatch);
        }
        m += 1;
    }
    proof {
        assert forall|jj: int| 0 <= jj < signers@.len() implies is_required_signer(
            tx@.instructions,
            tx@.fee_payer,
            keypair_address(#[trigger] signers@[jj]@),
        ) by {
            assert(contains_addr(req@, addrs@[jj]@));
            let t = choose|t: int| 0 <= t < req@.len() && req@[t]@ == addrs@[jj]@;
            assert(is_required_signer(tx@.instructions, tx@.fee_payer, req@[t]@));
        }
        assert(no_extra_signers(signers@, tx@.instructions, tx@.fee_payer));
    }
    let inner = build_signed_transaction(&tx, signers);
    proof {
        assert forall|a: Seq<u8>| #[trigger] contains_addr(req@, a) implies is_required_signer(
            tx@.instructions,
            tx@.fee_payer,
            a,
        ) by {
            let t = choose|t: int| 0 <= t < req@.len() && req@[t]@ == a;
            assert(is_required_signer(tx@.instructions, tx@.fee_payer, req@[t]@));
        }
    }
    let st = SignedTransaction { built: tx, signer_addresses: req, inner };
    Ok(st)
}

} // verus!
