use crate::account::AccountId;
use crate::bundle::{
    account_slots, BundleView, TransactionBundle, MAX_ACCOUNT_SLOTS, MAX_INSTRUCTION_DATA,
};
use crate::instruction::{Instruction, InstructionView};
use solana_sdk::signature::Keypair;
use solana_sdk::signer::Signer;
use solana_sdk::transaction::Transaction;
use vstd::prelude::*;

verus! {

/// A transaction ready to be submitted, as the ledger's client takes it.
#[verifier::external_type_specification]
#[verifier::external_body]
pub struct ExTransaction(solana_sdk::transaction::Transaction);

/// Why a bundle was not signed.
#[derive(Clone, Copy, Debug, PartialEq, Eq, Structural)]
pub enum SigningError {
    /// The bundle names too many accounts or carries too much data.
    TooLarge,
    /// The signer list of the bundle is not the set of accounts that must
    /// sign it.
    SignersMismatch,
    /// The credentials are not those of the signers of the bundle, in order.
    CredentialsMismatch,
}

/// The ordering anchor of a transaction: a recent state hash of the ledger,
/// which keeps the transaction from being replayed or arriving stale.
#[derive(Clone, Copy, Debug, PartialEq, Eq)]
pub struct Anchor {
    pub bytes: [u8; 32],
}

/// A signing credential, held as the secret it is derived from.
pub struct Credential {
    secret: [u8; 32],
}

/// The public identifier of the credential with the given secret: what
/// `Keypair::new_from_array` followed by `Signer::pubkey` gives. It depends
/// on the secret alone.
pub uninterp spec fn public_key_of(secret: Seq<u8>) -> AccountId;

/// The transaction that `Transaction::new_signed_with_payer` makes of a
/// bundle, the secrets of the signing credentials and an anchor. Signing
/// draws on nothing else, so the same three give the same transaction.
pub uninterp spec fn signed_transaction_of(
    bundle: BundleView,
    secrets: Seq<Seq<u8>>,
    anchor: Seq<u8>,
) -> Transaction;

impl Credential {
    /// The secret that the credential is derived from.
    pub closed spec fn secret(self) -> Seq<u8> {
        self.secret@
    }

    /// The account that this credential signs for.
    pub open spec fn identity(self) -> AccountId {
        public_key_of(self.secret())
    }

    /// The credential with the given secret.
    pub fn from_secret(secret: [u8; 32]) -> (credential: Credential)
        ensures
            credential.secret() == secret@,
    {
        Credential { secret }
    }

    /// The account that this credential signs for.
    pub fn id(&self) -> (id: AccountId)
        ensures
            id == self.identity(),
    {
        derive_public_key(&self.secret)
    }
}

/// The accounts that the credentials sign for, in order.
pub open spec fn identities(credentials: Seq<Credential>) -> Seq<AccountId> {
    credentials.map_values(|c: Credential| c.identity())
}

/// The secrets of the credentials, in order.
pub open spec fn secrets(credentials: Seq<Credential>) -> Seq<Seq<u8>> {
    credentials.map_values(|c: Credential| c.secret())
}

/// What [`sign_bundle`] reports for a bundle and the accounts that the
/// credentials at hand sign for.
pub open spec fn signing_verdict(bundle: BundleView, signing: Seq<AccountId>) -> Result<
    (),
    SigningError,
> {
    if !bundle.fits_one_transaction() {
        Err(SigningError::TooLarge)
    } else if !bundle.well_signed() {
        Err(SigningError::SignersMismatch)
    } else if signing != bundle.signers {
        Err(SigningError::CredentialsMismatch)
    } else {
        Ok(())
    }
}

/// Calls `Keypair::new_from_array` and `Signer::pubkey` on the result: the
/// public key that belongs to the secret.
#[verifier::external_body]
pub(crate) fn derive_public_key(secret: &[u8; 32]) -> (id: AccountId)
    ensures
        id == public_key_of(secret@),
{
    AccountId { bytes: Keypair::new_from_array(*secret).pubkey().to_bytes() }
}

/// Calls `Transaction::new_signed_with_payer`, which compiles the
/// instructions into a message, anchors it and signs it with every
/// credential. The outside function aborts where the message cannot be
/// encoded, where a credential belongs to no account that must sign, and
/// where an account that must sign has no credential: the conditions keep
/// all three away.
#[verifier::external_body]
pub(crate) fn signed_transaction(
    bundle: &TransactionBundle,
    credentials: &Vec<Credential>,
    anchor: &Anchor,
) -> (transaction: Transaction)
    requires
        bundle@.fits_one_transaction(),
        forall|id: AccountId|
            identities(credentials@).contains(id) <==> bundle@.must_sign(id),
    ensures
        transaction == signed_transaction_of(bundle@, secrets(credentials@), anchor.bytes@),
{
    let instructions = bundle.instructions.iter().map(|ix| solana_sdk::instruction::Instruction {
        program_id: ix.program.bytes.into(),
        accounts: ix.accounts.iter().map(|a| solana_sdk::instruction::AccountMeta {
            pubkey: a.id.bytes.into(), is_signer: a.is_signer, is_writable: a.is_writable,
        }).collect(),
        data: ix.data.clone(),
    });
    let instructions: Vec<solana_sdk::instruction::Instruction> = instructions.collect();
    let keys = credentials.iter().map(|c| Keypair::new_from_array(c.secret));
    let keys: Vec<Keypair> = keys.collect();
    let payer = bundle.fee_payer.bytes.into();
    Transaction::new_signed_with_payer(&instructions, Some(&payer), &keys, anchor.bytes.into())
}

/// The slots of a part of the instructions are among the slots of all.
proof fn lemma_slots_grow(instructions: Seq<InstructionView>, k: int)
    requires
        0 <= k <= instructions.len(),
    ensures
        account_slots(instructions.take(k)) <= account_slots(instructions),
    decreases instructions.len() - k,
{
    if k == instructions.len() {
        assert(instructions.take(k) =~= instructions);
    } else {
        lemma_slots_grow(instructions, k + 1);
        assert(instructions.take(k + 1).drop_last() =~= instructions.take(k));
    }
}

/// Whether one transaction can hold the bundle.
pub fn fits(bundle: &TransactionBundle) -> (r: bool)
    ensures
        r == bundle@.fits_one_transaction(),
{
    let mut slots: usize = 1;
    let mut i: usize = 0;
    while i < bundle.instructions.len()
        invariant
            i <= bundle.instructions@.len(),
            slots == account_slots(bundle@.instructions.take(i as int)) + 1,
            slots <= MAX_ACCOUNT_SLOTS,
            forall|k: int|
                0 <= k < i ==> (#[trigger] bundle@.instructions[k]).data.len()
                    <= MAX_INSTRUCTION_DATA,
        decreases bundle.instructions@.len() - i,
    {
        let instruction = &bundle.instructions[i];
        proof {
            let upto = bundle@.instructions.take(i + 1);
            assert(upto.drop_last() =~= bundle@.instructions.take(i as int));
            assert(upto.last() == instruction@);
            lemma_slots_grow(bundle@.instructions, i + 1);
            assert(bundle@.instructions[i as int] == instruction@);
        }
        if instruction.data.len() > MAX_INSTRUCTION_DATA {
            return false;
        }
        if instruction.accounts.len() >= MAX_ACCOUNT_SLOTS - slots {
            return false;
        }
        slots = slots + 1 + instruction.accounts.len();
        i += 1;
    }
    proof {
        assert(bundle@.instructions.take(i as int) =~= bundle@.instructions);
    }
    true
}

/// Whether `id` is in the signer list of the bundle.
fn lists_signer(bundle: &TransactionBundle, id: &AccountId) -> (r: bool)
    ensures
        r == bundle@.signers.contains(*id),
{
    let mut k: usize = 0;
    while k < bundle.signers.len()
        invariant
            k <= bundle.signers@.len(),
            forall|n: int| 0 <= n < k ==> bundle.signers@[n] != *id,
        decreases bundle.signers@.len() - k,
    {
        if bundle.signers[k].is(id) {
            return true;
        }
        k += 1;
    }
    false
}

/// Whether `instruction` lists `id` as a signing account.
fn asks_signature(instruction: &Instruction, id: &AccountId) -> (r: bool)
    ensures
        r == exists|j: int|
            0 <= j < instruction@.accounts.len() && (#[trigger] instruction@.accounts[j]).id
                == *id && instruction@.accounts[j].is_signer,
{
    let mut j: usize = 0;
    while j < instruction.accounts.len()
        invariant
            j <= instruction.accounts@.len(),
            forall|n: int|
                0 <= n < j ==> !((#[trigger] instruction@.accounts[n]).id == *id
                    && instruction@.accounts[n].is_signer),
        decreases instruction.accounts@.len() - j,
    {
        if instruction.accounts[j].is_signer && instruction.accounts[j].id.is(id) {
            proof {
                let found = instruction@.accounts[j as int];
                assert(found.id == *id && found.is_signer);
            }
            return true;
        }
        j += 1;
    }
    false
}

/// Whether the ledger will want a signature of `id` on the bundle.
pub fn must_sign(bundle: &TransactionBundle, id: &AccountId) -> (r: bool)
    ensures
        r == bundle@.must_sign(*id),
{
    if id.is(&bundle.fee_payer) {
        return true;
    }
    let mut i: usize = 0;
    while i < bundle.instructions.len()
        invariant
            i <= bundle.instructions@.len(),
            forall|m: int, n: int|
                0 <= m < i && 0 <= n < bundle@.instructions[m].accounts.len() ==> !((
                #[trigger] bundle@.instructions[m].accounts[n]).id == *id
                    && bundle@.instructions[m].accounts[n].is_signer),
        decreases bundle.instructions@.len() - i,
    {
        proof {
            assert(bundle@.instructions[i as int] == bundle.instructions@[i as int]@);
        }
        if asks_signature(&bundle.instructions[i], id) {
            return true;
        }
        i += 1;
    }
    false
}

/// Whether every signing account of every instruction is in the signer list.
fn lists_all_asked(bundle: &TransactionBundle) -> (r: bool)
    ensures
        r == forall|id: AccountId|
            bundle@.asks_signature_of(id) ==> bundle@.signers.contains(id),
{
    let mut i: usize = 0;
    while i < bundle.instructions.len()
        invariant
            i <= bundle.instructions@.len(),
            forall|m: int, n: int|
                0 <= m < i && 0 <= n < bundle@.instructions[m].accounts.len() && (
                #[trigger] bundle@.instructions[m].accounts[n]).is_signer
                    ==> bundle@.signers.contains(bundle@.instructions[m].accounts[n].id),
        decreases bundle.instructions@.len() - i,
    {
        let instruction = &bundle.instructions[i];
        proof {
            assert(bundle@.instructions[i as int] == instruction@);
        }
        let mut j: usize = 0;
        while j < instruction.accounts.len()
            invariant
                i < bundle.instructions@.len(),
                bundle@.instructions[i as int] == instruction@,
                j <= instruction.accounts@.len(),
                forall|n: int|
                    0 <= n < j && (#[trigger] instruction@.accounts[n]).is_signer
                        ==> bundle@.signers.contains(instruction@.accounts[n].id),
            decreases instruction.accounts@.len() - j,
        {
            let account = instruction.accounts[j];
            if account.is_signer && !lists_signer(bundle, &account.id) {
                proof {
                    assert(bundle@.instructions[i as int].accounts[j as int] == account);
                    assert(bundle@.asks_signature_of(account.id));
                }
                return false;
            }
            j += 1;
        }
        i += 1;
    }
    true
}

/// Whether the signer list of the bundle names exactly the accounts that
/// must sign it.
pub fn is_well_signed(bundle: &TransactionBundle) -> (r: bool)
    ensures
        r == bundle@.well_signed(),
{
    if !lists_signer(bundle, &bundle.fee_payer) {
        proof {
            assert(bundle@.must_sign(bundle.fee_payer));
        }
        return false;
    }
    if !lists_all_asked(bundle) {
        proof {
            let id = choose|id: AccountId|
                bundle@.asks_signature_of(id) && !bundle@.signers.contains(id);
            assert(bundle@.must_sign(id));
        }
        return false;
    }
    let mut k: usize = 0;
    while k < bundle.signers.len()
        invariant
            k <= bundle.signers@.len(),
            forall|n: int| 0 <= n < k ==> bundle@.must_sign(#[trigger] bundle.signers@[n]),
        decreases bundle.signers@.len() - k,
    {
        if !must_sign(bundle, &bundle.signers[k]) {
            proof {
                assert(bundle@.signers.contains(bundle.signers@[k as int]));
            }
            return false;
        }
        k += 1;
    }
    true
}

/// The verdict on a bundle and the accounts that the credentials at hand
/// sign for, given in the order of the credentials.
pub fn check_signing(bundle: &TransactionBundle, signing: &Vec<AccountId>) -> (r: Result<
    (),
    SigningError,
>)
    ensures
        r == signing_verdict(bundle@, signing@),
{
    if !fits(bundle) {
        return Err(SigningError::TooLarge);
    }
    if !is_well_signed(bundle) {
        return Err(SigningError::SignersMismatch);
    }
    if signing.len() != bundle.signers.len() {
        return Err(SigningError::CredentialsMismatch);
    }
    let mut k: usize = 0;
    while k < signing.len()
        invariant
            k <= signing@.len(),
            signing@.len() == bundle.signers@.len(),
            bundle@.fits_one_transaction(),
            bundle@.well_signed(),
            forall|n: int| 0 <= n < k ==> signing@[n] == bundle.signers@[n],
        decreases signing@.len() - k,
    {
        if !signing[k].is(&bundle.signers[k]) {
            proof {
                assert(signing@[k as int] != bundle@.signers[k as int]);
            }
            return Err(SigningError::CredentialsMismatch);
        }
        k += 1;
    }
    proof {
        assert(signing@ =~= bundle@.signers);
    }
    Ok(())
}

/// Anchors the bundle and signs it with the credentials, which must be those
/// of its signers, in the order of the signer list. A bundle that would not
/// make a valid transaction is refused before anything is signed.
pub fn sign_bundle(
    bundle: &TransactionBundle,
    credentials: &Vec<Credential>,
    anchor: &Anchor,
) -> (r: Result<Transaction, SigningError>)
    ensures
        r is Ok <==> signing_verdict(bundle@, identities(credentials@)) is Ok,
        r matches Err(e) ==> signing_verdict(bundle@, identities(credentials@)) == Err::<
            (),
            SigningError,
        >(e),
        r matches Ok(transaction) ==> transaction == signed_transaction_of(
            bundle@,
            secrets(credentials@),
            anchor.bytes@,
        ),
{
    let mut signing: Vec<AccountId> = Vec::new();
    let mut k: usize = 0;
    while k < credentials.len()
        invariant
            k <= credentials@.len(),
            signing@.len() == k,
            forall|n: int| 0 <= n < k ==> signing@[n] == credentials@[n].identity(),
        decreases credentials@.len() - k,
    {
        signing.push(credentials[k].id());
        k += 1;
    }
    proof {
        assert(signing@ =~= identities(credentials@));
    }
    match check_signing(bundle, &signing) {
        Ok(()) => Ok(signed_transaction(bundle, credentials, anchor)),
        Err(e) => Err(e),
    }
}

} // verus!
