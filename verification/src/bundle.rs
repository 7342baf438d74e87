use crate::account::AccountId;
use crate::associated_account::{
    associated_token_address, create_associated_token_account_raw,
    create_associated_token_account_spec, derive_associated_address,
};
use crate::instruction::{readonly_signer, writable_signer, Instruction, InstructionView};
use crate::system_program::{create_account_raw, create_account_spec};
use crate::token_program::{
    burn_checked_raw, burn_checked_spec, initialize_mint_raw, initialize_mint_spec,
    initialize_permanent_delegate_raw, initialize_permanent_delegate_spec, mint_account_len,
    mint_len_with, mint_to_raw, mint_to_spec, token_2022_program, token_program_id,
    transfer_checked_raw, transfer_checked_spec, MintExtension,
};
use vstd::bytes::lemma_auto_spec_u64_to_from_le_bytes;
use vstd::pervasive::unreached;
use vstd::prelude::*;

verus! {

/// Decimals that transfers and burns state for the mint: whole units.
pub const TOKEN_DECIMALS: u8 = 0;

/// Most account slots that the instructions of one transaction may take
/// together with the fee payer: an account is referred to by one byte.
pub const MAX_ACCOUNT_SLOTS: usize = 256;

/// Most bytes of data that one instruction may carry: its length is written
/// in sixteen bits.
pub const MAX_INSTRUCTION_DATA: usize = 65535;

/// What is needed to make one transaction, short of the ordering anchor and
/// the signatures: the instructions in order, who pays the fee, and whose
/// credentials must sign.
#[derive(Clone, Debug, PartialEq, Eq)]
pub struct TransactionBundle {
    pub instructions: Vec<Instruction>,
    pub fee_payer: AccountId,
    pub signers: Vec<AccountId>,
}

/// The mathematical content of a [`TransactionBundle`].
pub struct BundleView {
    pub instructions: Seq<InstructionView>,
    pub fee_payer: AccountId,
    pub signers: Seq<AccountId>,
}

impl View for TransactionBundle {
    type V = BundleView;

    open spec fn view(&self) -> BundleView {
        BundleView {
            instructions: self.instructions@.map_values(|ix: Instruction| ix@),
            fee_payer: self.fee_payer,
            signers: self.signers@,
        }
    }
}

/// Account slots that the instructions take: one for each program and one
/// for each account listed, repeats included.
pub open spec fn account_slots(instructions: Seq<InstructionView>) -> nat
    decreases instructions.len(),
{
    if instructions.len() == 0 {
        0
    } else {
        account_slots(instructions.drop_last()) + 1 + instructions.last().accounts.len()
    }
}

impl BundleView {
    /// Whether one transaction can hold the bundle.
    pub open spec fn fits_one_transaction(self) -> bool {
        &&& account_slots(self.instructions) + 1 <= MAX_ACCOUNT_SLOTS
        &&& forall|i: int|
            0 <= i < self.instructions.len() ==> (#[trigger] self.instructions[i]).data.len()
                <= MAX_INSTRUCTION_DATA
    }

    /// Whether some instruction lists `id` as a signing account.
    pub open spec fn asks_signature_of(self, id: AccountId) -> bool {
        exists|i: int, j: int|
            0 <= i < self.instructions.len() && 0 <= j < self.instructions[i].accounts.len()
                && (#[trigger] self.instructions[i].accounts[j]).id == id
                && self.instructions[i].accounts[j].is_signer
    }

    /// Whether the ledger will want a signature of `id` on this bundle: the
    /// fee payer signs, and so does every account an instruction marks so.
    pub open spec fn must_sign(self, id: AccountId) -> bool {
        id == self.fee_payer || self.asks_signature_of(id)
    }

    /// The signer list names exactly the accounts that must sign: none is
    /// missing, and none is there that the ledger would not expect.
    pub open spec fn well_signed(self) -> bool {
        forall|id: AccountId| self.signers.contains(id) <==> self.must_sign(id)
    }

    /// The bundle makes a valid transaction once the credentials of its
    /// signers have signed it.
    pub open spec fn signable(self) -> bool {
        self.fits_one_transaction() && self.well_signed()
    }
}

/// The extensions every mint made here is created with.
pub open spec fn mint_extensions() -> Seq<MintExtension> {
    seq![MintExtension::PermanentDelegate]
}

/// The bundle that creates `mint` with `authority` as mint authority, freeze
/// authority and permanent delegate: allocation, then the extension, then the
/// base record.
pub open spec fn initialize_token_mint_spec(
    authority: AccountId,
    mint: AccountId,
    decimals: u8,
    rent: u64,
) -> BundleView {
    BundleView {
        instructions: seq![
            create_account_spec(
                authority,
                mint,
                rent,
                mint_account_len(mint_extensions()) as u64,
                token_2022_program(),
            ),
            initialize_permanent_delegate_spec(token_2022_program(), mint, authority),
            initialize_mint_spec(token_2022_program(), mint, authority, Some(authority), decimals),
        ],
        fee_payer: authority,
        signers: seq![authority, mint],
    }
}

/// The bundle that creates the token account of `owner` for `mint`.
pub open spec fn create_ata_spec(payer: AccountId, owner: AccountId, mint: AccountId) -> BundleView {
    BundleView {
        instructions: seq![
            create_associated_token_account_spec(payer, owner, mint, token_2022_program()),
        ],
        fee_payer: payer,
        signers: seq![payer],
    }
}

/// The bundle that mints `amount` units of `mint` to `destination`.
pub open spec fn mint_tokens_spec(
    authority: AccountId,
    mint: AccountId,
    destination: AccountId,
    amount: u64,
) -> BundleView {
    BundleView {
        instructions: seq![
            mint_to_spec(
                token_2022_program(),
                mint,
                destination,
                authority,
                seq![authority, mint],
                amount,
            ),
        ],
        fee_payer: authority,
        signers: seq![authority, mint],
    }
}

/// The bundle by which `authority` moves `amount` units of `mint` from
/// `source` to `destination`.
pub open spec fn transfer_tokens_spec(
    authority: AccountId,
    mint: AccountId,
    source: AccountId,
    destination: AccountId,
    amount: u64,
) -> BundleView {
    BundleView {
        instructions: seq![
            transfer_checked_spec(
                token_2022_program(),
                source,
                mint,
                destination,
                authority,
                seq![authority],
                amount,
                TOKEN_DECIMALS,
            ),
        ],
        fee_payer: authority,
        signers: seq![authority],
    }
}

/// The bundle by which `authority` burns `amount` units of `mint` held by
/// `from`.
pub open spec fn burn_tokens_spec(
    authority: AccountId,
    mint: AccountId,
    from: AccountId,
    amount: u64,
) -> BundleView {
    BundleView {
        instructions: seq![
            burn_checked_spec(
                token_2022_program(),
                from,
                mint,
                authority,
                seq![authority],
                amount,
                TOKEN_DECIMALS,
            ),
        ],
        fee_payer: authority,
        signers: seq![authority],
    }
}

/// Bytes to allocate for a mint with the permanent-delegate extension. The
/// rent that keeps such an account alive is asked of the ledger for this
/// length.
pub fn mint_account_space() -> (len: usize)
    ensures
        len == mint_account_len(mint_extensions()),
{
    let mut extensions: Vec<MintExtension> = Vec::new();
    extensions.push(MintExtension::PermanentDelegate);
    proof {
        assert(extensions@ =~= mint_extensions());
    }
    match mint_len_with(&extensions) {
        Some(len) => len,
        None => unreached(),
    }
}

/// Builds the transaction that creates a mint whose permanent delegate is
/// `authority`. `rent` is the balance that exempts an account of
/// [`mint_account_space`] bytes from rent. The extension is initialized
/// before the base record, and both `authority` and `mint` sign.
pub fn initialize_token_mint(
    authority: &AccountId,
    mint: &AccountId,
    decimals: u8,
    rent: u64,
) -> (bundle: TransactionBundle)
    ensures
        bundle@ == initialize_token_mint_spec(*authority, *mint, decimals, rent),
        bundle@.signable(),
{
    let program = token_program_id();
    let space = mint_account_space();
    let allocate = Instruction::from_raw(
        create_account_raw(authority, mint, rent, space as u64, &program),
    );
    let bind = match initialize_permanent_delegate_raw(&program, mint, authority) {
        Some(raw) => Instruction::from_raw(raw),
        None => unreached(),
    };
    let init = match initialize_mint_raw(&program, mint, authority, Some(authority), decimals) {
        Some(raw) => Instruction::from_raw(raw),
        None => unreached(),
    };
    let mut instructions: Vec<Instruction> = Vec::new();
    instructions.push(allocate);
    instructions.push(bind);
    instructions.push(init);
    let mut signers: Vec<AccountId> = Vec::new();
    signers.push(*authority);
    signers.push(*mint);
    let bundle = TransactionBundle { instructions, fee_payer: *authority, signers };
    proof {
        lemma_auto_spec_u64_to_from_le_bytes();
        reveal_with_fuel(account_slots, 4);
        let spec = initialize_token_mint_spec(*authority, *mint, decimals, rent);
        assert(bundle@.instructions =~= spec.instructions);
        assert(bundle@.signers =~= spec.signers);
        assert(spec.instructions[0].accounts[1] == writable_signer(*mint));
        assert(bundle@.signers[0] == *authority && bundle@.signers[1] == *mint);
    }
    bundle
}

/// Derives the token account of `owner` for `mint` and builds the
/// transaction, paid and signed by `payer`, that creates it. Whether the
/// account exists already is not looked up: the ledger rejects a second
/// creation.
pub fn create_ata(payer: &AccountId, owner: &AccountId, mint: &AccountId) -> (r: (
    AccountId,
    TransactionBundle,
))
    ensures
        r.0 == associated_token_address(*owner, *mint, token_2022_program()),
        r.1@ == create_ata_spec(*payer, *owner, *mint),
        r.1@.signable(),
{
    let program = token_program_id();
    let address = derive_associated_address(owner, mint, &program);
    let create = Instruction::from_raw(
        create_associated_token_account_raw(payer, owner, mint, &program),
    );
    let mut instructions: Vec<Instruction> = Vec::new();
    instructions.push(create);
    let mut signers: Vec<AccountId> = Vec::new();
    signers.push(*payer);
    let bundle = TransactionBundle { instructions, fee_payer: *payer, signers };
    proof {
        lemma_auto_spec_u64_to_from_le_bytes();
        reveal_with_fuel(account_slots, 4);
        let spec = create_ata_spec(*payer, *owner, *mint);
        assert(bundle@.instructions =~= spec.instructions);
        assert(bundle@.signers =~= spec.signers);
        assert(bundle@.signers[0] == *payer);
    }
    (address, bundle)
}

/// Builds the transaction that mints `amount` raw units of `mint` to the
/// token account `destination`. The mint authority pays, and the mint is
/// listed beside it as a signer.
pub fn mint_tokens(
    authority: &AccountId,
    mint: &AccountId,
    destination: &AccountId,
    amount: u64,
) -> (bundle: TransactionBundle)
    ensures
        bundle@ == mint_tokens_spec(*authority, *mint, *destination, amount),
        bundle@.signable(),
{
    let program = token_program_id();
    let mut signers: Vec<AccountId> = Vec::new();
    signers.push(*authority);
    signers.push(*mint);
    let credit = match mint_to_raw(&program, mint, destination, authority, &signers, amount) {
        Some(raw) => Instruction::from_raw(raw),
        None => unreached(),
    };
    let mut instructions: Vec<Instruction> = Vec::new();
    instructions.push(credit);
    let bundle = TransactionBundle { instructions, fee_payer: *authority, signers };
    proof {
        lemma_auto_spec_u64_to_from_le_bytes();
        reveal_with_fuel(account_slots, 4);
        let spec = mint_tokens_spec(*authority, *mint, *destination, amount);
        assert(bundle@.signers =~= spec.signers);
        assert(bundle@.instructions =~= spec.instructions);
        assert(bundle@.signers[0] == *authority && bundle@.signers[1] == *mint);
        let listed = spec.instructions[0].accounts;
        assert(listed[3] == readonly_signer(*authority));
        assert(listed[4] == readonly_signer(*mint));
    }
    bundle
}

/// Builds the transaction by which the permanent delegate `authority` moves
/// `amount` units of `mint` from `source` to `destination`. Only `authority`
/// signs: the owner of `source` is not asked, and no delegation on the
/// account is named.
pub fn transfer_tokens(
    authority: &AccountId,
    mint: &AccountId,
    source: &AccountId,
    destination: &AccountId,
    amount: u64,
) -> (bundle: TransactionBundle)
    ensures
        bundle@ == transfer_tokens_spec(*authority, *mint, *source, *destination, amount),
        bundle@.signable(),
{
    let program = token_program_id();
    let mut signers: Vec<AccountId> = Vec::new();
    signers.push(*authority);
    let moved = match transfer_checked_raw(
        &program,
        source,
        mint,
        destination,
        authority,
        &signers,
        amount,
        TOKEN_DECIMALS,
    ) {
        Some(raw) => Instruction::from_raw(raw),
        None => unreached(),
    };
    let mut instructions: Vec<Instruction> = Vec::new();
    instructions.push(moved);
    let bundle = TransactionBundle { instructions, fee_payer: *authority, signers };
    proof {
        lemma_auto_spec_u64_to_from_le_bytes();
        reveal_with_fuel(account_slots, 4);
        let spec = transfer_tokens_spec(*authority, *mint, *source, *destination, amount);
        assert(bundle@.signers =~= spec.signers);
        assert(bundle@.instructions =~= spec.instructions);
        assert(bundle@.signers[0] == *authority);
    }
    bundle
}

/// Builds the transaction by which the permanent delegate `authority` burns
/// `amount` units of `mint` held by the token account `from`. Only
/// `authority` signs.
pub fn burn_tokens(authority: &AccountId, mint: &AccountId, from: &AccountId, amount: u64) -> (bundle:
    TransactionBundle)
    ensures
        bundle@ == burn_tokens_spec(*authority, *mint, *from, amount),
        bundle@.signable(),
{
    let program = token_program_id();
    let mut signers: Vec<AccountId> = Vec::new();
    signers.push(*authority);
    let burnt = match burn_checked_raw(
        &program,
        from,
        mint,
        authority,
        &signers,
        amount,
        TOKEN_DECIMALS,
    ) {
        Some(raw) => Instruction::from_raw(raw),
        None => unreached(),
    };
    let mut instructions: Vec<Instruction> = Vec::new();
    instructions.push(burnt);
    let bundle = TransactionBundle { instructions, fee_payer: *authority, signers };
    proof {
        lemma_auto_spec_u64_to_from_le_bytes();
        reveal_with_fuel(account_slots, 4);
        let spec = burn_tokens_spec(*authority, *mint, *from, amount);
        assert(bundle@.signers =~= spec.signers);
        assert(bundle@.instructions =~= spec.instructions);
        assert(bundle@.signers[0] == *authority);
    }
    bundle
}

} // verus!
