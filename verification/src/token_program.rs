use crate::account::AccountId;
use crate::instruction::{authority_accounts, readonly, writable, InstructionView, RawInstruction};
use solana_sdk::pubkey::Pubkey;
use spl_token_2022::extension::ExtensionType;
use spl_token_2022::state::Mint;
use vstd::bytes::spec_u64_to_le_bytes;
use vstd::prelude::*;

verus! {

/// Bytes of the identifier of the token program with extensions.
pub const TOKEN_2022_PROGRAM_BYTES: [u8; 32] = [
    6, 221, 246, 225, 238, 117, 143, 222, 24, 66, 93, 188, 228, 108, 205, 218,
    182, 26, 252, 77, 131, 185, 13, 39, 254, 189, 249, 40, 216, 161, 139, 252,
];

/// Bytes of the identifier of the token program without extensions.
pub const TOKEN_PROGRAM_BYTES: [u8; 32] = [
    6, 221, 246, 225, 215, 101, 161, 147, 217, 203, 225, 70, 206, 235, 121, 172,
    28, 180, 133, 237, 95, 91, 55, 145, 58, 140, 245, 133, 126, 255, 0, 169,
];

/// Bytes of the identifier of the rent sysvar.
pub const RENT_SYSVAR_BYTES: [u8; 32] = [
    6, 167, 213, 23, 25, 44, 92, 81, 33, 140, 201, 76, 61, 74, 241, 127,
    88, 218, 238, 8, 155, 161, 253, 68, 227, 219, 217, 138, 0, 0, 0, 0,
];

/// Leading byte of the data of a base mint initialization.
pub const TAG_INITIALIZE_MINT: u8 = 0;

/// Leading byte of the data of a mint-to.
pub const TAG_MINT_TO: u8 = 7;

/// Leading byte of the data of a checked transfer.
pub const TAG_TRANSFER_CHECKED: u8 = 12;

/// Leading byte of the data of a checked burn.
pub const TAG_BURN_CHECKED: u8 = 15;

/// Leading byte of the data of a permanent-delegate initialization.
pub const TAG_INITIALIZE_PERMANENT_DELEGATE: u8 = 35;

/// Length of a mint record without extensions.
pub const BASE_MINT_LEN: usize = 82;

/// Length up to which the base record of an extended account is padded.
pub const BASE_ACCOUNT_LEN: usize = 165;

/// Length of the account-type byte that follows the padded base record.
pub const ACCOUNT_TYPE_LEN: usize = 1;

/// Length of the type and length fields in front of each extension's value.
pub const EXTENSION_HEADER_LEN: usize = 4;

/// Length of the value of the permanent-delegate extension: one identifier.
pub const PERMANENT_DELEGATE_LEN: usize = 32;

/// An extension that a mint can be created with.
#[derive(Clone, Copy, Debug, PartialEq, Eq, Structural)]
pub enum MintExtension {
    /// One authority may move or burn the tokens of every holder.
    PermanentDelegate,
}

/// The token program with extensions, which owns every mint made here.
pub open spec fn token_2022_program() -> AccountId {
    AccountId { bytes: TOKEN_2022_PROGRAM_BYTES }
}

/// The token program without extensions.
pub open spec fn token_program() -> AccountId {
    AccountId { bytes: TOKEN_PROGRAM_BYTES }
}

/// The rent sysvar, which a base mint initialization reads.
pub open spec fn rent_sysvar() -> AccountId {
    AccountId { bytes: RENT_SYSVAR_BYTES }
}

/// Whether the builders that both token programs share take `program` as the
/// program to address.
pub open spec fn is_token_program(program: AccountId) -> bool {
    program == token_2022_program() || program == token_program()
}

/// Bytes an account needs to hold a mint record with the given extensions.
/// Without extensions the bare record is enough. With some, the record is
/// padded, the account type follows, and each kind of extension asked for
/// takes a header and its value once, however often it is listed.
pub open spec fn mint_account_len(extensions: Seq<MintExtension>) -> nat {
    if extensions.len() == 0 {
        BASE_MINT_LEN as nat
    } else {
        (BASE_ACCOUNT_LEN + ACCOUNT_TYPE_LEN + EXTENSION_HEADER_LEN + PERMANENT_DELEGATE_LEN) as nat
    }
}

/// An optional identifier as instruction data: a presence byte, then the
/// identifier if there is one.
pub open spec fn optional_id_bytes(id: Option<AccountId>) -> Seq<u8> {
    match id {
        Some(id) => seq![1u8] + id@,
        None => seq![0u8],
    }
}

/// The instruction that binds `delegate` to `mint` as its permanent delegate.
pub open spec fn initialize_permanent_delegate_spec(
    program: AccountId,
    mint: AccountId,
    delegate: AccountId,
) -> InstructionView {
    InstructionView {
        program,
        accounts: seq![writable(mint)],
        data: seq![TAG_INITIALIZE_PERMANENT_DELEGATE] + delegate@,
    }
}

/// The instruction that writes the base record of `mint`.
pub open spec fn initialize_mint_spec(
    program: AccountId,
    mint: AccountId,
    mint_authority: AccountId,
    freeze_authority: Option<AccountId>,
    decimals: u8,
) -> InstructionView {
    InstructionView {
        program,
        accounts: seq![writable(mint), readonly(rent_sysvar())],
        data: seq![TAG_INITIALIZE_MINT, decimals] + mint_authority@ + optional_id_bytes(
            freeze_authority,
        ),
    }
}

/// The instruction that credits `amount` new units of `mint` to `account`.
pub open spec fn mint_to_spec(
    program: AccountId,
    mint: AccountId,
    account: AccountId,
    mint_authority: AccountId,
    signers: Seq<AccountId>,
    amount: u64,
) -> InstructionView {
    InstructionView {
        program,
        accounts: seq![writable(mint), writable(account)] + authority_accounts(
            mint_authority,
            signers,
        ),
        data: seq![TAG_MINT_TO] + spec_u64_to_le_bytes(amount),
    }
}

/// The instruction that moves `amount` units of `mint` from `source` to
/// `destination`, naming the decimals the sender believes the mint to have.
pub open spec fn transfer_checked_spec(
    program: AccountId,
    source: AccountId,
    mint: AccountId,
    destination: AccountId,
    authority: AccountId,
    signers: Seq<AccountId>,
    amount: u64,
    decimals: u8,
) -> InstructionView {
    InstructionView {
        program,
        accounts: seq![writable(source), readonly(mint), writable(destination)]
            + authority_accounts(authority, signers),
        data: seq![TAG_TRANSFER_CHECKED] + spec_u64_to_le_bytes(amount) + seq![decimals],
    }
}

/// The instruction that destroys `amount` units of `mint` held by `account`,
/// naming the decimals the sender believes the mint to have.
pub open spec fn burn_checked_spec(
    program: AccountId,
    account: AccountId,
    mint: AccountId,
    authority: AccountId,
    signers: Seq<AccountId>,
    amount: u64,
    decimals: u8,
) -> InstructionView {
    InstructionView {
        program,
        accounts: seq![writable(account), writable(mint)] + authority_accounts(authority, signers),
        data: seq![TAG_BURN_CHECKED] + spec_u64_to_le_bytes(amount) + seq![decimals],
    }
}

/// Calls `spl_token_2022::id`. The identifier it returns is the constant that
/// the crate declares, whose bytes are [`TOKEN_2022_PROGRAM_BYTES`].
#[verifier::external_body]
pub(crate) fn token_program_id() -> (id: AccountId)
    ensures
        id == token_2022_program(),
{
    AccountId { bytes: spl_token_2022::id().to_bytes() }
}

/// Calls `ExtensionType::try_calculate_account_len` for a mint. The one
/// extension known here has a fixed size, so the call gives a length for
/// every list: the one that [`mint_account_len`] states.
#[verifier::external_body]
pub(crate) fn mint_len_with(extensions: &Vec<MintExtension>) -> (r: Option<usize>)
    ensures
        r == Some(mint_account_len(extensions@) as usize),
{
    let kinds = extensions.iter().map(|e| match e {
        MintExtension::PermanentDelegate => ExtensionType::PermanentDelegate,
    });
    let kinds: Vec<ExtensionType> = kinds.collect();
    ExtensionType::try_calculate_account_len::<Mint>(&kinds).ok()
}

/// Calls `spl_token_2022::instruction::initialize_permanent_delegate`. It
/// refuses every program but the token program with extensions; else the
/// instruction touches the mint alone and its data is the tag and the
/// delegate.
#[verifier::external_body]
pub(crate) fn initialize_permanent_delegate_raw(
    program: &AccountId,
    mint: &AccountId,
    delegate: &AccountId,
) -> (r: Option<RawInstruction>)
    ensures
        r is Some <==> *program == token_2022_program(),
        r matches Some(raw) ==> raw@ == initialize_permanent_delegate_spec(
            *program,
            *mint,
            *delegate,
        ),
{
    let ix = spl_token_2022::instruction::initialize_permanent_delegate(
        &program.bytes.into(), &mint.bytes.into(), &delegate.bytes.into(),
    ).ok()?;
    let accounts = ix.accounts.iter().map(|k| (k.pubkey.to_bytes(), k.is_signer, k.is_writable));
    Some(RawInstruction { program: ix.program_id.to_bytes(), accounts: accounts.collect(), data: ix.data })
}

/// Calls `spl_token_2022::instruction::initialize_mint`. It refuses a program
/// that is neither token program; else the instruction touches the mint and
/// reads the rent sysvar, and its data is the tag, the decimals, the mint
/// authority and the optional freeze authority.
#[verifier::external_body]
pub(crate) fn initialize_mint_raw(
    program: &AccountId,
    mint: &AccountId,
    mint_authority: &AccountId,
    freeze_authority: Option<&AccountId>,
    decimals: u8,
) -> (r: Option<RawInstruction>)
    ensures
        r is Some <==> is_token_program(*program),
        r matches Some(raw) ==> raw@ == initialize_mint_spec(
            *program,
            *mint,
            *mint_authority,
            match freeze_authority {
                Some(f) => Some(*f),
                None => None,
            },
            decimals,
        ),
{
    let freeze: Option<Pubkey> = freeze_authority.map(|f| f.bytes.into());
    let ix = spl_token_2022::instruction::initialize_mint(
        &program.bytes.into(), &mint.bytes.into(), &mint_authority.bytes.into(),
        freeze.as_ref(), decimals,
    ).ok()?;
    let accounts = ix.accounts.iter().map(|k| (k.pubkey.to_bytes(), k.is_signer, k.is_writable));
    Some(RawInstruction { program: ix.program_id.to_bytes(), accounts: accounts.collect(), data: ix.data })
}

/// Calls `spl_token_2022::instruction::mint_to`. It refuses a program that is
/// neither token program; else the instruction lists the mint, the receiving
/// account, the mint authority and the signers, and its data is the tag and
/// the amount in little-endian order.
#[verifier::external_body]
pub(crate) fn mint_to_raw(
    program: &AccountId,
    mint: &AccountId,
    account: &AccountId,
    mint_authority: &AccountId,
    signers: &Vec<AccountId>,
    amount: u64,
) -> (r: Option<RawInstruction>)
    ensures
        r is Some <==> is_token_program(*program),
        r matches Some(raw) ==> raw@ == mint_to_spec(
            *program,
            *mint,
            *account,
            *mint_authority,
            signers@,
            amount,
        ),
{
    let keys: Vec<Pubkey> = signers.iter().map(|s| s.bytes.into()).collect();
    let refs: Vec<&Pubkey> = keys.iter().collect();
    let ix = spl_token_2022::instruction::mint_to(
        &program.bytes.into(), &mint.bytes.into(), &account.bytes.into(),
        &mint_authority.bytes.into(), &refs, amount,
    ).ok()?;
    let accounts = ix.accounts.iter().map(|k| (k.pubkey.to_bytes(), k.is_signer, k.is_writable));
    Some(RawInstruction { program: ix.program_id.to_bytes(), accounts: accounts.collect(), data: ix.data })
}

/// Calls `spl_token_2022::instruction::transfer_checked`. It refuses a
/// program that is neither token program; else the instruction lists source,
/// mint, destination, the authority and the signers, and its data is the tag,
/// the amount in little-endian order and the decimals.
#[verifier::external_body]
pub(crate) fn transfer_checked_raw(
    program: &AccountId,
    source: &AccountId,
    mint: &AccountId,
    destination: &AccountId,
    authority: &AccountId,
    signers: &Vec<AccountId>,
    amount: u64,
    decimals: u8,
) -> (r: Option<RawInstruction>)
    ensures
        r is Some <==> is_token_program(*program),
        r matches Some(raw) ==> raw@ == transfer_checked_spec(
            *program,
            *source,
            *mint,
            *destination,
            *authority,
            signers@,
            amount,
            decimals,
        ),
{
    let keys: Vec<Pubkey> = signers.iter().map(|s| s.bytes.into()).collect();
    let refs: Vec<&Pubkey> = keys.iter().collect();
    let ix = spl_token_2022::instruction::transfer_checked(
        &program.bytes.into(), &source.bytes.into(), &mint.bytes.into(),
        &destination.bytes.into(), &authority.bytes.into(), &refs, amount, decimals,
    ).ok()?;
    let accounts = ix.accounts.iter().map(|k| (k.pubkey.to_bytes(), k.is_signer, k.is_writable));
    Some(RawInstruction { program: ix.program_id.to_bytes(), accounts: accounts.collect(), data: ix.data })
}

/// Calls `spl_token_2022::instruction::burn_checked`. It refuses a program
/// that is neither token program; else the instruction lists the holding
/// account, the mint, the authority and the signers, and its data is the tag,
/// the amount in little-endian order and the decimals.
#[verifier::external_body]
pub(crate) fn burn_checked_raw(
    program: &AccountId,
    account: &AccountId,
    mint: &AccountId,
    authority: &AccountId,
    signers: &Vec<AccountId>,
    amount: u64,
    decimals: u8,
) -> (r: Option<RawInstruction>)
    ensures
        r is Some <==> is_token_program(*program),
        r matches Some(raw) ==> raw@ == burn_checked_spec(
            *program,
            *account,
            *mint,
            *authority,
            signers@,
            amount,
            decimals,
        ),
{
    let keys: Vec<Pubkey> = signers.iter().map(|s| s.bytes.into()).collect();
    let refs: Vec<&Pubkey> = keys.iter().collect();
    let ix = spl_token_2022::instruction::burn_checked(
        &program.bytes.into(), &account.bytes.into(), &mint.bytes.into(),
        &authority.bytes.into(), &refs, amount, decimals,
    ).ok()?;
    let accounts = ix.accounts.iter().map(|k| (k.pubkey.to_bytes(), k.is_signer, k.is_writable));
    Some(RawInstruction { program: ix.program_id.to_bytes(), accounts: accounts.collect(), data: ix.data })
}

} // verus!
