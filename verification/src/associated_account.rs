use crate::account::AccountId;
use crate::instruction::{readonly, writable, writable_signer, InstructionView, RawInstruction};
use crate::system_program::system_program;
use vstd::prelude::*;

verus! {

/// Bytes of the identifier of the associated-token-account program.
pub const ASSOCIATED_TOKEN_PROGRAM_BYTES: [u8; 32] = [
    140, 151, 37, 143, 78, 36, 137, 241, 187, 61, 16, 41, 20, 142, 13, 131,
    11, 90, 19, 153, 218, 255, 16, 132, 4, 142, 123, 216, 219, 233, 248, 89,
];

/// The program that creates token accounts at derived addresses.
pub open spec fn associated_token_program() -> AccountId {
    AccountId { bytes: ASSOCIATED_TOKEN_PROGRAM_BYTES }
}

/// The address of the token account that `wallet` holds for `mint` under
/// `token_program`: what `get_associated_token_address_with_program_id`
/// derives from the three identifiers, and from nothing else.
pub uninterp spec fn associated_token_address(
    wallet: AccountId,
    mint: AccountId,
    token_program: AccountId,
) -> AccountId;

/// The instruction that creates the token account of `wallet` for `mint`,
/// paid for by `funder`.
pub open spec fn create_associated_token_account_spec(
    funder: AccountId,
    wallet: AccountId,
    mint: AccountId,
    token_program: AccountId,
) -> InstructionView {
    InstructionView {
        program: associated_token_program(),
        accounts: seq![
            writable_signer(funder),
            writable(associated_token_address(wallet, mint, token_program)),
            readonly(wallet),
            readonly(mint),
            readonly(system_program()),
            readonly(token_program),
        ],
        data: seq![0u8],
    }
}

/// Calls `get_associated_token_address_with_program_id`, which hashes the
/// three identifiers with a counter until the result lies off the signature
/// curve. The result depends on the arguments alone. The outside function
/// aborts should all 255 counters fail, which is not known to happen.
#[verifier::external_body]
pub(crate) fn derive_associated_address(
    wallet: &AccountId,
    mint: &AccountId,
    token_program: &AccountId,
) -> (address: AccountId)
    ensures
        address == associated_token_address(*wallet, *mint, *token_program),
{
    let address = spl_associated_token_account::get_associated_token_address_with_program_id(
        &wallet.bytes.into(), &mint.bytes.into(), &token_program.bytes.into(),
    );
    AccountId { bytes: address.to_bytes() }
}

/// Calls `spl_associated_token_account::instruction::create_associated_token_account`.
/// The instruction addresses the associated-token-account program and lists
/// the funder, the derived address, the wallet, the mint, the system program
/// and the token program; its data is the single byte of the operation.
#[verifier::external_body]
pub(crate) fn create_associated_token_account_raw(
    funder: &AccountId,
    wallet: &AccountId,
    mint: &AccountId,
    token_program: &AccountId,
) -> (raw: RawInstruction)
    ensures
        raw@ == create_associated_token_account_spec(*funder, *wallet, *mint, *token_program),
{
    let ix = spl_associated_token_account::instruction::create_associated_token_account(
        &funder.bytes.into(), &wallet.bytes.into(), &mint.bytes.into(),
        &token_program.bytes.into(),
    );
    let accounts = ix.accounts.iter().map(|k| (k.pubkey.to_bytes(), k.is_signer, k.is_writable));
    RawInstruction { program: ix.program_id.to_bytes(), accounts: accounts.collect(), data: ix.data }
}

} // verus!
