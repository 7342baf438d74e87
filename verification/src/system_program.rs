use crate::account::AccountId;
use crate::instruction::{writable_signer, InstructionView, RawInstruction};
use vstd::bytes::spec_u64_to_le_bytes;
use vstd::prelude::*;

verus! {

/// Bytes of the identifier of the system program.
pub const SYSTEM_PROGRAM_BYTES: [u8; 32] = [
    0, 0, 0, 0, 0, 0, 0, 0, 0, 0, 0, 0, 0, 0, 0, 0,
    0, 0, 0, 0, 0, 0, 0, 0, 0, 0, 0, 0, 0, 0, 0, 0,
];

/// The system program, which allocates accounts.
pub open spec fn system_program() -> AccountId {
    AccountId { bytes: SYSTEM_PROGRAM_BYTES }
}

/// The instruction that allocates `new_account` with `space` bytes, funds it
/// with `lamports` taken from `funder` and hands it to `owner`. Its data is
/// the number of the operation in four bytes, the two amounts in eight bytes
/// each, all in little-endian order, and the owner.
pub open spec fn create_account_spec(
    funder: AccountId,
    new_account: AccountId,
    lamports: u64,
    space: u64,
    owner: AccountId,
) -> InstructionView {
    InstructionView {
        program: system_program(),
        accounts: seq![writable_signer(funder), writable_signer(new_account)],
        data: seq![0u8, 0u8, 0u8, 0u8] + spec_u64_to_le_bytes(lamports) + spec_u64_to_le_bytes(
            space,
        ) + owner@,
    }
}

/// Calls `solana_sdk::system_instruction::create_account`. The instruction it
/// returns addresses the system program, has funder and new account both
/// sign and be writable, and carries the operation's fixed-width encoding.
#[verifier::external_body]
pub(crate) fn create_account_raw(
    funder: &AccountId,
    new_account: &AccountId,
    lamports: u64,
    space: u64,
    owner: &AccountId,
) -> (raw: RawInstruction)
    ensures
        raw@ == create_account_spec(*funder, *new_account, lamports, space, *owner),
{
    let ix = solana_sdk::system_instruction::create_account(
        &funder.bytes.into(), &new_account.bytes.into(), lamports, space, &owner.bytes.into(),
    );
    let accounts = ix.accounts.iter().map(|k| (k.pubkey.to_bytes(), k.is_signer, k.is_writable));
    RawInstruction { program: ix.program_id.to_bytes(), accounts: accounts.collect(), data: ix.data }
}

} // verus!
