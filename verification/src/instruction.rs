use crate::account::AccountId;
use vstd::prelude::*;

verus! {

/// One account that an instruction touches, with the rights it is given.
#[derive(Clone, Copy, Debug, PartialEq, Eq)]
pub struct AccountMeta {
    pub id: AccountId,
    pub is_signer: bool,
    pub is_writable: bool,
}

/// An instruction for one program: the accounts it touches, in the order the
/// program expects them, and the bytes that encode its arguments.
#[derive(Clone, Debug, PartialEq, Eq)]
pub struct Instruction {
    pub program: AccountId,
    pub accounts: Vec<AccountMeta>,
    pub data: Vec<u8>,
}

/// The mathematical content of an instruction.
pub struct InstructionView {
    pub program: AccountId,
    pub accounts: Seq<AccountMeta>,
    pub data: Seq<u8>,
}

impl View for Instruction {
    type V = InstructionView;

    open spec fn view(&self) -> InstructionView {
        InstructionView { program: self.program, accounts: self.accounts@, data: self.data@ }
    }
}

/// An instruction as a program's builder hands it over: the identifiers as
/// bare bytes, each account as its bytes, whether it signs and whether it is
/// writable.
pub struct RawInstruction {
    pub program: [u8; 32],
    pub accounts: Vec<([u8; 32], bool, bool)>,
    pub data: Vec<u8>,
}

/// The account that a raw triple stands for.
pub open spec fn meta_of(raw: ([u8; 32], bool, bool)) -> AccountMeta {
    AccountMeta { id: AccountId { bytes: raw.0 }, is_signer: raw.1, is_writable: raw.2 }
}

impl View for RawInstruction {
    type V = InstructionView;

    open spec fn view(&self) -> InstructionView {
        InstructionView {
            program: AccountId { bytes: self.program },
            accounts: self.accounts@.map_values(|a: ([u8; 32], bool, bool)| meta_of(a)),
            data: self.data@,
        }
    }
}

impl Instruction {
    /// Gives a raw instruction its types, keeping every account and byte.
    pub fn from_raw(raw: RawInstruction) -> (ix: Instruction)
        ensures
            ix@ == raw@,
    {
        let mut accounts: Vec<AccountMeta> = Vec::new();
        let mut i: usize = 0;
        while i < raw.accounts.len()
            invariant
                i <= raw.accounts.len(),
                accounts@.len() == i,
                forall|k: int| 0 <= k < i ==> accounts@[k] == meta_of(raw.accounts@[k]),
            decreases raw.accounts.len() - i,
        {
            let (bytes, is_signer, is_writable) = raw.accounts[i];
            accounts.push(AccountMeta { id: AccountId { bytes }, is_signer, is_writable });
            i += 1;
        }
        proof {
            assert(accounts@ =~= raw@.accounts);
        }
        Instruction { program: AccountId { bytes: raw.program }, accounts, data: raw.data }
    }
}

/// An account the instruction may change, which does not sign.
pub open spec fn writable(id: AccountId) -> AccountMeta {
    AccountMeta { id, is_signer: false, is_writable: true }
}

/// An account the instruction may change, which signs.
pub open spec fn writable_signer(id: AccountId) -> AccountMeta {
    AccountMeta { id, is_signer: true, is_writable: true }
}

/// An account the instruction only reads, which does not sign.
pub open spec fn readonly(id: AccountId) -> AccountMeta {
    AccountMeta { id, is_signer: false, is_writable: false }
}

/// An account the instruction only reads, which signs.
pub open spec fn readonly_signer(id: AccountId) -> AccountMeta {
    AccountMeta { id, is_signer: true, is_writable: false }
}

/// The authority named by a token instruction, followed by the signers listed
/// for it. The authority itself signs exactly when no signer is listed.
pub open spec fn authority_accounts(authority: AccountId, signers: Seq<AccountId>) -> Seq<
    AccountMeta,
> {
    seq![AccountMeta { id: authority, is_signer: signers.len() == 0, is_writable: false }]
        + signers.map_values(|s: AccountId| readonly_signer(s))
}

} // verus!
