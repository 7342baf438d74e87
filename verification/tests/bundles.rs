use permanent_delegate::account::AccountId;
use permanent_delegate::associated_account::ASSOCIATED_TOKEN_PROGRAM_BYTES;
use permanent_delegate::bundle::{
    burn_tokens, create_ata, initialize_token_mint, mint_account_space, mint_tokens,
    transfer_tokens, TOKEN_DECIMALS,
};
use permanent_delegate::instruction::{AccountMeta, Instruction, RawInstruction};
use permanent_delegate::system_program::SYSTEM_PROGRAM_BYTES;
use permanent_delegate::token_program::{
    RENT_SYSVAR_BYTES, TOKEN_2022_PROGRAM_BYTES, TOKEN_PROGRAM_BYTES,
};
use solana_sdk::pubkey::Pubkey;

fn id(n: u8) -> AccountId {
    AccountId::new([n; 32])
}

fn meta(id: AccountId, is_signer: bool, is_writable: bool) -> AccountMeta {
    AccountMeta { id, is_signer, is_writable }
}

fn token_2022() -> AccountId {
    AccountId::new(TOKEN_2022_PROGRAM_BYTES)
}

#[test]
fn program_identifiers_are_those_of_the_programs() {
    assert_eq!(spl_token_2022::id().to_bytes(), TOKEN_2022_PROGRAM_BYTES);
    let plain = Pubkey::new_from_array(TOKEN_PROGRAM_BYTES);
    assert!(spl_token_2022::check_spl_token_program_account(&plain).is_ok());
    assert!(spl_token_2022::check_program_account(&plain).is_err());
    assert_ne!(TOKEN_PROGRAM_BYTES, TOKEN_2022_PROGRAM_BYTES);
    assert_eq!(spl_associated_token_account::id().to_bytes(), ASSOCIATED_TOKEN_PROGRAM_BYTES);
    assert_eq!(solana_sdk::system_program::id().to_bytes(), SYSTEM_PROGRAM_BYTES);
    assert_eq!(solana_sdk::sysvar::rent::id().to_bytes(), RENT_SYSVAR_BYTES);
}

#[test]
fn account_identifiers_compare_by_bytes() {
    assert_eq!(id(1), AccountId::new([1; 32]));
    assert_ne!(id(1), id(2));
    let mut bytes = [7u8; 32];
    bytes[31] = 8;
    assert_ne!(AccountId::new(bytes), id(7));
    assert!(id(3).is(&id(3)));
    assert!(!id(3).is(&id(4)));
}

#[test]
fn raw_instruction_keeps_every_part() {
    let raw = RawInstruction {
        program: [9; 32],
        accounts: vec![([1; 32], true, false), ([2; 32], false, true)],
        data: vec![1, 2, 3],
    };
    let ix = Instruction::from_raw(raw);
    assert_eq!(ix.program, id(9));
    assert_eq!(ix.accounts, vec![meta(id(1), true, false), meta(id(2), false, true)]);
    assert_eq!(ix.data, vec![1, 2, 3]);
}

#[test]
fn mint_account_has_room_for_the_delegate() {
    assert_eq!(mint_account_space(), 202);
}

#[test]
fn mint_initializer_orders_extension_before_base_record() {
    let (authority, mint) = (id(1), id(2));
    let bundle = initialize_token_mint(&authority, &mint, 0, 2_000_000);
    assert_eq!(bundle.fee_payer, authority);
    assert_eq!(bundle.signers, vec![authority, mint]);
    assert_eq!(bundle.instructions.len(), 3);

    let allocate = &bundle.instructions[0];
    assert_eq!(allocate.program, AccountId::new(SYSTEM_PROGRAM_BYTES));
    assert_eq!(allocate.accounts, vec![meta(authority, true, true), meta(mint, true, true)]);
    let mut data = vec![0u8, 0, 0, 0];
    data.extend_from_slice(&2_000_000u64.to_le_bytes());
    data.extend_from_slice(&202u64.to_le_bytes());
    data.extend_from_slice(&TOKEN_2022_PROGRAM_BYTES);
    assert_eq!(allocate.data, data);

    let bind = &bundle.instructions[1];
    assert_eq!(bind.program, token_2022());
    assert_eq!(bind.accounts, vec![meta(mint, false, true)]);
    let mut data = vec![35u8];
    data.extend_from_slice(&[1; 32]);
    assert_eq!(bind.data, data);

    let init = &bundle.instructions[2];
    assert_eq!(init.program, token_2022());
    assert_eq!(
        init.accounts,
        vec![meta(mint, false, true), meta(AccountId::new(RENT_SYSVAR_BYTES), false, false)]
    );
    let mut data = vec![0u8, 0];
    data.extend_from_slice(&[1; 32]);
    data.push(1);
    data.extend_from_slice(&[1; 32]);
    assert_eq!(init.data, data);
}

#[test]
fn mint_initializer_carries_the_decimals() {
    let bundle = initialize_token_mint(&id(1), &id(2), 9, 1);
    assert_eq!(bundle.instructions[2].data[0], 0);
    assert_eq!(bundle.instructions[2].data[1], 9);
    assert_eq!(bundle.instructions[0].data[4..12], 1u64.to_le_bytes());
}

#[test]
fn associated_account_address_is_the_derived_one() {
    let (payer, owner, mint) = (id(1), id(3), id(2));
    let (address, bundle) = create_ata(&payer, &owner, &mint);
    let expected = spl_associated_token_account::get_associated_token_address_with_program_id(
        &Pubkey::new_from_array([3; 32]),
        &Pubkey::new_from_array([2; 32]),
        &spl_token_2022::id(),
    );
    assert_eq!(address, AccountId::new(expected.to_bytes()));
    assert_ne!(address, owner);
    assert_ne!(address, mint);
    assert_ne!(address, token_2022());

    assert_eq!(bundle.fee_payer, payer);
    assert_eq!(bundle.signers, vec![payer]);
    assert_eq!(bundle.instructions.len(), 1);
    let create = &bundle.instructions[0];
    assert_eq!(create.program, AccountId::new(ASSOCIATED_TOKEN_PROGRAM_BYTES));
    assert_eq!(
        create.accounts,
        vec![
            meta(payer, true, true),
            meta(address, false, true),
            meta(owner, false, false),
            meta(mint, false, false),
            meta(AccountId::new(SYSTEM_PROGRAM_BYTES), false, false),
            meta(token_2022(), false, false),
        ]
    );
    assert_eq!(create.data, vec![0u8]);
}

#[test]
fn associated_account_address_depends_on_owner_and_mint() {
    let (first, _) = create_ata(&id(1), &id(3), &id(2));
    let (again, _) = create_ata(&id(9), &id(3), &id(2));
    let (other_owner, _) = create_ata(&id(1), &id(4), &id(2));
    let (other_mint, _) = create_ata(&id(1), &id(3), &id(5));
    assert_eq!(first, again);
    assert_ne!(first, other_owner);
    assert_ne!(first, other_mint);
}

#[test]
fn mint_lists_authority_and_mint_as_signers() {
    let (authority, mint, destination) = (id(1), id(2), id(5));
    let bundle = mint_tokens(&authority, &mint, &destination, 10);
    assert_eq!(bundle.fee_payer, authority);
    assert_eq!(bundle.signers, vec![authority, mint]);
    assert_eq!(bundle.instructions.len(), 1);
    let credit = &bundle.instructions[0];
    assert_eq!(credit.program, token_2022());
    assert_eq!(
        credit.accounts,
        vec![
            meta(mint, false, true),
            meta(destination, false, true),
            meta(authority, false, false),
            meta(authority, true, false),
            meta(mint, true, false),
        ]
    );
    assert_eq!(credit.data, vec![7u8, 10, 0, 0, 0, 0, 0, 0, 0]);
}

#[test]
fn transfer_is_signed_by_the_delegate_alone() {
    let (authority, mint, source, destination) = (id(1), id(2), id(5), id(6));
    let bundle = transfer_tokens(&authority, &mint, &source, &destination, 10);
    assert_eq!(bundle.fee_payer, authority);
    assert_eq!(bundle.signers, vec![authority]);
    assert_eq!(bundle.instructions.len(), 1);
    let moved = &bundle.instructions[0];
    assert_eq!(moved.program, token_2022());
    assert_eq!(
        moved.accounts,
        vec![
            meta(source, false, true),
            meta(mint, false, false),
            meta(destination, false, true),
            meta(authority, false, false),
            meta(authority, true, false),
        ]
    );
    assert_eq!(moved.data, vec![12u8, 10, 0, 0, 0, 0, 0, 0, 0, TOKEN_DECIMALS]);
}

#[test]
fn transfer_amount_is_little_endian() {
    let bundle = transfer_tokens(&id(1), &id(2), &id(5), &id(6), 0x0102_0304_0506_0708);
    assert_eq!(bundle.instructions[0].data, vec![12u8, 8, 7, 6, 5, 4, 3, 2, 1, 0]);
    let bundle = transfer_tokens(&id(1), &id(2), &id(5), &id(6), u64::MAX);
    assert_eq!(bundle.instructions[0].data, vec![12u8, 255, 255, 255, 255, 255, 255, 255, 255, 0]);
}

#[test]
fn burn_is_signed_by_the_delegate_alone() {
    let (authority, mint, from) = (id(1), id(2), id(6));
    let bundle = burn_tokens(&authority, &mint, &from, 3);
    assert_eq!(bundle.fee_payer, authority);
    assert_eq!(bundle.signers, vec![authority]);
    assert_eq!(bundle.instructions.len(), 1);
    let burnt = &bundle.instructions[0];
    assert_eq!(burnt.program, token_2022());
    assert_eq!(
        burnt.accounts,
        vec![
            meta(from, false, true),
            meta(mint, false, true),
            meta(authority, false, false),
            meta(authority, true, false),
        ]
    );
    assert_eq!(burnt.data, vec![15u8, 3, 0, 0, 0, 0, 0, 0, 0, TOKEN_DECIMALS]);
}

#[test]
fn every_signer_an_instruction_asks_for_is_listed() {
    let bundles = vec![
        initialize_token_mint(&id(1), &id(2), 0, 5),
        create_ata(&id(1), &id(3), &id(2)).1,
        mint_tokens(&id(1), &id(2), &id(5), 10),
        transfer_tokens(&id(1), &id(2), &id(5), &id(6), 10),
        burn_tokens(&id(1), &id(2), &id(6), 3),
    ];
    for bundle in bundles.iter() {
        assert!(bundle.signers.contains(&bundle.fee_payer));
        for instruction in bundle.instructions.iter() {
            for account in instruction.accounts.iter() {
                if account.is_signer {
                    assert!(bundle.signers.contains(&account.id));
                }
            }
        }
        for signer in bundle.signers.iter() {
            let asked = bundle
                .instructions
                .iter()
                .any(|ix| ix.accounts.iter().any(|a| a.is_signer && a.id == *signer));
            assert!(asked || *signer == bundle.fee_payer);
        }
    }
}
