use permanent_delegate::account::AccountId;
use permanent_delegate::bundle::{
    burn_tokens, create_ata, initialize_token_mint, mint_tokens, transfer_tokens,
    TransactionBundle,
};
use permanent_delegate::funding::{airdrop_lamports, needs_airdrop, LAMPORTS_PER_SOL};
use permanent_delegate::instruction::{AccountMeta, Instruction};
use permanent_delegate::signing::{
    check_signing, fits, is_well_signed, must_sign, sign_bundle, Anchor, Credential,
    SigningError,
};
use solana_sdk::pubkey::Pubkey;
use solana_sdk::signature::Keypair;
use solana_sdk::signer::Signer;
use solana_sdk::transaction::Transaction;

fn id(n: u8) -> AccountId {
    AccountId::new([n; 32])
}

fn credential(n: u8) -> Credential {
    Credential::from_secret([n; 32])
}

fn anchor() -> Anchor {
    Anchor { bytes: [42; 32] }
}

#[test]
fn credential_signs_for_its_public_key() {
    let expected = Keypair::new_from_array([5; 32]).pubkey();
    assert_eq!(credential(5).id(), AccountId::new(expected.to_bytes()));
    assert_ne!(credential(5).id(), id(5));
    assert_ne!(credential(5).id(), credential(6).id());
    assert_eq!(credential(5).id(), credential(5).id());
}

#[test]
fn mint_initializer_is_signed_by_authority_and_mint() {
    let (authority, mint) = (credential(1), credential(2));
    let bundle = initialize_token_mint(&authority.id(), &mint.id(), 0, 1_461_600);
    let signed = sign_bundle(&bundle, &vec![authority, mint], &anchor()).unwrap();
    assert!(signed.is_signed());
    assert!(signed.verify().is_ok());
    assert_eq!(signed.signatures.len(), 2);
    assert_eq!(signed.message.recent_blockhash, solana_sdk::hash::Hash::new_from_array([42; 32]));
    assert_eq!(signed.message.instructions.len(), 3);
    let payer = Keypair::new_from_array([1; 32]).pubkey();
    assert_eq!(signed.message.account_keys[0], payer);

    let (a, m) = (Keypair::new_from_array([1; 32]), Keypair::new_from_array([2; 32]));
    let space = 202u64;
    let direct = Transaction::new_signed_with_payer(
        &[
            solana_sdk::system_instruction::create_account(
                &a.pubkey(),
                &m.pubkey(),
                1_461_600,
                space,
                &spl_token_2022::id(),
            ),
            spl_token_2022::instruction::initialize_permanent_delegate(
                &spl_token_2022::id(),
                &m.pubkey(),
                &a.pubkey(),
            )
            .unwrap(),
            spl_token_2022::instruction::initialize_mint(
                &spl_token_2022::id(),
                &m.pubkey(),
                &a.pubkey(),
                Some(&a.pubkey()),
                0,
            )
            .unwrap(),
        ],
        Some(&a.pubkey()),
        &[&a, &m],
        solana_sdk::hash::Hash::new_from_array([42; 32]),
    );
    assert_eq!(signed, direct);
}

#[test]
fn transfer_is_signed_without_the_owner() {
    let (delegate, mint, owner) = (credential(1), credential(2), credential(3));
    let (source, _) = create_ata(&owner.id(), &owner.id(), &mint.id());
    let (destination, _) = create_ata(&delegate.id(), &delegate.id(), &mint.id());
    let bundle = transfer_tokens(&delegate.id(), &mint.id(), &source, &destination, 10);
    let signed = sign_bundle(&bundle, &vec![delegate], &anchor()).unwrap();
    assert!(signed.verify().is_ok());
    assert_eq!(signed.signatures.len(), 1);
    let owner_key = Pubkey::new_from_array(owner.id().bytes);
    assert!(!signed.message.account_keys.contains(&owner_key));

    let d = Keypair::new_from_array([1; 32]);
    let direct = Transaction::new_signed_with_payer(
        &[spl_token_2022::instruction::transfer_checked(
            &spl_token_2022::id(),
            &Pubkey::new_from_array(source.bytes),
            &Keypair::new_from_array([2; 32]).pubkey(),
            &Pubkey::new_from_array(destination.bytes),
            &d.pubkey(),
            &[&d.pubkey()],
            10,
            0,
        )
        .unwrap()],
        Some(&d.pubkey()),
        &[&d],
        solana_sdk::hash::Hash::new_from_array([42; 32]),
    );
    assert_eq!(signed, direct);
}

#[test]
fn every_built_bundle_can_be_signed() {
    let (authority, mint, party) = (credential(1), credential(2), credential(3));
    let (a, m, p) = (authority.id(), mint.id(), party.id());
    let (account, create) = create_ata(&p, &p, &m);
    let both = vec![credential(1), credential(2)];
    let one = vec![credential(1)];
    assert!(sign_bundle(&initialize_token_mint(&a, &m, 0, 7), &both, &anchor()).is_ok());
    assert!(sign_bundle(&create, &vec![credential(3)], &anchor()).is_ok());
    assert!(sign_bundle(&mint_tokens(&a, &m, &account, 10), &both, &anchor()).is_ok());
    assert!(sign_bundle(&transfer_tokens(&a, &m, &account, &account, 1), &one, &anchor()).is_ok());
    let burn = burn_tokens(&a, &m, &account, 3);
    let signed = sign_bundle(&burn, &one, &anchor()).unwrap();
    assert!(signed.verify().is_ok());
}

#[test]
fn credentials_must_be_those_of_the_signers_in_order() {
    let (authority, mint) = (credential(1), credential(2));
    let bundle = mint_tokens(&authority.id(), &mint.id(), &id(9), 10);
    let swapped = vec![credential(2), credential(1)];
    assert_eq!(
        sign_bundle(&bundle, &swapped, &anchor()).err(),
        Some(SigningError::CredentialsMismatch)
    );
    assert_eq!(
        sign_bundle(&bundle, &vec![credential(1)], &anchor()).err(),
        Some(SigningError::CredentialsMismatch)
    );
    assert_eq!(
        sign_bundle(&bundle, &vec![credential(1), credential(3)], &anchor()).err(),
        Some(SigningError::CredentialsMismatch)
    );
    assert_eq!(
        sign_bundle(&bundle, &Vec::new(), &anchor()).err(),
        Some(SigningError::CredentialsMismatch)
    );
    assert!(sign_bundle(&bundle, &vec![credential(1), credential(2)], &anchor()).is_ok());
}

#[test]
fn signer_list_must_match_what_the_instructions_ask() {
    let authority = credential(1);
    let good = burn_tokens(&authority.id(), &id(2), &id(6), 3);
    assert!(is_well_signed(&good));
    assert!(must_sign(&good, &authority.id()));
    assert!(!must_sign(&good, &id(6)));
    assert_eq!(check_signing(&good, &good.signers), Ok(()));

    let mut extra = good.clone();
    extra.signers.push(id(6));
    assert!(!is_well_signed(&extra));
    assert_eq!(check_signing(&extra, &extra.signers), Err(SigningError::SignersMismatch));

    let mut missing = good.clone();
    missing.signers.clear();
    assert!(!is_well_signed(&missing));
    assert_eq!(
        sign_bundle(&missing, &Vec::new(), &anchor()).err(),
        Some(SigningError::SignersMismatch)
    );

    let mut unlisted = mint_tokens(&authority.id(), &id(2), &id(6), 3);
    unlisted.signers.pop();
    assert!(!is_well_signed(&unlisted));
    assert!(must_sign(&unlisted, &id(2)));
}

#[test]
fn oversized_bundles_are_refused() {
    let payer = credential(1);
    let program = id(7);
    let roomy = TransactionBundle {
        instructions: vec![Instruction {
            program,
            accounts: vec![
                AccountMeta { id: id(8), is_signer: false, is_writable: false };
                254
            ],
            data: vec![0; 65535],
        }],
        fee_payer: payer.id(),
        signers: vec![payer.id()],
    };
    assert!(fits(&roomy));
    assert!(sign_bundle(&roomy, &vec![credential(1)], &anchor()).is_ok());

    let mut crowded = roomy.clone();
    crowded.instructions[0].accounts.push(AccountMeta {
        id: id(8),
        is_signer: false,
        is_writable: false,
    });
    assert!(!fits(&crowded));
    assert_eq!(
        sign_bundle(&crowded, &vec![credential(1)], &anchor()).err(),
        Some(SigningError::TooLarge)
    );

    let mut heavy = roomy.clone();
    heavy.instructions[0].data.push(0);
    assert!(!fits(&heavy));
    assert_eq!(check_signing(&heavy, &heavy.signers), Err(SigningError::TooLarge));

    let mut many = roomy.clone();
    many.instructions[0].accounts.truncate(100);
    let again = many.instructions[0].clone();
    many.instructions.push(again.clone());
    assert!(fits(&many));
    many.instructions.push(again);
    assert!(!fits(&many));
}

#[test]
fn airdrop_is_asked_below_the_minimum_only() {
    assert_eq!(LAMPORTS_PER_SOL, solana_sdk::native_token::LAMPORTS_PER_SOL);
    assert!(needs_airdrop(0, 2));
    assert!(needs_airdrop(1_999_999_999, 2));
    assert!(!needs_airdrop(2_000_000_000, 2));
    assert!(!needs_airdrop(5_000_000_000, 2));
    assert!(!needs_airdrop(0, 0));
    assert!(needs_airdrop(u64::MAX, u64::MAX));
    assert!(!needs_airdrop(u64::MAX, 18_446_744_073));
    assert!(needs_airdrop(u64::MAX, 18_446_744_074));
    assert_eq!(airdrop_lamports(2), Some(2_000_000_000));
    assert_eq!(airdrop_lamports(0), Some(0));
    assert_eq!(airdrop_lamports(18_446_744_073), Some(18_446_744_073_000_000_000));
    assert_eq!(airdrop_lamports(18_446_744_074), None);
}
