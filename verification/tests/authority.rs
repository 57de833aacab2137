use anchor_lang::solana_program::pubkey::Pubkey;
use anchor_lang::solana_program::system_instruction;
use escrow::authority::{derive_vault, VaultAuthority};
use escrow::fee::{split_fee, FeeSplit};
use escrow::identity::Identity;
use escrow::instruction::AccountMeta;
use escrow::ledger::LamportTransfer;
use escrow::record::{ErrorKind, EscrowError};

fn id(n: u8) -> Identity {
    Identity::new([n; 32])
}

#[test]
fn identities_compare_by_bytes() {
    let mut bytes = [7u8; 32];
    assert!(id(7).same(&Identity::new(bytes)));
    bytes[31] = 8;
    assert!(!id(7).same(&Identity::new(bytes)));
    assert_eq!(id(3).to_seed(), vec![3u8; 32]);
}

#[test]
fn derive_finds_the_program_address_of_the_fixed_seed() {
    let program = id(9);
    let authority = VaultAuthority::derive(&program).unwrap();
    let (key, bump) =
        Pubkey::find_program_address(&[b"vault_owner"], &Pubkey::new_from_array(program.bytes));
    assert_eq!(authority.key().bytes, key.to_bytes());
    assert_eq!(authority.bump(), bump);
    assert_eq!(authority.scope(), program);
    assert!(authority.key() != program);
}

#[test]
fn derive_depends_on_the_program() {
    let a = VaultAuthority::derive(&id(1)).unwrap();
    let b = VaultAuthority::derive(&id(2)).unwrap();
    assert!(a.key() != b.key());
}

#[test]
fn rederive_with_the_found_disambiguator_gives_the_same_controller() {
    let program = id(9);
    let found = VaultAuthority::derive(&program).unwrap();
    let again = VaultAuthority::rederive(&program, found.bump()).unwrap();
    assert_eq!(again.key(), found.key());
    assert_eq!(again.bump(), found.bump());
}

#[test]
fn rederive_matches_create_program_address_for_every_disambiguator() {
    let program = id(9);
    let key = Pubkey::new_from_array(program.bytes);
    let mut some = 0;
    let mut none = 0;
    for bump in 0..=255u8 {
        let expected = Pubkey::create_program_address(&[b"vault_owner", &[bump]], &key).ok();
        let got = VaultAuthority::rederive(&program, bump);
        match (expected, got) {
            (Some(k), Some(a)) => {
                assert_eq!(a.key().bytes, k.to_bytes());
                assert_eq!(a.bump(), bump);
                some += 1;
            }
            (None, None) => none += 1,
            _ => panic!("the two derivations disagree at {}", bump),
        }
    }
    assert!(some > 0);
    assert!(none > 0);
}

#[test]
fn another_disambiguator_gives_another_controller_or_none() {
    let program = id(9);
    let found = VaultAuthority::derive(&program).unwrap();
    let other = found.bump().wrapping_sub(1);
    match VaultAuthority::rederive(&program, other) {
        Some(a) => assert!(a.key() != found.key()),
        None => {}
    }
}

#[test]
fn signer_seeds_are_the_label_and_the_disambiguator() {
    let a = VaultAuthority::derive(&id(4)).unwrap();
    assert_eq!(a.seeds(), vec![b"vault_owner".to_vec(), vec![a.bump()]]);
}

#[test]
fn vault_address_is_derived_from_initiator_and_mint() {
    let program = id(9);
    let seller = id(10);
    let mint = id(11);
    let (vault, bump) = derive_vault(&program, &seller, &mint).unwrap();
    let (key, expected_bump) = Pubkey::find_program_address(
        &[b"token_vault", &seller.bytes, &mint.bytes],
        &Pubkey::new_from_array(program.bytes),
    );
    assert_eq!(vault.bytes, key.to_bytes());
    assert_eq!(bump, expected_bump);
}

#[test]
fn vault_addresses_differ_by_initiator_and_by_mint() {
    let program = id(9);
    let (a, _) = derive_vault(&program, &id(10), &id(11)).unwrap();
    let (b, _) = derive_vault(&program, &id(12), &id(11)).unwrap();
    let (c, _) = derive_vault(&program, &id(10), &id(13)).unwrap();
    let (d, _) = derive_vault(&program, &id(11), &id(10)).unwrap();
    assert!(a != b);
    assert!(a != c);
    assert!(b != c);
    assert!(a != d);
    assert!(a != VaultAuthority::derive(&program).unwrap().key());
}

#[test]
fn fee_of_five_percent_of_one_thousand() {
    assert_eq!(split_fee(1000, 5), Some(FeeSplit { fee: 50, net: 950 }));
}

#[test]
fn fee_is_rounded_down() {
    assert_eq!(split_fee(999, 5), Some(FeeSplit { fee: 49, net: 950 }));
    assert_eq!(split_fee(19, 5), Some(FeeSplit { fee: 0, net: 19 }));
    assert_eq!(split_fee(1, 99), Some(FeeSplit { fee: 0, net: 1 }));
    assert_eq!(split_fee(3, 50), Some(FeeSplit { fee: 1, net: 2 }));
}

#[test]
fn fee_at_the_ends_of_the_range() {
    assert_eq!(split_fee(1000, 0), Some(FeeSplit { fee: 0, net: 1000 }));
    assert_eq!(split_fee(1000, 100), Some(FeeSplit { fee: 1000, net: 0 }));
    assert_eq!(split_fee(0, 37), Some(FeeSplit { fee: 0, net: 0 }));
    assert_eq!(split_fee(u64::MAX, 100), Some(FeeSplit { fee: u64::MAX, net: 0 }));
    assert_eq!(
        split_fee(u64::MAX, 1),
        Some(FeeSplit { fee: 184467440737095516, net: u64::MAX - 184467440737095516 })
    );
}

#[test]
fn fee_above_one_hundred_percent_is_refused() {
    assert_eq!(split_fee(1000, 101), None);
    assert_eq!(split_fee(0, 255), None);
}

#[test]
fn fee_and_net_add_up() {
    let amounts = [0u64, 1, 7, 99, 100, 101, 12345, 1 << 40, u64::MAX - 1, u64::MAX];
    for amount in amounts {
        for percent in 0..=100u8 {
            let s = split_fee(amount, percent).unwrap();
            assert_eq!(s.fee as u128 + s.net as u128, amount as u128);
            assert_eq!(s.fee as u128, amount as u128 * percent as u128 / 100);
        }
    }
}

#[test]
fn errors_fall_into_three_families() {
    assert_eq!(EscrowError::Unauthorized.kind(), ErrorKind::Authorization);
    assert_eq!(EscrowError::WrongDerivation.kind(), ErrorKind::Authorization);
    assert_eq!(EscrowError::InsufficientFunds.kind(), ErrorKind::Precondition);
    assert_eq!(EscrowError::InsufficientCounterpartyFunds.kind(), ErrorKind::Precondition);
    assert_eq!(EscrowError::MintMismatch.kind(), ErrorKind::Precondition);
    assert_eq!(EscrowError::DuplicateEscrow.kind(), ErrorKind::Precondition);
    assert_eq!(EscrowError::ZeroAmount.kind(), ErrorKind::Precondition);
    assert_eq!(EscrowError::FeeOutOfRange.kind(), ErrorKind::Precondition);
    assert_eq!(EscrowError::AccountNotFound.kind(), ErrorKind::Host);
    assert_eq!(EscrowError::AccountInUse.kind(), ErrorKind::Host);
    assert_eq!(EscrowError::AccountNotEmpty.kind(), ErrorKind::Host);
    assert_eq!(EscrowError::BalanceOverflow.kind(), ErrorKind::Host);
}

#[test]
fn lamport_leg_becomes_a_system_transfer() {
    let leg = LamportTransfer { from: id(1), to: id(2), lamports: 950 };
    let ix = leg.instruction();
    assert_eq!(ix.program_id, Identity::new([0u8; 32]));
    assert_eq!(
        ix.accounts,
        vec![
            AccountMeta { pubkey: id(1), is_signer: true, is_writable: true },
            AccountMeta { pubkey: id(2), is_signer: false, is_writable: true },
        ]
    );
    assert_eq!(ix.data, vec![2, 0, 0, 0, 0xb6, 0x03, 0, 0, 0, 0, 0, 0]);
    let expected = system_instruction::transfer(
        &Pubkey::new_from_array([1; 32]),
        &Pubkey::new_from_array([2; 32]),
        950,
    );
    assert_eq!(ix.data, expected.data);
    assert_eq!(ix.program_id.bytes, expected.program_id.to_bytes());
}

#[test]
fn lamport_instruction_data_depends_on_the_amount() {
    let a = LamportTransfer { from: id(1), to: id(2), lamports: 1 }.instruction();
    let b = LamportTransfer { from: id(1), to: id(2), lamports: 2 }.instruction();
    assert!(a.data != b.data);
    assert_eq!(a.accounts, b.accounts);
}
