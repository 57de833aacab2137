use escrow::account::{prove_authority, CancelEscrow, Exchange, StartEscrow};
use escrow::authority::VaultAuthority;
use escrow::identity::Identity;
use escrow::record::{Consideration, EscrowError, EscrowInfo, TokenAccount};

fn id(n: u8) -> Identity {
    Identity::new([n; 32])
}

fn account(mint: u8, owner: u8, amount: u64) -> TokenAccount {
    TokenAccount { mint: id(mint), owner: id(owner), amount }
}

fn start() -> StartEscrow {
    StartEscrow {
        seller: id(1),
        token_mint_pk: id(10),
        seller_token_account: id(20),
        token_vault: id(30),
        vault_owner: id(40),
    }
}

fn tokens(amount: u64) -> Consideration {
    Consideration::Tokens { mint: id(11), seller_account: id(21), amount }
}

fn lamports(lamport_amount: u64, tx_fee: u8) -> Consideration {
    Consideration::Lamports { management_pk: id(3), lamport_amount, tx_fee }
}

fn info(asked: Consideration) -> EscrowInfo {
    EscrowInfo {
        seller_pk: id(1),
        token_mint_pk: id(10),
        seller_token_account: id(20),
        token_amount: 100,
        asked,
    }
}

#[test]
fn accept_hands_out_the_record_of_the_arguments() {
    let r = start().accept(Some(account(10, 1, 100)), Some(account(11, 1, 0)), 100, tokens(50));
    assert_eq!(r, Ok(info(tokens(50))));
    let r = start().accept(Some(account(10, 1, 100)), None, 100, lamports(1000, 5));
    assert_eq!(r, Ok(info(lamports(1000, 5))));
    assert_eq!(start().new_record(100, tokens(50)), info(tokens(50)));
}

#[test]
fn accept_refuses_in_order() {
    let s = start();
    let good = Some(account(10, 1, 100));
    let taking = Some(account(11, 1, 0));
    assert_eq!(s.accept(None, None, 0, tokens(50)), Err(EscrowError::ZeroAmount));
    assert_eq!(s.accept(good, taking, 100, lamports(0, 5)), Err(EscrowError::ZeroAmount));
    assert_eq!(s.accept(None, taking, 100, tokens(50)), Err(EscrowError::AccountNotFound));
    assert_eq!(
        s.accept(Some(account(11, 2, 0)), None, 100, tokens(50)),
        Err(EscrowError::MintMismatch)
    );
    assert_eq!(
        s.accept(Some(account(10, 2, 0)), None, 100, tokens(50)),
        Err(EscrowError::Unauthorized)
    );
    assert_eq!(
        s.accept(Some(account(10, 1, 99)), None, 100, tokens(50)),
        Err(EscrowError::InsufficientFunds)
    );
    assert_eq!(s.accept(good, None, 100, tokens(50)), Err(EscrowError::AccountNotFound));
    assert_eq!(
        s.accept(good, Some(account(10, 1, 0)), 100, tokens(50)),
        Err(EscrowError::MintMismatch)
    );
    assert_eq!(s.accept(good, Some(account(11, 9, 7)), 100, tokens(50)), Ok(info(tokens(50))));
}

#[test]
fn prove_authority_takes_only_the_right_disambiguator() {
    let program = id(200);
    let found = VaultAuthority::derive(&program).unwrap();
    let owner = found.key();
    let vault = TokenAccount { mint: id(10), owner, amount: 100 };
    let proof = prove_authority(&program, found.bump(), &vault, &owner).unwrap();
    assert_eq!(proof.key(), owner);
    assert_eq!(proof.bump(), found.bump());
    assert_eq!(proof.scope(), program);
    assert_eq!(
        prove_authority(&program, found.bump().wrapping_sub(1), &vault, &owner).unwrap_err(),
        EscrowError::WrongDerivation
    );
    assert_eq!(
        prove_authority(&program, found.bump(), &vault, &id(1)).unwrap_err(),
        EscrowError::WrongDerivation
    );
    assert_eq!(
        prove_authority(&id(201), found.bump(), &vault, &owner).unwrap_err(),
        EscrowError::WrongDerivation
    );
    let held_by_seller = account(10, 1, 100);
    assert_eq!(
        prove_authority(&program, found.bump(), &held_by_seller, &id(1)).unwrap_err(),
        EscrowError::WrongDerivation
    );
}

#[test]
fn cancel_is_for_the_initiator_and_the_administrator() {
    let program = id(200);
    let found = VaultAuthority::derive(&program).unwrap();
    let vault = TokenAccount { mint: id(10), owner: found.key(), amount: 100 };
    let call = |payer: u8| CancelEscrow {
        payer: id(payer),
        seller_token_account: id(20),
        token_vault: id(30),
        vault_owner: found.key(),
    };
    let bump = found.bump();
    let with_fee = info(lamports(1000, 5));
    let plain = info(tokens(50));
    assert_eq!(call(1).authorize(&with_fee, &vault, &program, bump).unwrap().key(), found.key());
    assert_eq!(call(3).authorize(&with_fee, &vault, &program, bump).unwrap().bump(), bump);
    assert_eq!(
        call(2).authorize(&with_fee, &vault, &program, bump).unwrap_err(),
        EscrowError::Unauthorized
    );
    assert!(call(1).authorize(&plain, &vault, &program, bump).is_ok());
    assert_eq!(
        call(3).authorize(&plain, &vault, &program, bump).unwrap_err(),
        EscrowError::Unauthorized
    );
    assert_eq!(
        call(1).authorize(&plain, &vault, &program, bump.wrapping_add(1)).unwrap_err(),
        EscrowError::WrongDerivation
    );
}

fn settle(owner: Identity) -> Exchange {
    Exchange {
        seller: id(1),
        buyer: id(2),
        management: id(3),
        buyer_token_account: id(22),
        buyer_payment_account: id(23),
        token_vault: id(30),
        vault_owner: owner,
    }
}

#[test]
fn exchange_names_the_parties_of_the_record() {
    let program = id(200);
    let found = VaultAuthority::derive(&program).unwrap();
    let vault = TokenAccount { mint: id(10), owner: found.key(), amount: 100 };
    let bump = found.bump();
    let call = settle(found.key());
    assert!(call.authorize(&info(lamports(1000, 5)), &vault, &program, bump).is_ok());
    let mut other_admin = call;
    other_admin.management = id(4);
    assert_eq!(
        other_admin.authorize(&info(lamports(1000, 5)), &vault, &program, bump).unwrap_err(),
        EscrowError::Unauthorized
    );
    assert!(other_admin.authorize(&info(tokens(50)), &vault, &program, bump).is_ok());
    let mut other_seller = call;
    other_seller.seller = id(4);
    assert_eq!(
        other_seller.authorize(&info(tokens(50)), &vault, &program, bump).unwrap_err(),
        EscrowError::Unauthorized
    );
}

#[test]
fn funds_are_checked_in_order() {
    let call = settle(id(40));
    let taking = Some(account(10, 2, 0));
    let paying = Some(account(11, 2, 50));
    let for_tokens = info(tokens(50));
    assert_eq!(call.check_funds(&for_tokens, taking, paying, 0), Ok(()));
    assert_eq!(call.check_funds(&for_tokens, None, paying, 0), Err(EscrowError::AccountNotFound));
    assert_eq!(
        call.check_funds(&for_tokens, Some(account(11, 2, 0)), paying, 0),
        Err(EscrowError::MintMismatch)
    );
    assert_eq!(call.check_funds(&for_tokens, taking, None, 0), Err(EscrowError::AccountNotFound));
    assert_eq!(
        call.check_funds(&for_tokens, taking, Some(account(10, 2, 50)), 0),
        Err(EscrowError::MintMismatch)
    );
    assert_eq!(
        call.check_funds(&for_tokens, taking, Some(account(11, 1, 50)), 0),
        Err(EscrowError::Unauthorized)
    );
    assert_eq!(
        call.check_funds(&for_tokens, taking, Some(account(11, 2, 49)), 0),
        Err(EscrowError::InsufficientCounterpartyFunds)
    );
    let for_lamports = info(lamports(1000, 5));
    assert_eq!(call.check_funds(&for_lamports, taking, None, 1000), Ok(()));
    assert_eq!(
        call.check_funds(&for_lamports, taking, None, 999),
        Err(EscrowError::InsufficientCounterpartyFunds)
    );
    assert_eq!(
        call.check_funds(&info(lamports(1000, 101)), taking, None, 0),
        Err(EscrowError::FeeOutOfRange)
    );
    assert_eq!(
        call.check_funds(&info(lamports(1000, 100)), taking, None, 1000),
        Ok(())
    );
}
