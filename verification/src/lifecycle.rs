//! The three calls of an escrow's life: start, cancel, exchange. Each one
//! either carries out all of its legs or leaves the books untouched.

use crate::account::{CancelEscrow, Exchange, Payment, StartEscrow};
use crate::identity::Identity;
use crate::ledger::{applied, Ledger, LedgerState};
use crate::record::{Consideration, EscrowError, EscrowInfo, TokenAccount};
use vstd::prelude::*;

verus! {

/// The account at `address`, if one exists.
pub open spec fn account_at(s: LedgerState, address: Identity) -> Option<TokenAccount> {
    if s.tokens.contains_key(address) {
        Some(s.tokens[address])
    } else {
        None
    }
}

/// The account that is to take the consideration, where tokens are asked
/// and one exists.
pub open spec fn receiving_at(s: LedgerState, asked: Consideration) -> Option<TokenAccount> {
    match asked {
        Consideration::Tokens { seller_account, .. } => account_at(s, seller_account),
        Consideration::Lamports { .. } => None,
    }
}

/// What starting an escrow does to the books, or why it fails.
///
/// In order: `WrongDerivation` unless the controller and the vault
/// address are the derived ones; `DuplicateEscrow` where a record is
/// already kept at the vault address; then as the offer cannot be taken
/// into custody. Then the vault is created under the controller, the
/// offered amount moves from the source into it, and the record is kept.
pub open spec fn start_outcome(
    s: LedgerState,
    ctx: StartEscrow,
    token_amount: u64,
    asked: Consideration,
) -> Result<LedgerState, EscrowError> {
    if !ctx.well_derived(s.program) {
        Err(EscrowError::WrongDerivation)
    } else if s.escrows.contains_key(ctx.token_vault) {
        Err(EscrowError::DuplicateEscrow)
    } else if let Some(e) = ctx.refusal(
        account_at(s, ctx.seller_token_account),
        receiving_at(s, asked),
        token_amount,
        asked,
    ) {
        Err(e)
    } else {
        match s.open_account(ctx.token_vault, ctx.token_mint_pk, ctx.vault_owner) {
            Err(e) => Err(e),
            Ok(opened) => match opened.transfer(ctx.seller_to_vault(), token_amount, ctx.seller) {
                Err(e) => Err(e),
                Ok(funded) => Ok(
                    funded.with_escrow(ctx.token_vault, ctx.record(token_amount, asked)),
                ),
            },
        }
    }
}

/// What cancelling an escrow does to the books, or why it fails.
///
/// In order: `AccountNotFound` where no escrow is active at the vault;
/// `WrongDerivation` unless the disambiguator derives the vault's
/// controller; `Unauthorized` unless the caller may cancel. Then all that
/// the vault holds moves to the initiator's account, and the vault closes.
pub open spec fn cancel_outcome(s: LedgerState, ctx: CancelEscrow, bump: u8) -> Result<
    LedgerState,
    EscrowError,
> {
    if !s.active(ctx.token_vault) {
        Err(EscrowError::AccountNotFound)
    } else {
        let info = s.escrows[ctx.token_vault];
        let vault = s.tokens[ctx.token_vault];
        if let Some(e) = ctx.refusal(info, vault, s.program, bump) {
            Err(e)
        } else {
            match s.transfer_signed(ctx.vault_to_seller(), vault.amount, s.program, vault.owner) {
                Err(e) => Err(e),
                Ok(refunded) => refunded.close_account(ctx.vault_closing(), s.program, vault.owner),
            }
        }
    }
}

/// What the legs of a settlement do to the books, or why one of them
/// fails: the consideration to the initiator, the offer to the
/// counterparty, the fee to the administrator where there is one, and the
/// closing of the vault.
pub open spec fn settle_outcome(s: LedgerState, ctx: Exchange, payment: Payment) -> Result<
    LedgerState,
    EscrowError,
> {
    let vault = s.tokens[ctx.token_vault];
    match payment {
        Payment::Tokens { leg, amount } => match s.transfer(leg, amount, ctx.buyer) {
            Err(e) => Err(e),
            Ok(paid) => match paid.transfer_signed(
                ctx.vault_to_buyer(),
                vault.amount,
                s.program,
                vault.owner,
            ) {
                Err(e) => Err(e),
                Ok(released) => released.close_account(ctx.vault_closing(), s.program, vault.owner),
            },
        },
        Payment::Lamports { net, fee } => match s.transfer_lamports(net, ctx.buyer) {
            Err(e) => Err(e),
            Ok(paid) => match paid.transfer_signed(
                ctx.vault_to_buyer(),
                vault.amount,
                s.program,
                vault.owner,
            ) {
                Err(e) => Err(e),
                Ok(released) => match released.transfer_lamports(fee, ctx.buyer) {
                    Err(e) => Err(e),
                    Ok(charged) => charged.close_account(
                        ctx.vault_closing(),
                        s.program,
                        vault.owner,
                    ),
                },
            },
        },
    }
}

/// What settling an escrow does to the books, or why it fails.
///
/// In order: `AccountNotFound` where no escrow is active at the vault;
/// `WrongDerivation` unless the disambiguator derives the vault's
/// controller; `Unauthorized` unless the initiator and the administrator
/// are those of the record; then the conditions on the counterparty's
/// accounts; then the legs, all or none.
pub open spec fn exchange_outcome(s: LedgerState, ctx: Exchange, bump: u8) -> Result<
    LedgerState,
    EscrowError,
> {
    if !s.active(ctx.token_vault) {
        Err(EscrowError::AccountNotFound)
    } else {
        let info = s.escrows[ctx.token_vault];
        let vault = s.tokens[ctx.token_vault];
        if let Some(e) = ctx.refusal(info, vault, s.program, bump) {
            Err(e)
        } else if let Some(e) = ctx.funds_refusal(
            info,
            account_at(s, ctx.buyer_token_account),
            account_at(s, ctx.buyer_payment_account),
            s.lamports_of(ctx.buyer),
        ) {
            Err(e)
        } else {
            match ctx.payment_of(info) {
                Err(e) => Err(e),
                Ok(payment) => settle_outcome(s, ctx, payment),
            }
        }
    }
}

/// Start an escrow: create the vault under the derived controller, move
/// the offered amount from the initiator's account into it, and keep the
/// record. On failure nothing changes.
pub fn start_escrow(
    ledger: &mut Ledger,
    ctx: &StartEscrow,
    token_amount: u64,
    asked: Consideration,
) -> (r: Result<(), EscrowError>)
    ensures
        applied(
            old(ledger)@,
            final(ledger)@,
            start_outcome(old(ledger)@, *ctx, token_amount, asked),
            r,
        ),
{
    let program = ledger.program();
    match ctx.check_derivation(&program) {
        Ok(_) => {},
        Err(e) => {
            return Err(e);
        },
    }
    if ledger.escrow(&ctx.token_vault).is_some() {
        return Err(EscrowError::DuplicateEscrow);
    }
    let receiving = match asked {
        Consideration::Tokens { seller_account, .. } => ledger.token_account(&seller_account),
        Consideration::Lamports { .. } => None,
    };
    let info = match ctx.accept(
        ledger.token_account(&ctx.seller_token_account),
        receiving,
        token_amount,
        asked,
    ) {
        Ok(i) => i,
        Err(e) => {
            return Err(e);
        },
    };
    let mut work = ledger.duplicate();
    match work.open_account(ctx.token_vault, ctx.token_mint_pk, ctx.vault_owner) {
        Ok(_) => {},
        Err(e) => {
            return Err(e);
        },
    }
    match work.transfer(&ctx.transfer_seller_to_vault(), token_amount, &ctx.seller) {
        Ok(_) => {},
        Err(e) => {
            return Err(e);
        },
    }
    work.record(ctx.token_vault, info);
    *ledger = work;
    Ok(())
}

/// Cancel an escrow: move all that the vault holds back to the
/// initiator's account and close the vault. On failure nothing changes.
pub fn cancel_escrow(ledger: &mut Ledger, ctx: &CancelEscrow, bump: u8) -> (r: Result<
    (),
    EscrowError,
>)
    ensures
        applied(old(ledger)@, final(ledger)@, cancel_outcome(old(ledger)@, *ctx, bump), r),
{
    let info = match ledger.escrow(&ctx.token_vault) {
        Some(i) => i,
        None => {
            return Err(EscrowError::AccountNotFound);
        },
    };
    let vault = match ledger.token_account(&ctx.token_vault) {
        Some(a) => a,
        None => {
            return Err(EscrowError::AccountNotFound);
        },
    };
    let program = ledger.program();
    let authority = match ctx.authorize(&info, &vault, &program, bump) {
        Ok(a) => a,
        Err(e) => {
            return Err(e);
        },
    };
    let mut work = ledger.duplicate();
    match work.transfer_signed(&ctx.transfer_vault_to_user1(), vault.amount, &authority) {
        Ok(_) => {},
        Err(e) => {
            return Err(e);
        },
    }
    match work.close_account(&ctx.close_vault_account(), &authority) {
        Ok(_) => {},
        Err(e) => {
            return Err(e);
        },
    }
    *ledger = work;
    Ok(())
}

/// Settle an escrow: the consideration goes to the initiator, what the
/// vault holds goes to the counterparty, the fee goes to the administrator
/// where there is one, and the vault closes. All legs commit or none does:
/// on failure nothing changes.
pub fn exchange(ledger: &mut Ledger, ctx: &Exchange, bump: u8) -> (r: Result<(), EscrowError>)
    ensures
        applied(old(ledger)@, final(ledger)@, exchange_outcome(old(ledger)@, *ctx, bump), r),
{
    let info = match ledger.escrow(&ctx.token_vault) {
        Some(i) => i,
        None => {
            return Err(EscrowError::AccountNotFound);
        },
    };
    let vault = match ledger.token_account(&ctx.token_vault) {
        Some(a) => a,
        None => {
            return Err(EscrowError::AccountNotFound);
        },
    };
    let program = ledger.program();
    let authority = match ctx.authorize(&info, &vault, &program, bump) {
        Ok(a) => a,
        Err(e) => {
            return Err(e);
        },
    };
    match ctx.check_funds(
        &info,
        ledger.token_account(&ctx.buyer_token_account),
        ledger.token_account(&ctx.buyer_payment_account),
        ledger.lamports(&ctx.buyer),
    ) {
        Ok(_) => {},
        Err(e) => {
            return Err(e);
        },
    }
    let payment = match ctx.payment(&info) {
        Ok(p) => p,
        Err(e) => {
            return Err(e);
        },
    };
    let release = ctx.transfer_token(ctx.token_vault, ctx.buyer_token_account, ctx.vault_owner);
    let mut work = ledger.duplicate();
    match payment {
        Payment::Tokens { leg, amount } => {
            match work.transfer(&leg, amount, &ctx.buyer) {
                Ok(_) => {},
                Err(e) => {
                    return Err(e);
                },
            }
            match work.transfer_signed(&release, vault.amount, &authority) {
                Ok(_) => {},
                Err(e) => {
                    return Err(e);
                },
            }
        },
        Payment::Lamports { net, fee } => {
            match work.transfer_lamports(&net, &ctx.buyer) {
                Ok(_) => {},
                Err(e) => {
                    return Err(e);
                },
            }
            match work.transfer_signed(&release, vault.amount, &authority) {
                Ok(_) => {},
                Err(e) => {
                    return Err(e);
                },
            }
            match work.transfer_lamports(&fee, &ctx.buyer) {
                Ok(_) => {},
                Err(e) => {
                    return Err(e);
                },
            }
        },
    }
    match work.close_account(&ctx.close_vault_account(), &authority) {
        Ok(_) => {},
        Err(e) => {
            return Err(e);
        },
    }
    *ledger = work;
    Ok(())
}

} // verus!
