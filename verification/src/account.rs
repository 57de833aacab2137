//! What a caller names in each of the three calls, the checks that decide
//! whether the call may go ahead, and the legs it then consists of.

use crate::authority::{
    controller_for, derive_vault, searched_authority, searched_vault, VaultAuthority,
};
use crate::fee::{fee_of, net_of, split_fee, MAX_FEE_PERCENT};
use crate::identity::Identity;
use crate::ledger::{CloseAccount, LamportTransfer, Transfer};
use crate::record::{Consideration, EscrowError, EscrowInfo, TokenAccount};
use vstd::prelude::*;

verus! {

/// Whether `bump` derives, under `program`, the controller that `vault`
/// is registered to, and `named` names that controller.
pub open spec fn derivation_holds(
    program: Identity,
    bump: u8,
    vault: TokenAccount,
    named: Identity,
) -> bool {
    controller_for(program, bump) == Some(vault.owner@) && named == vault.owner
}

/// Derive the authority again from the caller's disambiguator and hold it
/// against the controller that the vault is registered to. The
/// disambiguator is never taken on trust: `WrongDerivation` unless it
/// derives that very controller and the call names it.
pub fn prove_authority(program: &Identity, bump: u8, vault: &TokenAccount, named: &Identity) -> (r:
    Result<VaultAuthority, EscrowError>)
    ensures
        match r {
            Ok(a) => {
                &&& derivation_holds(*program, bump, *vault, *named)
                &&& a.program() == *program
                &&& a.controller() == vault.owner
                &&& a.disambiguator() == bump
            },
            Err(e) => e == EscrowError::WrongDerivation && !derivation_holds(
                *program,
                bump,
                *vault,
                *named,
            ),
        },
{
    match VaultAuthority::rederive(program, bump) {
        Some(a) => {
            let controller = a.key();
            if controller.same(&vault.owner) && named.same(&vault.owner) {
                Ok(a)
            } else {
                proof {
                    if controller@ == vault.owner@ {
                        Identity::lemma_view_injective(controller, vault.owner);
                    }
                }
                Err(EscrowError::WrongDerivation)
            }
        },
        None => Err(EscrowError::WrongDerivation),
    }
}

/// What the initiator names to start an escrow.
#[derive(Clone, Copy, Debug, PartialEq, Eq)]
pub struct StartEscrow {
    /// The initiator.
    pub seller: Identity,
    /// The mint of the offered tokens.
    pub token_mint_pk: Identity,
    /// The initiator's account of that mint, from which the offer is taken.
    pub seller_token_account: Identity,
    /// The address at which the vault is to be created.
    pub token_vault: Identity,
    /// The controller that the vault is to obey.
    pub vault_owner: Identity,
}

impl StartEscrow {
    /// The leg that funds the vault.
    pub open spec fn seller_to_vault(self) -> Transfer {
        Transfer { from: self.seller_token_account, to: self.token_vault, authority: self.seller }
    }

    /// The leg that funds the vault: from the initiator's account into the
    /// vault, signed by the initiator.
    pub fn transfer_seller_to_vault(&self) -> (leg: Transfer)
        ensures
            leg == self.seller_to_vault(),
    {
        Transfer { from: self.seller_token_account, to: self.token_vault, authority: self.seller }
    }

    /// The record of the escrow that the call creates.
    pub open spec fn record(self, token_amount: u64, asked: Consideration) -> EscrowInfo {
        EscrowInfo {
            seller_pk: self.seller,
            token_mint_pk: self.token_mint_pk,
            seller_token_account: self.seller_token_account,
            token_amount,
            asked,
        }
    }

    /// The record of the escrow that the call creates: the supplied
    /// arguments, exactly.
    pub fn new_record(&self, token_amount: u64, asked: Consideration) -> (info: EscrowInfo)
        ensures
            info == self.record(token_amount, asked),
    {
        EscrowInfo {
            seller_pk: self.seller,
            token_mint_pk: self.token_mint_pk,
            seller_token_account: self.seller_token_account,
            token_amount,
            asked,
        }
    }

    /// Whether the controller and the vault address that the call names
    /// are the ones derived under `program`: the controller from the fixed
    /// seed, the vault from the initiator and the mint.
    pub open spec fn well_derived(self, program: Identity) -> bool {
        &&& searched_authority(program) matches Some((controller, _))
        &&& controller == self.vault_owner@
        &&& searched_vault(program, self.seller, self.token_mint_pk) matches Some((vault, _))
        &&& vault == self.token_vault@
    }

    /// Derive the controller and the vault address and hold the named ones
    /// against them.
    pub fn check_derivation(&self, program: &Identity) -> (r: Result<(), EscrowError>)
        ensures
            r is Ok <==> self.well_derived(*program),
            r matches Err(e) ==> e == EscrowError::WrongDerivation,
    {
        let authority = match VaultAuthority::derive(program) {
            Some(a) => a,
            None => {
                return Err(EscrowError::WrongDerivation);
            },
        };
        let controller = authority.key();
        if !controller.same(&self.vault_owner) {
            proof {
                if controller@ == self.vault_owner@ {
                    Identity::lemma_view_injective(controller, self.vault_owner);
                }
            }
            return Err(EscrowError::WrongDerivation);
        }
        match derive_vault(program, &self.seller, &self.token_mint_pk) {
            Some((vault, _)) => {
                if vault.same(&self.token_vault) {
                    Ok(())
                } else {
                    proof {
                        if vault@ == self.token_vault@ {
                            Identity::lemma_view_injective(vault, self.token_vault);
                        }
                    }
                    Err(EscrowError::WrongDerivation)
                }
            },
            None => Err(EscrowError::WrongDerivation),
        }
    }

    /// Why the offer cannot be taken into custody, if it cannot. `source`
    /// is the account at `seller_token_account`, where one exists;
    /// `receiving` is the account that is to take the consideration, where
    /// tokens are asked and one exists.
    ///
    /// In order: `ZeroAmount` where nothing is offered or nothing is
    /// requested; for the source account `AccountNotFound`, `MintMismatch`
    /// unless it is of the offered mint, `Unauthorized` unless the
    /// initiator controls it, `InsufficientFunds` unless it holds the
    /// offered amount; for the receiving account `AccountNotFound`, and
    /// `MintMismatch` unless it is of the requested mint.
    pub open spec fn refusal(
        self,
        source: Option<TokenAccount>,
        receiving: Option<TokenAccount>,
        token_amount: u64,
        asked: Consideration,
    ) -> Option<EscrowError> {
        if token_amount == 0 || asked.requested() == 0 {
            Some(EscrowError::ZeroAmount)
        } else {
            match source {
                None => Some(EscrowError::AccountNotFound),
                Some(held) => if held.mint != self.token_mint_pk {
                    Some(EscrowError::MintMismatch)
                } else if held.owner != self.seller {
                    Some(EscrowError::Unauthorized)
                } else if held.amount < token_amount {
                    Some(EscrowError::InsufficientFunds)
                } else {
                    match asked {
                        Consideration::Tokens { mint, .. } => match receiving {
                            None => Some(EscrowError::AccountNotFound),
                            Some(taking) => if taking.mint != mint {
                                Some(EscrowError::MintMismatch)
                            } else {
                                None
                            },
                        },
                        Consideration::Lamports { .. } => None,
                    }
                },
            }
        }
    }

    /// Decide whether the offer can be taken into custody, and if so hand
    /// out the record to keep.
    pub fn accept(
        &self,
        source: Option<TokenAccount>,
        receiving: Option<TokenAccount>,
        token_amount: u64,
        asked: Consideration,
    ) -> (r: Result<EscrowInfo, EscrowError>)
        ensures
            r == (match self.refusal(source, receiving, token_amount, asked) {
                Some(e) => Err::<EscrowInfo, EscrowError>(e),
                None => Ok(self.record(token_amount, asked)),
            }),
    {
        if token_amount == 0 || asked.amount() == 0 {
            return Err(EscrowError::ZeroAmount);
        }
        let held = match source {
            Some(a) => a,
            None => {
                return Err(EscrowError::AccountNotFound);
            },
        };
        if !held.mint.same(&self.token_mint_pk) {
            return Err(EscrowError::MintMismatch);
        }
        if !held.owner.same(&self.seller) {
            return Err(EscrowError::Unauthorized);
        }
        if held.amount < token_amount {
            return Err(EscrowError::InsufficientFunds);
        }
        match asked {
            Consideration::Tokens { mint, .. } => {
                match receiving {
                    Some(taking) => {
                        if !taking.mint.same(&mint) {
                            return Err(EscrowError::MintMismatch);
                        }
                    },
                    None => {
                        return Err(EscrowError::AccountNotFound);
                    },
                }
            },
            Consideration::Lamports { .. } => {},
        }
        Ok(self.new_record(token_amount, asked))
    }
}

/// What the caller names to cancel an escrow.
#[derive(Clone, Copy, Debug, PartialEq, Eq)]
pub struct CancelEscrow {
    /// The caller.
    pub payer: Identity,
    /// The account that is to take the refund.
    pub seller_token_account: Identity,
    /// The vault of the escrow.
    pub token_vault: Identity,
    /// The controller of the vault.
    pub vault_owner: Identity,
}

impl CancelEscrow {
    /// The leg that refunds the offer.
    pub open spec fn vault_to_seller(self) -> Transfer {
        Transfer {
            from: self.token_vault,
            to: self.seller_token_account,
            authority: self.vault_owner,
        }
    }

    /// The leg that refunds the offer: out of the vault into the
    /// initiator's account, under the derived authority.
    pub fn transfer_vault_to_user1(&self) -> (leg: Transfer)
        ensures
            leg == self.vault_to_seller(),
    {
        Transfer {
            from: self.token_vault,
            to: self.seller_token_account,
            authority: self.vault_owner,
        }
    }

    /// The leg that closes the vault.
    pub open spec fn vault_closing(self) -> CloseAccount {
        CloseAccount {
            account: self.token_vault,
            destination: self.payer,
            authority: self.vault_owner,
        }
    }

    /// The leg that closes the vault; its storage deposit goes to the
    /// caller.
    pub fn close_vault_account(&self) -> (leg: CloseAccount)
        ensures
            leg == self.vault_closing(),
    {
        CloseAccount {
            account: self.token_vault,
            destination: self.payer,
            authority: self.vault_owner,
        }
    }

    /// Why the call is refused, if it is: `WrongDerivation` unless the
    /// disambiguator derives the vault's controller, then `Unauthorized`
    /// unless the caller may cancel and the refund goes where the record
    /// says.
    pub open spec fn refusal(
        self,
        info: EscrowInfo,
        vault: TokenAccount,
        program: Identity,
        bump: u8,
    ) -> Option<EscrowError> {
        if !derivation_holds(program, bump, vault, self.vault_owner) {
            Some(EscrowError::WrongDerivation)
        } else if !info.may_cancel(self.payer) || self.seller_token_account
            != info.seller_token_account {
            Some(EscrowError::Unauthorized)
        } else {
            None
        }
    }

    /// Decide whether the call may go ahead, and if so hand out the proof
    /// of authority under which the vault is emptied and closed.
    pub fn authorize(
        &self,
        info: &EscrowInfo,
        vault: &TokenAccount,
        program: &Identity,
        bump: u8,
    ) -> (r: Result<VaultAuthority, EscrowError>)
        ensures
            match r {
                Ok(a) => {
                    &&& self.refusal(*info, *vault, *program, bump) is None
                    &&& a.program() == *program
                    &&& a.controller() == vault.owner
                    &&& a.disambiguator() == bump
                },
                Err(e) => self.refusal(*info, *vault, *program, bump) == Some(e),
            },
    {
        let authority = match prove_authority(program, bump, vault, &self.vault_owner) {
            Ok(a) => a,
            Err(e) => {
                return Err(e);
            },
        };
        if !info.can_cancel(&self.payer) || !self.seller_token_account.same(
            &info.seller_token_account,
        ) {
            return Err(EscrowError::Unauthorized);
        }
        Ok(authority)
    }
}

/// The consideration legs of a settlement.
#[derive(Clone, Copy, Debug, PartialEq, Eq)]
pub enum Payment {
    /// The requested tokens, from the counterparty to the initiator.
    Tokens { leg: Transfer, amount: u64 },
    /// The requested native amount, split: `net` to the initiator and
    /// `fee` to the administrator.
    Lamports { net: LamportTransfer, fee: LamportTransfer },
}

/// What the counterparty names to settle an escrow.
#[derive(Clone, Copy, Debug, PartialEq, Eq)]
pub struct Exchange {
    /// The initiator.
    pub seller: Identity,
    /// The counterparty: the caller.
    pub buyer: Identity,
    /// The administrator. Read only where the escrow has one.
    pub management: Identity,
    /// The counterparty's account of the offered mint, which takes what
    /// the vault holds.
    pub buyer_token_account: Identity,
    /// The counterparty's account of the requested mint, from which the
    /// consideration is paid. Read only where tokens are asked.
    pub buyer_payment_account: Identity,
    /// The vault of the escrow.
    pub token_vault: Identity,
    /// The controller of the vault.
    pub vault_owner: Identity,
}

impl Exchange {
    /// A leg that moves tokens.
    pub fn transfer_token(&self, from: Identity, to: Identity, authority: Identity) -> (leg:
        Transfer)
        ensures
            leg == (Transfer { from, to, authority }),
    {
        Transfer { from, to, authority }
    }

    /// A leg that moves native currency.
    pub fn transfer_lamports(&self, from: Identity, to: Identity, amount: u64) -> (leg:
        LamportTransfer)
        ensures
            leg == (LamportTransfer { from, to, lamports: amount }),
    {
        LamportTransfer { from, to, lamports: amount }
    }

    /// The leg that releases the offer.
    pub open spec fn vault_to_buyer(self) -> Transfer {
        Transfer {
            from: self.token_vault,
            to: self.buyer_token_account,
            authority: self.vault_owner,
        }
    }

    /// The leg that closes the vault.
    pub open spec fn vault_closing(self) -> CloseAccount {
        CloseAccount {
            account: self.token_vault,
            destination: self.seller,
            authority: self.vault_owner,
        }
    }

    /// The leg that closes the vault; its storage deposit goes to the
    /// initiator.
    pub fn close_vault_account(&self) -> (leg: CloseAccount)
        ensures
            leg == self.vault_closing(),
    {
        CloseAccount {
            account: self.token_vault,
            destination: self.seller,
            authority: self.vault_owner,
        }
    }

    /// Why the call is refused, if it is: `WrongDerivation` unless the
    /// disambiguator derives the vault's controller, then `Unauthorized`
    /// unless the initiator and, where the escrow has one, the
    /// administrator are the ones of the record.
    pub open spec fn refusal(
        self,
        info: EscrowInfo,
        vault: TokenAccount,
        program: Identity,
        bump: u8,
    ) -> Option<EscrowError> {
        if !derivation_holds(program, bump, vault, self.vault_owner) {
            Some(EscrowError::WrongDerivation)
        } else if self.seller != info.seller_pk {
            Some(EscrowError::Unauthorized)
        } else if info.asked matches Consideration::Lamports { management_pk, .. }
            && self.management != management_pk {
            Some(EscrowError::Unauthorized)
        } else {
            None
        }
    }

    /// Decide whether the call may go ahead, and if so hand out the proof
    /// of authority under which the vault is emptied and closed.
    pub fn authorize(
        &self,
        info: &EscrowInfo,
        vault: &TokenAccount,
        program: &Identity,
        bump: u8,
    ) -> (r: Result<VaultAuthority, EscrowError>)
        ensures
            match r {
                Ok(a) => {
                    &&& self.refusal(*info, *vault, *program, bump) is None
                    &&& a.program() == *program
                    &&& a.controller() == vault.owner
                    &&& a.disambiguator() == bump
                },
                Err(e) => self.refusal(*info, *vault, *program, bump) == Some(e),
            },
    {
        let authority = match prove_authority(program, bump, vault, &self.vault_owner) {
            Ok(a) => a,
            Err(e) => {
                return Err(e);
            },
        };
        if !self.seller.same(&info.seller_pk) {
            return Err(EscrowError::Unauthorized);
        }
        match info.asked {
            Consideration::Lamports { management_pk, .. } => {
                if !self.management.same(&management_pk) {
                    return Err(EscrowError::Unauthorized);
                }
            },
            Consideration::Tokens { .. } => {},
        }
        Ok(authority)
    }

    /// Which condition on the counterparty's accounts is not met, if one
    /// is not. `receiving` and `paying` are the accounts at
    /// `buyer_token_account` and `buyer_payment_account`, where they
    /// exist; `buyer_lamports` is the counterparty's native balance.
    pub open spec fn funds_refusal(
        self,
        info: EscrowInfo,
        receiving: Option<TokenAccount>,
        paying: Option<TokenAccount>,
        buyer_lamports: u64,
    ) -> Option<EscrowError> {
        match receiving {
            None => Some(EscrowError::AccountNotFound),
            Some(r) => if r.mint != info.token_mint_pk {
                Some(EscrowError::MintMismatch)
            } else {
                match info.asked {
                    Consideration::Tokens { mint, amount, .. } => match paying {
                        None => Some(EscrowError::AccountNotFound),
                        Some(p) => if p.mint != mint {
                            Some(EscrowError::MintMismatch)
                        } else if p.owner != self.buyer {
                            Some(EscrowError::Unauthorized)
                        } else if p.amount < amount {
                            Some(EscrowError::InsufficientCounterpartyFunds)
                        } else {
                            None
                        },
                    },
                    Consideration::Lamports { lamport_amount, tx_fee, .. } => if tx_fee
                        > MAX_FEE_PERCENT {
                        Some(EscrowError::FeeOutOfRange)
                    } else if buyer_lamports < lamport_amount {
                        Some(EscrowError::InsufficientCounterpartyFunds)
                    } else {
                        None
                    },
                }
            },
        }
    }

    /// Check the counterparty's accounts before anything moves.
    pub fn check_funds(
        &self,
        info: &EscrowInfo,
        receiving: Option<TokenAccount>,
        paying: Option<TokenAccount>,
        buyer_lamports: u64,
    ) -> (r: Result<(), EscrowError>)
        ensures
            r == (match self.funds_refusal(*info, receiving, paying, buyer_lamports) {
                Some(e) => Err::<(), EscrowError>(e),
                None => Ok(()),
            }),
    {
        let taking = match receiving {
            Some(a) => a,
            None => {
                return Err(EscrowError::AccountNotFound);
            },
        };
        if !taking.mint.same(&info.token_mint_pk) {
            return Err(EscrowError::MintMismatch);
        }
        match info.asked {
            Consideration::Tokens { mint, amount, .. } => {
                let giving = match paying {
                    Some(a) => a,
                    None => {
                        return Err(EscrowError::AccountNotFound);
                    },
                };
                if !giving.mint.same(&mint) {
                    Err(EscrowError::MintMismatch)
                } else if !giving.owner.same(&self.buyer) {
                    Err(EscrowError::Unauthorized)
                } else if giving.amount < amount {
                    Err(EscrowError::InsufficientCounterpartyFunds)
                } else {
                    Ok(())
                }
            },
            Consideration::Lamports { lamport_amount, tx_fee, .. } => {
                if tx_fee > MAX_FEE_PERCENT {
                    Err(EscrowError::FeeOutOfRange)
                } else if buyer_lamports < lamport_amount {
                    Err(EscrowError::InsufficientCounterpartyFunds)
                } else {
                    Ok(())
                }
            },
        }
    }

    /// The consideration legs that the record asks for.
    pub open spec fn payment_of(self, info: EscrowInfo) -> Result<Payment, EscrowError> {
        match info.asked {
            Consideration::Tokens { seller_account, amount, .. } => Ok(
                Payment::Tokens {
                    leg: Transfer {
                        from: self.buyer_payment_account,
                        to: seller_account,
                        authority: self.buyer,
                    },
                    amount,
                },
            ),
            Consideration::Lamports { management_pk, lamport_amount, tx_fee } => if tx_fee
                > MAX_FEE_PERCENT {
                Err(EscrowError::FeeOutOfRange)
            } else {
                Ok(
                    Payment::Lamports {
                        net: LamportTransfer {
                            from: self.buyer,
                            to: info.seller_pk,
                            lamports: net_of(lamport_amount, tx_fee) as u64,
                        },
                        fee: LamportTransfer {
                            from: self.buyer,
                            to: management_pk,
                            lamports: fee_of(lamport_amount, tx_fee) as u64,
                        },
                    },
                )
            },
        }
    }

    /// Work out the consideration legs: the requested tokens to the
    /// initiator's account, or the requested native amount split into the
    /// fee for the administrator and the rest for the initiator. Fails
    /// with `FeeOutOfRange` where the fee percentage is above one hundred.
    pub fn payment(&self, info: &EscrowInfo) -> (r: Result<Payment, EscrowError>)
        ensures
            r == self.payment_of(*info),
    {
        match info.asked {
            Consideration::Tokens { seller_account, amount, .. } => Ok(
                Payment::Tokens {
                    leg: self.transfer_token(
                        self.buyer_payment_account,
                        seller_account,
                        self.buyer,
                    ),
                    amount,
                },
            ),
            Consideration::Lamports { management_pk, lamport_amount, tx_fee } => {
                match split_fee(lamport_amount, tx_fee) {
                    Some(split) => Ok(
                        Payment::Lamports {
                            net: self.transfer_lamports(self.buyer, info.seller_pk, split.net),
                            fee: self.transfer_lamports(self.buyer, management_pk, split.fee),
                        },
                    ),
                    None => Err(EscrowError::FeeOutOfRange),
                }
            },
        }
    }
}

} // verus!
