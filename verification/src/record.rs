//! The escrow record, the accounts it refers to, and the errors of the
//! engine.

use crate::identity::Identity;
use vstd::prelude::*;

verus! {

/// The three families of failure.
#[derive(Clone, Copy, Debug, PartialEq, Eq)]
pub enum ErrorKind {
    /// The wrong signer, or the wrong disambiguator.
    Authorization,
    /// A condition on balances, mints or existing escrows is not met.
    Precondition,
    /// The storage or transfer subsystem refused.
    Host,
}

/// Why a call failed. A failed call changes nothing.
#[derive(Clone, Copy, Debug, PartialEq, Eq)]
pub enum EscrowError {
    /// The caller may not do this, or an account named in the call is not
    /// the one the record names.
    Unauthorized,
    /// The disambiguator does not derive the controller of the vault, or a
    /// derived address named in the call is not the derived one.
    WrongDerivation,
    /// The initiator's source account holds less than the offered amount.
    InsufficientFunds,
    /// The counterparty holds less than the requested amount.
    InsufficientCounterpartyFunds,
    /// An account is of another mint than the one required.
    MintMismatch,
    /// An escrow already exists for this initiator and mint.
    DuplicateEscrow,
    /// The offered or the requested amount is zero.
    ZeroAmount,
    /// The fee percentage of the record is above one hundred.
    FeeOutOfRange,
    /// No account exists at an address named in the call.
    AccountNotFound,
    /// An account already exists at the address to create one at.
    AccountInUse,
    /// An account to close still holds a balance.
    AccountNotEmpty,
    /// A balance would exceed what an account can hold.
    BalanceOverflow,
}

impl EscrowError {
    /// The family of the error.
    pub open spec fn spec_kind(&self) -> ErrorKind {
        match *self {
            EscrowError::Unauthorized | EscrowError::WrongDerivation => ErrorKind::Authorization,
            EscrowError::InsufficientFunds
            | EscrowError::InsufficientCounterpartyFunds
            | EscrowError::MintMismatch
            | EscrowError::DuplicateEscrow
            | EscrowError::ZeroAmount
            | EscrowError::FeeOutOfRange => ErrorKind::Precondition,
            EscrowError::AccountNotFound
            | EscrowError::AccountInUse
            | EscrowError::AccountNotEmpty
            | EscrowError::BalanceOverflow => ErrorKind::Host,
        }
    }

    /// The family of the error.
    #[verifier::when_used_as_spec(spec_kind)]
    pub fn kind(&self) -> (k: ErrorKind)
        ensures
            k == self.spec_kind(),
    {
        match self {
            EscrowError::Unauthorized => ErrorKind::Authorization,
            EscrowError::WrongDerivation => ErrorKind::Authorization,
            EscrowError::InsufficientFunds => ErrorKind::Precondition,
            EscrowError::InsufficientCounterpartyFunds => ErrorKind::Precondition,
            EscrowError::MintMismatch => ErrorKind::Precondition,
            EscrowError::DuplicateEscrow => ErrorKind::Precondition,
            EscrowError::ZeroAmount => ErrorKind::Precondition,
            EscrowError::FeeOutOfRange => ErrorKind::Precondition,
            EscrowError::AccountNotFound => ErrorKind::Host,
            EscrowError::AccountInUse => ErrorKind::Host,
            EscrowError::AccountNotEmpty => ErrorKind::Host,
            EscrowError::BalanceOverflow => ErrorKind::Host,
        }
    }
}

/// An account of one mint, with the identity that controls it.
#[derive(Clone, Copy, Debug, PartialEq, Eq)]
pub struct TokenAccount {
    pub mint: Identity,
    pub owner: Identity,
    pub amount: u64,
}

/// What the initiator asks in return for the offered tokens.
#[derive(Clone, Copy, Debug, PartialEq, Eq)]
pub enum Consideration {
    /// Tokens of a second mint, paid into an account of the initiator.
    Tokens { mint: Identity, seller_account: Identity, amount: u64 },
    /// Native currency, of which a percentage goes to the administrator.
    Lamports { management_pk: Identity, lamport_amount: u64, tx_fee: u8 },
}

impl Consideration {
    /// The requested amount.
    pub open spec fn requested(self) -> u64 {
        match self {
            Consideration::Tokens { amount, .. } => amount,
            Consideration::Lamports { lamport_amount, .. } => lamport_amount,
        }
    }

    /// The requested amount.
    pub fn amount(&self) -> (a: u64)
        ensures
            a == self.requested(),
    {
        match self {
            Consideration::Tokens { amount, .. } => *amount,
            Consideration::Lamports { lamport_amount, .. } => *lamport_amount,
        }
    }
}

/// The record of one escrow: fixed when the escrow starts, read by every
/// later call, gone when the vault closes.
#[derive(Clone, Copy, Debug, PartialEq, Eq)]
pub struct EscrowInfo {
    /// The initiator. Fixed at creation; every later authorization check
    /// compares against it.
    pub seller_pk: Identity,
    /// The mint of the offered tokens.
    pub token_mint_pk: Identity,
    /// The initiator's account of the offered mint: where the offer came
    /// from and where a cancellation refunds it.
    pub seller_token_account: Identity,
    /// The amount of tokens offered.
    pub token_amount: u64,
    /// What is asked in return.
    pub asked: Consideration,
}

impl EscrowInfo {
    /// Whether `caller` may cancel: the initiator always, the administrator
    /// where the escrow has one.
    pub open spec fn may_cancel(self, caller: Identity) -> bool {
        caller == self.seller_pk || (self.asked matches Consideration::Lamports {
            management_pk,
            ..
        } && caller == management_pk)
    }

    /// Whether `caller` may cancel.
    pub fn can_cancel(&self, caller: &Identity) -> (r: bool)
        ensures
            r == self.may_cancel(*caller),
    {
        if caller.same(&self.seller_pk) {
            return true;
        }
        match self.asked {
            Consideration::Lamports { management_pk, .. } => caller.same(&management_pk),
            Consideration::Tokens { .. } => false,
        }
    }

    /// Whether both amounts, the offered and the requested one, are
    /// strictly positive: so it is of every record that is kept.
    pub open spec fn amounts_positive(self) -> bool {
        self.token_amount > 0 && self.asked.requested() > 0
    }
}

} // verus!
