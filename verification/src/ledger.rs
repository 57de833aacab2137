//! The books that the engine keeps custody in: token accounts, native
//! balances and escrow records, with the transfer and close primitives
//! that move assets between them.

use crate::authority::VaultAuthority;
use crate::identity::Identity;
use crate::record::{EscrowError, EscrowInfo, TokenAccount};
use crate::table::Table;
use vstd::prelude::*;

verus! {

/// A movement of tokens from one account to another, authorized by the
/// identity that controls the source.
#[derive(Clone, Copy, Debug, PartialEq, Eq)]
pub struct Transfer {
    pub from: Identity,
    pub to: Identity,
    pub authority: Identity,
}

/// The closing of an emptied account. `destination` is where the host
/// returns the storage deposit of the account; the books themselves keep
/// no deposits.
#[derive(Clone, Copy, Debug, PartialEq, Eq)]
pub struct CloseAccount {
    pub account: Identity,
    pub destination: Identity,
    pub authority: Identity,
}

/// A movement of native currency between two parties.
#[derive(Clone, Copy, Debug, PartialEq, Eq)]
pub struct LamportTransfer {
    pub from: Identity,
    pub to: Identity,
    pub lamports: u64,
}

/// The books as a mathematical value.
pub struct LedgerState {
    /// The program whose derived authority controls the vaults.
    pub program: Identity,
    /// Every token account, vaults included, by address.
    pub tokens: Map<Identity, TokenAccount>,
    /// The native balance of each party that holds any.
    pub lamports: Map<Identity, u64>,
    /// The record of each active escrow, by the address of its vault.
    pub escrows: Map<Identity, EscrowInfo>,
}

impl LedgerState {
    /// The native balance of `who`: nothing where none is recorded.
    pub open spec fn lamports_of(self, who: Identity) -> u64 {
        if self.lamports.contains_key(who) {
            self.lamports[who]
        } else {
            0
        }
    }

    /// The token balance at `address`: nothing where no account exists.
    pub open spec fn balance_of(self, address: Identity) -> u64 {
        if self.tokens.contains_key(address) {
            self.tokens[address].amount
        } else {
            0
        }
    }

    /// Whether an escrow is active at `vault`.
    pub open spec fn active(self, vault: Identity) -> bool {
        self.escrows.contains_key(vault) && self.tokens.contains_key(vault)
    }

    /// The books with the account at `address` holding `amount`.
    pub open spec fn with_balance(self, address: Identity, amount: u64) -> LedgerState {
        LedgerState {
            tokens: self.tokens.insert(
                address,
                TokenAccount { amount, ..self.tokens[address] },
            ),
            ..self
        }
    }

    /// The books with `who` holding `lamports` of native currency.
    pub open spec fn with_lamports(self, who: Identity, lamports: u64) -> LedgerState {
        LedgerState { lamports: self.lamports.insert(who, lamports), ..self }
    }

    /// Create an empty account of `mint` at `address`, controlled by
    /// `owner`.
    pub open spec fn open_account(
        self,
        address: Identity,
        mint: Identity,
        owner: Identity,
    ) -> Result<LedgerState, EscrowError> {
        if self.tokens.contains_key(address) {
            Err(EscrowError::AccountInUse)
        } else {
            Ok(
                LedgerState {
                    tokens: self.tokens.insert(address, TokenAccount { mint, owner, amount: 0 }),
                    ..self
                },
            )
        }
    }

    /// Issue `amount` new tokens into the account at `address`. A vault in
    /// custody takes none.
    pub open spec fn mint_to(self, address: Identity, amount: u64) -> Result<
        LedgerState,
        EscrowError,
    > {
        if !self.tokens.contains_key(address) {
            Err(EscrowError::AccountNotFound)
        } else if self.escrows.contains_key(address) {
            Err(EscrowError::Unauthorized)
        } else if self.tokens[address].amount + amount > u64::MAX {
            Err(EscrowError::BalanceOverflow)
        } else {
            Ok(self.with_balance(address, (self.tokens[address].amount + amount) as u64))
        }
    }

    /// Add `lamports` of native currency to what `who` holds.
    pub open spec fn fund(self, who: Identity, lamports: u64) -> Result<LedgerState, EscrowError> {
        if self.lamports_of(who) + lamports > u64::MAX {
            Err(EscrowError::BalanceOverflow)
        } else {
            Ok(self.with_lamports(who, (self.lamports_of(who) + lamports) as u64))
        }
    }

    /// Move `amount` tokens between two existing accounts, once the
    /// authority over the source is settled. A vault in custody takes no
    /// deposit: what it holds is what was offered.
    pub open spec fn move_tokens(self, from: Identity, to: Identity, amount: u64) -> Result<
        LedgerState,
        EscrowError,
    > {
        if self.escrows.contains_key(to) {
            Err(EscrowError::Unauthorized)
        } else if self.tokens[from].mint != self.tokens[to].mint {
            Err(EscrowError::MintMismatch)
        } else if self.tokens[from].amount < amount {
            Err(EscrowError::InsufficientFunds)
        } else if from == to {
            Ok(self)
        } else if self.tokens[to].amount + amount > u64::MAX {
            Err(EscrowError::BalanceOverflow)
        } else {
            Ok(
                self.with_balance(from, (self.tokens[from].amount - amount) as u64).with_balance(
                    to,
                    (self.tokens[to].amount + amount) as u64,
                ),
            )
        }
    }

    /// A transfer that a party signs for an account of its own. A vault
    /// obeys only the derived authority, whoever signs.
    pub open spec fn transfer(self, leg: Transfer, amount: u64, signer: Identity) -> Result<
        LedgerState,
        EscrowError,
    > {
        if !self.tokens.contains_key(leg.from) || !self.tokens.contains_key(leg.to) {
            Err(EscrowError::AccountNotFound)
        } else if self.escrows.contains_key(leg.from) || self.tokens[leg.from].owner
            != leg.authority || leg.authority != signer {
            Err(EscrowError::Unauthorized)
        } else {
            self.move_tokens(leg.from, leg.to, amount)
        }
    }

    /// Whether the authority derived under `program` with controller
    /// `controller` is the one that `account` obeys and `named` names.
    pub open spec fn obeys(
        self,
        account: Identity,
        named: Identity,
        program: Identity,
        controller: Identity,
    ) -> bool {
        program == self.program && self.tokens[account].owner == controller && named == controller
    }

    /// A transfer out of an account that the derived authority controls.
    pub open spec fn transfer_signed(
        self,
        leg: Transfer,
        amount: u64,
        program: Identity,
        controller: Identity,
    ) -> Result<LedgerState, EscrowError> {
        if !self.tokens.contains_key(leg.from) || !self.tokens.contains_key(leg.to) {
            Err(EscrowError::AccountNotFound)
        } else if !self.obeys(leg.from, leg.authority, program, controller) {
            Err(EscrowError::WrongDerivation)
        } else {
            self.move_tokens(leg.from, leg.to, amount)
        }
    }

    /// A transfer of native currency that its payer signs.
    pub open spec fn transfer_lamports(self, leg: LamportTransfer, signer: Identity) -> Result<
        LedgerState,
        EscrowError,
    > {
        if leg.from != signer {
            Err(EscrowError::Unauthorized)
        } else if self.lamports_of(leg.from) < leg.lamports {
            Err(EscrowError::InsufficientFunds)
        } else if leg.from == leg.to {
            Ok(self)
        } else if self.lamports_of(leg.to) + leg.lamports > u64::MAX {
            Err(EscrowError::BalanceOverflow)
        } else {
            Ok(
                self.with_lamports(
                    leg.from,
                    (self.lamports_of(leg.from) - leg.lamports) as u64,
                ).with_lamports(leg.to, (self.lamports_of(leg.to) + leg.lamports) as u64),
            )
        }
    }

    /// The closing of an emptied account that the derived authority
    /// controls. The record kept at its address goes with it.
    pub open spec fn close_account(
        self,
        leg: CloseAccount,
        program: Identity,
        controller: Identity,
    ) -> Result<LedgerState, EscrowError> {
        if !self.tokens.contains_key(leg.account) {
            Err(EscrowError::AccountNotFound)
        } else if !self.obeys(leg.account, leg.authority, program, controller) {
            Err(EscrowError::WrongDerivation)
        } else if self.tokens[leg.account].amount != 0 {
            Err(EscrowError::AccountNotEmpty)
        } else {
            Ok(
                LedgerState {
                    tokens: self.tokens.remove(leg.account),
                    escrows: self.escrows.remove(leg.account),
                    ..self
                },
            )
        }
    }

    /// The books with the record `info` kept at `vault`.
    pub open spec fn with_escrow(self, vault: Identity, info: EscrowInfo) -> LedgerState {
        LedgerState { escrows: self.escrows.insert(vault, info), ..self }
    }
}

/// How a call that returned `r` has left the books: as `outcome` says on
/// success, untouched on failure, with the error that `outcome` names.
pub open spec fn applied(
    before: LedgerState,
    after: LedgerState,
    outcome: Result<LedgerState, EscrowError>,
    r: Result<(), EscrowError>,
) -> bool {
    match r {
        Ok(_) => outcome == Ok::<LedgerState, EscrowError>(after),
        Err(e) => outcome == Err::<LedgerState, EscrowError>(e) && after == before,
    }
}

/// The books.
pub struct Ledger {
    program: Identity,
    tokens: Table<TokenAccount>,
    wallets: Table<u64>,
    escrows: Table<EscrowInfo>,
}

impl Ledger {
    /// The books as a mathematical value.
    pub closed spec fn view(&self) -> LedgerState {
        LedgerState {
            program: self.program,
            tokens: self.tokens@,
            lamports: self.wallets@,
            escrows: self.escrows@,
        }
    }

    /// Empty books for the escrows of `program`.
    pub fn new(program: Identity) -> (ledger: Ledger)
        ensures
            ledger@ == (LedgerState {
                program,
                tokens: Map::empty(),
                lamports: Map::empty(),
                escrows: Map::empty(),
            }),
    {
        Ledger { program, tokens: Table::new(), wallets: Table::new(), escrows: Table::new() }
    }

    /// A copy of the books.
    pub fn duplicate(&self) -> (copy: Ledger)
        ensures
            copy@ == self@,
    {
        Ledger {
            program: self.program,
            tokens: self.tokens.duplicate(),
            wallets: self.wallets.duplicate(),
            escrows: self.escrows.duplicate(),
        }
    }

    /// The program whose derived authority controls the vaults.
    pub fn program(&self) -> (p: Identity)
        ensures
            p == self@.program,
    {
        self.program
    }

    /// The token account at `address`, if one exists.
    pub fn token_account(&self, address: &Identity) -> (r: Option<TokenAccount>)
        ensures
            r == (if self@.tokens.contains_key(*address) {
                Some(self@.tokens[*address])
            } else {
                None
            }),
    {
        self.tokens.get(address)
    }

    /// The native balance of `who`.
    pub fn lamports(&self, who: &Identity) -> (r: u64)
        ensures
            r == self@.lamports_of(*who),
    {
        match self.wallets.get(who) {
            Some(l) => l,
            None => 0,
        }
    }

    /// The record of the escrow whose vault is at `vault`, if one is kept.
    pub fn escrow(&self, vault: &Identity) -> (r: Option<EscrowInfo>)
        ensures
            r == (if self@.escrows.contains_key(*vault) {
                Some(self@.escrows[*vault])
            } else {
                None
            }),
    {
        self.escrows.get(vault)
    }

    /// Create an empty account of `mint` at `address`, controlled by
    /// `owner`. Fails with `AccountInUse` where the address is taken.
    pub fn open_account(&mut self, address: Identity, mint: Identity, owner: Identity) -> (r:
        Result<(), EscrowError>)
        ensures
            applied(old(self)@, final(self)@, old(self)@.open_account(address, mint, owner), r),
    {
        if self.tokens.contains(&address) {
            return Err(EscrowError::AccountInUse);
        }
        self.tokens.set(address, TokenAccount { mint, owner, amount: 0 });
        Ok(())
    }

    /// Issue `amount` new tokens into the account at `address`. Fails with
    /// `AccountNotFound` where there is none, with `Unauthorized` where it
    /// is a vault in custody, with `BalanceOverflow` where it cannot hold
    /// them.
    pub fn mint_to(&mut self, address: Identity, amount: u64) -> (r: Result<(), EscrowError>)
        ensures
            applied(old(self)@, final(self)@, old(self)@.mint_to(address, amount), r),
    {
        let account = match self.tokens.get(&address) {
            Some(a) => a,
            None => {
                return Err(EscrowError::AccountNotFound);
            },
        };
        if self.escrows.contains(&address) {
            return Err(EscrowError::Unauthorized);
        }
        if amount > u64::MAX - account.amount {
            return Err(EscrowError::BalanceOverflow);
        }
        self.tokens.set(address, TokenAccount { amount: account.amount + amount, ..account });
        Ok(())
    }

    /// Add `lamports` of native currency to what `who` holds.
    pub fn fund(&mut self, who: Identity, lamports: u64) -> (r: Result<(), EscrowError>)
        ensures
            applied(old(self)@, final(self)@, old(self)@.fund(who, lamports), r),
    {
        let held = self.lamports(&who);
        if lamports > u64::MAX - held {
            return Err(EscrowError::BalanceOverflow);
        }
        self.wallets.set(who, held + lamports);
        Ok(())
    }

    /// Keep the record `info` at `vault`.
    pub(crate) fn record(&mut self, vault: Identity, info: EscrowInfo)
        ensures
            final(self)@ == old(self)@.with_escrow(vault, info),
    {
        self.escrows.set(vault, info);
    }

    fn move_tokens(&mut self, from: Identity, to: Identity, amount: u64) -> (r: Result<
        (),
        EscrowError,
    >)
        requires
            old(self)@.tokens.contains_key(from),
            old(self)@.tokens.contains_key(to),
        ensures
            applied(old(self)@, final(self)@, old(self)@.move_tokens(from, to, amount), r),
    {
        let source = self.tokens.get(&from).unwrap();
        let target = self.tokens.get(&to).unwrap();
        if self.escrows.contains(&to) {
            return Err(EscrowError::Unauthorized);
        }
        if !source.mint.same(&target.mint) {
            return Err(EscrowError::MintMismatch);
        }
        if source.amount < amount {
            return Err(EscrowError::InsufficientFunds);
        }
        if from.same(&to) {
            return Ok(());
        }
        if amount > u64::MAX - target.amount {
            return Err(EscrowError::BalanceOverflow);
        }
        self.tokens.set(from, TokenAccount { amount: source.amount - amount, ..source });
        self.tokens.set(to, TokenAccount { amount: target.amount + amount, ..target });
        Ok(())
    }

    /// Carry out a transfer that `signer` signs for an account of its own.
    /// Fails with `AccountNotFound` where either account is missing, with
    /// `Unauthorized` where the source is a vault or is not controlled by
    /// the signer named as authority, then as the movement itself fails.
    pub fn transfer(&mut self, leg: &Transfer, amount: u64, signer: &Identity) -> (r: Result<
        (),
        EscrowError,
    >)
        ensures
            applied(old(self)@, final(self)@, old(self)@.transfer(*leg, amount, *signer), r),
    {
        let source = match self.tokens.get(&leg.from) {
            Some(a) => a,
            None => {
                return Err(EscrowError::AccountNotFound);
            },
        };
        if !self.tokens.contains(&leg.to) {
            return Err(EscrowError::AccountNotFound);
        }
        if self.escrows.contains(&leg.from) || !source.owner.same(&leg.authority)
            || !leg.authority.same(signer) {
            return Err(EscrowError::Unauthorized);
        }
        self.move_tokens(leg.from, leg.to, amount)
    }

    fn check_obeys(
        &self,
        account: &TokenAccount,
        named: &Identity,
        authority: &VaultAuthority,
    ) -> (r: bool)
        ensures
            r == (authority.program() == self@.program && account.owner == authority.controller()
                && *named == authority.controller()),
    {
        let controller = authority.key();
        authority.scope().same(&self.program) && account.owner.same(&controller) && named.same(
            &controller,
        )
    }

    /// Carry out a transfer out of an account that the derived authority
    /// controls. Fails with `AccountNotFound` where either account is
    /// missing, with `WrongDerivation` where the authority is not the one
    /// that the source obeys, then as the movement itself fails.
    pub fn transfer_signed(
        &mut self,
        leg: &Transfer,
        amount: u64,
        authority: &VaultAuthority,
    ) -> (r: Result<(), EscrowError>)
        ensures
            applied(
                old(self)@,
                final(self)@,
                old(self)@.transfer_signed(
                    *leg,
                    amount,
                    authority.program(),
                    authority.controller(),
                ),
                r,
            ),
    {
        let source = match self.tokens.get(&leg.from) {
            Some(a) => a,
            None => {
                return Err(EscrowError::AccountNotFound);
            },
        };
        if !self.tokens.contains(&leg.to) {
            return Err(EscrowError::AccountNotFound);
        }
        if !self.check_obeys(&source, &leg.authority, authority) {
            return Err(EscrowError::WrongDerivation);
        }
        self.move_tokens(leg.from, leg.to, amount)
    }

    /// Carry out a transfer of native currency that its payer signs.
    pub fn transfer_lamports(&mut self, leg: &LamportTransfer, signer: &Identity) -> (r: Result<
        (),
        EscrowError,
    >)
        ensures
            applied(old(self)@, final(self)@, old(self)@.transfer_lamports(*leg, *signer), r),
    {
        if !leg.from.same(signer) {
            return Err(EscrowError::Unauthorized);
        }
        let held = self.lamports(&leg.from);
        if held < leg.lamports {
            return Err(EscrowError::InsufficientFunds);
        }
        if leg.from.same(&leg.to) {
            return Ok(());
        }
        let target = self.lamports(&leg.to);
        if leg.lamports > u64::MAX - target {
            return Err(EscrowError::BalanceOverflow);
        }
        self.wallets.set(leg.from, held - leg.lamports);
        self.wallets.set(leg.to, target + leg.lamports);
        Ok(())
    }

    /// Close an emptied account that the derived authority controls, and
    /// drop the record kept at its address.
    pub fn close_account(&mut self, leg: &CloseAccount, authority: &VaultAuthority) -> (r: Result<
        (),
        EscrowError,
    >)
        ensures
            applied(
                old(self)@,
                final(self)@,
                old(self)@.close_account(*leg, authority.program(), authority.controller()),
                r,
            ),
    {
        let account = match self.tokens.get(&leg.account) {
            Some(a) => a,
            None => {
                return Err(EscrowError::AccountNotFound);
            },
        };
        if !self.check_obeys(&account, &leg.authority, authority) {
            return Err(EscrowError::WrongDerivation);
        }
        if account.amount != 0 {
            return Err(EscrowError::AccountNotEmpty);
        }
        self.tokens.remove(&leg.account);
        self.escrows.remove(&leg.account);
        Ok(())
    }
}

} // verus!
