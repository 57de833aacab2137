//! What the engine hands to the host so that a leg is carried out there.

use crate::identity::Identity;
use crate::ledger::LamportTransfer;
use anchor_lang::solana_program::pubkey::Pubkey;
use anchor_lang::solana_program::system_instruction;
use vstd::prelude::*;

verus! {

/// An account that an instruction touches, and how.
#[derive(Clone, Copy, Debug, PartialEq, Eq)]
pub struct AccountMeta {
    pub pubkey: Identity,
    pub is_signer: bool,
    pub is_writable: bool,
}

/// An instruction for a program of the host.
#[derive(Clone, Debug, PartialEq, Eq)]
pub struct Instruction {
    /// The program that carries the instruction out.
    pub program_id: Identity,
    /// The accounts it touches, in the order the program expects.
    pub accounts: Vec<AccountMeta>,
    /// What the program reads.
    pub data: Vec<u8>,
}

/// The data of the instruction that `system_instruction::transfer` builds
/// for an amount of `lamports`.
pub uninterp spec fn system_transfer_data(lamports: u64) -> Seq<u8>;

/// The address of the host's system program: thirty-two zero bytes.
pub open spec fn system_program() -> Seq<u8> {
    Seq::new(32, |i: int| 0u8)
}

/// The accounts of a transfer of native currency: the payer, who signs,
/// then the recipient; both are written to.
pub open spec fn transfer_accounts(from: Identity, to: Identity) -> Seq<AccountMeta> {
    seq![
        AccountMeta { pubkey: from, is_signer: true, is_writable: true },
        AccountMeta { pubkey: to, is_signer: false, is_writable: true },
    ]
}

/// Calls `system_instruction::transfer`. The contract claims that the
/// instruction is for the system program, that it names the payer as a
/// writable signer and then the recipient as writable, and that its data
/// is a function of the amount alone.
#[verifier::external_body]
fn system_transfer(from: &Identity, to: &Identity, lamports: u64) -> (ix: Instruction)
    ensures
        ix.program_id@ == system_program(),
        ix.accounts@ == transfer_accounts(*from, *to),
        ix.data@ == system_transfer_data(lamports),
{
    let payer = Pubkey::new_from_array(from.bytes);
    let payee = Pubkey::new_from_array(to.bytes);
    let ix = system_instruction::transfer(&payer, &payee, lamports);
    let accounts = ix.accounts.iter().map(|m| AccountMeta {
        pubkey: Identity { bytes: m.pubkey.to_bytes() },
        is_signer: m.is_signer,
        is_writable: m.is_writable,
    }).collect();
    let program_id = Identity { bytes: ix.program_id.to_bytes() };
    Instruction { program_id, accounts, data: ix.data }
}

impl LamportTransfer {
    /// The instruction that carries the leg out on the host: a transfer of
    /// the system program from the payer, who signs, to the recipient.
    pub fn instruction(&self) -> (ix: Instruction)
        ensures
            ix.program_id@ == system_program(),
            ix.accounts@ == transfer_accounts(self.from, self.to),
            ix.data@ == system_transfer_data(self.lamports),
    {
        system_transfer(&self.from, &self.to, self.lamports)
    }
}

} // verus!
