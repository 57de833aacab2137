//! Custody engine for a trustless two-party exchange.
//!
//! One party offers tokens, which go into a vault that no private key
//! controls. The party takes them back by cancelling, or a counterparty
//! gets them by paying what was asked: tokens of a second mint, or native
//! currency of which a percentage goes to an administrator.
//!
//! - [`identity`]: the identities of parties, mints and accounts.
//! - [`authority`]: the derived authority over the vaults, and vault
//!   addresses.
//! - [`fee`]: the split of a requested amount into fee and net.
//! - [`record`]: the escrow record and the errors.
//! - [`table`], [`ledger`]: the books and the primitives that move assets.
//! - [`account`]: what each call names, its checks and its legs.
//! - [`lifecycle`]: start, cancel and exchange on the books.
//! - [`instruction`]: what is handed to the host for a leg.
//! - [`laws`]: what holds of the calls, proved.

pub mod account;
pub mod authority;
pub mod fee;
pub mod identity;
pub mod instruction;
pub mod laws;
pub mod ledger;
pub mod lifecycle;
pub mod record;
pub mod table;
