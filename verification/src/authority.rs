//! Derivation of the keyless authority that controls every vault, and of
//! vault addresses.

use crate::identity::Identity;
use anchor_lang::solana_program::pubkey::{Pubkey, PubkeyError};
use vstd::prelude::*;

verus! {

/// The error of the address derivation, carried through unread.
#[verifier::external_type_specification]
#[verifier::external_body]
pub struct ExPubkeyError(PubkeyError);

/// The address that `Pubkey::create_program_address` derives from `seeds`
/// for `program`; `None` where it reports an error.
pub uninterp spec fn program_address(seeds: Seq<Seq<u8>>, program: Seq<u8>) -> Option<Seq<u8>>;

/// The address and bump seed that `Pubkey::try_find_program_address` finds
/// from `seeds` for `program`; `None` where it finds none.
pub uninterp spec fn found_program_address(seeds: Seq<Seq<u8>>, program: Seq<u8>) -> Option<
    (Seq<u8>, u8),
>;

/// The byte strings that a list of seeds holds.
pub open spec fn seed_bytes(seeds: Seq<Vec<u8>>) -> Seq<Seq<u8>> {
    Seq::new(seeds.len(), |i: int| seeds[i]@)
}

/// Calls `Pubkey::create_program_address`. The contract claims only that
/// the outcome is a function of the seeds and the program: the address on
/// success, an error exactly where `program_address` is `None`.
#[verifier::external_body]
fn create_program_address(seeds: &Vec<Vec<u8>>, program: &Identity) -> (r: Result<
    Identity,
    PubkeyError,
>)
    ensures
        match r {
            Ok(address) => program_address(seed_bytes(seeds@), program@) == Some(address@),
            Err(_) => program_address(seed_bytes(seeds@), program@) is None,
        },
{
    let parts: Vec<&[u8]> = seeds.iter().map(|s| s.as_slice()).collect();
    let key = Pubkey::new_from_array(program.bytes);
    Pubkey::create_program_address(&parts, &key).map(|k| Identity { bytes: k.to_bytes() })
}

/// Calls `Pubkey::try_find_program_address`. The contract claims that the
/// outcome is a function of the seeds and the program and, as the search
/// returns the first bump seed that `create_program_address` accepts
/// together with the address it gave, that deriving again with that bump
/// seed appended yields the same address.
#[verifier::external_body]
fn try_find_program_address(seeds: &Vec<Vec<u8>>, program: &Identity) -> (r: Option<
    (Identity, u8),
>)
    ensures
        match r {
            Some((address, bump)) => {
                &&& found_program_address(seed_bytes(seeds@), program@) == Some((address@, bump))
                &&& program_address(seed_bytes(seeds@).push(seq![bump]), program@) == Some(
                    address@,
                )
            },
            None => found_program_address(seed_bytes(seeds@), program@) is None,
        },
{
    let parts: Vec<&[u8]> = seeds.iter().map(|s| s.as_slice()).collect();
    let key = Pubkey::new_from_array(program.bytes);
    let found = Pubkey::try_find_program_address(&parts, &key);
    found.map(|(k, bump)| (Identity { bytes: k.to_bytes() }, bump))
}

/// The label `vault_owner`, in ASCII: the fixed seed of the authority.
pub open spec fn vault_owner_label() -> Seq<u8> {
    seq![118u8, 97u8, 117u8, 108u8, 116u8, 95u8, 111u8, 119u8, 110u8, 101u8, 114u8]
}

/// The label `token_vault`, in ASCII: the fixed seed of vault addresses.
pub open spec fn token_vault_label() -> Seq<u8> {
    seq![116u8, 111u8, 107u8, 101u8, 110u8, 95u8, 118u8, 97u8, 117u8, 108u8, 116u8]
}

/// The seeds from which the authority is searched.
pub open spec fn authority_seeds() -> Seq<Seq<u8>> {
    seq![vault_owner_label()]
}

/// The seeds from which the authority is derived again, given the
/// disambiguator.
pub open spec fn signer_seeds(bump: u8) -> Seq<Seq<u8>> {
    seq![vault_owner_label(), seq![bump]]
}

/// The seeds from which the vault of `initiator` for `mint` is searched.
pub open spec fn vault_seeds(initiator: Identity, mint: Identity) -> Seq<Seq<u8>> {
    seq![token_vault_label(), initiator@, mint@]
}

/// The controller that `bump` derives under `program`, if it derives one.
pub open spec fn controller_for(program: Identity, bump: u8) -> Option<Seq<u8>> {
    program_address(signer_seeds(bump), program@)
}

/// The controller and disambiguator that the search yields under `program`.
pub open spec fn searched_authority(program: Identity) -> Option<(Seq<u8>, u8)> {
    found_program_address(authority_seeds(), program@)
}

/// The vault address that the search yields for `initiator` and `mint`.
pub open spec fn searched_vault(program: Identity, initiator: Identity, mint: Identity) -> Option<
    (Seq<u8>, u8),
> {
    found_program_address(vault_seeds(initiator, mint), program@)
}

fn vault_owner_seed() -> (v: Vec<u8>)
    ensures
        v@ == vault_owner_label(),
{
    let mut v: Vec<u8> = Vec::new();
    v.push(118);
    v.push(97);
    v.push(117);
    v.push(108);
    v.push(116);
    v.push(95);
    v.push(111);
    v.push(119);
    v.push(110);
    v.push(101);
    v.push(114);
    assert(v@ =~= vault_owner_label());
    v
}

fn token_vault_seed() -> (v: Vec<u8>)
    ensures
        v@ == token_vault_label(),
{
    let mut v: Vec<u8> = Vec::new();
    v.push(116);
    v.push(111);
    v.push(107);
    v.push(101);
    v.push(110);
    v.push(95);
    v.push(118);
    v.push(97);
    v.push(117);
    v.push(108);
    v.push(116);
    assert(v@ =~= token_vault_label());
    v
}

/// Proof of the derived authority: the controller of vaults under one
/// program, together with the disambiguator that derives it. A value of
/// this type exists only where the derivation has been carried out, so a
/// caller's own identity can never stand in its place.
#[derive(Clone, Copy, Debug)]
pub struct VaultAuthority {
    program: Identity,
    controller: Identity,
    bump: u8,
}

impl VaultAuthority {
    #[verifier::type_invariant]
    spec fn derived(self) -> bool {
        controller_for(self.program, self.bump) == Some(self.controller@)
    }

    /// The program under which the authority was derived.
    pub closed spec fn program(&self) -> Identity {
        self.program
    }

    /// The derived controller.
    pub closed spec fn controller(&self) -> Identity {
        self.controller
    }

    /// The disambiguator that derives the controller.
    pub closed spec fn disambiguator(&self) -> u8 {
        self.bump
    }

    /// Search the authority of `program`: its controller and the
    /// disambiguator to hand to later calls.
    pub fn derive(program: &Identity) -> (r: Option<VaultAuthority>)
        ensures
            match r {
                Some(a) => {
                    &&& a.program() == *program
                    &&& searched_authority(*program) == Some((a.controller()@, a.disambiguator()))
                    &&& controller_for(*program, a.disambiguator()) == Some(a.controller()@)
                },
                None => searched_authority(*program) is None,
            },
    {
        let mut seeds: Vec<Vec<u8>> = Vec::new();
        seeds.push(vault_owner_seed());
        assert(seed_bytes(seeds@) =~= authority_seeds());
        match try_find_program_address(&seeds, program) {
            Some((controller, bump)) => {
                assert(authority_seeds().push(seq![bump]) =~= signer_seeds(bump));
                Some(VaultAuthority { program: *program, controller, bump })
            },
            None => None,
        }
    }

    /// Derive the authority of `program` again from a disambiguator that a
    /// caller supplied. Fails where the disambiguator derives no address.
    pub fn rederive(program: &Identity, bump: u8) -> (r: Option<VaultAuthority>)
        ensures
            match r {
                Some(a) => {
                    &&& a.program() == *program
                    &&& a.disambiguator() == bump
                    &&& controller_for(*program, bump) == Some(a.controller()@)
                },
                None => controller_for(*program, bump) is None,
            },
    {
        let mut seeds: Vec<Vec<u8>> = Vec::new();
        seeds.push(vault_owner_seed());
        let mut last: Vec<u8> = Vec::new();
        last.push(bump);
        seeds.push(last);
        assert(seed_bytes(seeds@) =~= signer_seeds(bump)) by {
            assert(seeds@[1]@ =~= seq![bump]);
        }
        match create_program_address(&seeds, program) {
            Ok(controller) => Some(VaultAuthority { program: *program, controller, bump }),
            Err(_) => None,
        }
    }

    /// The derived controller. The disambiguator derives it: the type
    /// holds no other value.
    pub fn key(&self) -> (k: Identity)
        ensures
            k == self.controller(),
            controller_for(self.program(), self.disambiguator()) == Some(k@),
    {
        proof {
            use_type_invariant(self);
        }
        self.controller
    }

    /// The program under which the authority was derived.
    pub fn scope(&self) -> (p: Identity)
        ensures
            p == self.program(),
    {
        self.program
    }

    /// The seeds under which the host lets the engine sign for the
    /// controller: the fixed label, then the disambiguator.
    pub fn seeds(&self) -> (v: Vec<Vec<u8>>)
        ensures
            seed_bytes(v@) == signer_seeds(self.disambiguator()),
    {
        let mut last: Vec<u8> = Vec::new();
        last.push(self.bump);
        let mut v: Vec<Vec<u8>> = Vec::new();
        v.push(vault_owner_seed());
        v.push(last);
        assert(seed_bytes(v@) =~= signer_seeds(self.bump)) by {
            assert(v@[1]@ =~= seq![self.bump]);
        }
        v
    }

    /// The disambiguator.
    pub fn bump(&self) -> (b: u8)
        ensures
            b == self.disambiguator(),
    {
        self.bump
    }
}

/// Search the address of the vault that holds what `initiator` offers of
/// `mint`: one address for each such pair under `program`.
pub fn derive_vault(program: &Identity, initiator: &Identity, mint: &Identity) -> (r: Option<
    (Identity, u8),
>)
    ensures
        match r {
            Some((address, bump)) => searched_vault(*program, *initiator, *mint) == Some(
                (address@, bump),
            ),
            None => searched_vault(*program, *initiator, *mint) is None,
        },
{
    let mut seeds: Vec<Vec<u8>> = Vec::new();
    seeds.push(token_vault_seed());
    seeds.push(initiator.to_seed());
    seeds.push(mint.to_seed());
    assert(seed_bytes(seeds@) =~= vault_seeds(*initiator, *mint));
    try_find_program_address(&seeds, program)
}

} // verus!
