//! The accounts that a transaction names. The caller chooses them freely, so
//! each one is held against what the registry expects of it before anything
//! is changed.
use crate::address::{
    canonical_address, canonical_bump, derived, derives_to, find_address, lemma_address_by_bytes, seed_list,
    Address,
};
use crate::errors::Failure;
use vstd::prelude::*;

verus! {

/// A party to the transaction, and whether it has signed.
#[derive(Clone, Copy, Debug, PartialEq, Eq)]
pub struct Signer {
    pub key: Address,
    pub is_signer: bool,
}

/// An account that is named as a program, and whether it can be run.
#[derive(Clone, Copy, Debug, PartialEq, Eq)]
pub struct Program {
    pub key: Address,
    pub executable: bool,
}

/// An address and the record that is stored there, if there is one.
#[derive(Clone, Debug, PartialEq, Eq)]
pub struct Account<T> {
    pub key: Address,
    pub data: Option<T>,
}

/// An asset, as the asset service holds it.
#[derive(Clone, Copy, Debug, PartialEq, Eq, Structural)]
pub struct Mint {
    pub supply: u64,
    pub decimals: u8,
}

/// A vault, as the asset service holds it: the balance of one asset in the
/// hands of one owner.
#[derive(Clone, Copy, Debug, PartialEq, Eq)]
pub struct TokenAccount {
    pub mint: Address,
    pub owner: Address,
    pub amount: u64,
}

impl Program {
    /// Whether the account is the program `expected`, and can be run.
    pub open spec fn runs(self, expected: Address) -> bool {
        self.key == expected && self.executable
    }

    /// Whether the account is the program `expected`, and can be run.
    pub fn check(&self, expected: &Address) -> (r: bool)
        ensures
            r == self.runs(*expected),
    {
        self.key == *expected && self.executable
    }
}

/// Whether `key` is the address that the seeds derive under the program with
/// this bump seed.
pub open spec fn at(key: Address, seeds: Seq<Seq<u8>>, bump: u8, program: Address) -> bool {
    derived(seeds, bump, program) == Some(key@)
}

/// Whether `key` is the address that the seeds derive under the program with
/// their canonical bump seed.
pub open spec fn found(key: Address, seeds: Seq<Seq<u8>>, program: Address) -> bool {
    canonical_address(seeds, program) == Some(key@)
}

/// The canonical bump seed of seeds that have one.
pub open spec fn bump_of(seeds: Seq<Seq<u8>>, program: Address) -> u8 {
    canonical_bump(seeds, program).unwrap()
}

/// The canonical bump seed proves the derivation: an address that is found
/// from its seeds stands at the same seeds with that bump seed.
pub proof fn lemma_found_stands(key: Address, seeds: Seq<Seq<u8>>, program: Address)
    requires
        found(key, seeds, program),
    ensures
        at(key, seeds, bump_of(seeds, program), program),
{
}

/// Holds an address against its seeds and the bump seed that a record keeps.
pub fn check_at(key: &Address, seeds: Vec<Vec<u8>>, bump: u8, program: &Address) -> (r: Result<(), Failure>)
    ensures
        at(*key, seed_list(seeds), bump, *program) ==> r is Ok,
        !at(*key, seed_list(seeds), bump, *program) ==> r == Err::<(), Failure>(Failure::AddressMismatch),
{
    if derives_to(seeds, bump, program, key) {
        Ok(())
    } else {
        Err(Failure::AddressMismatch)
    }
}

/// Holds an address against its seeds, and finds the canonical bump seed.
pub fn check_found(key: &Address, seeds: Vec<Vec<u8>>, program: &Address) -> (r: Result<u8, Failure>)
    ensures
        found(*key, seed_list(seeds), *program) ==> r == Ok::<u8, Failure>(bump_of(seed_list(seeds), *program)),
        !found(*key, seed_list(seeds), *program) ==> r == Err::<u8, Failure>(Failure::AddressMismatch),
        r is Ok ==> at(*key, seed_list(seeds), bump_of(seed_list(seeds), *program), *program),
{
    match find_address(&seeds, program) {
        Some((address, bump)) => {
            proof {
                lemma_address_by_bytes(address, *key);
            }
            if address == *key {
                Ok(bump)
            } else {
                Err(Failure::AddressMismatch)
            }
        },
        None => Err(Failure::AddressMismatch),
    }
}

} // verus!
