//! Deterministic addressing: every record of the registry lives at an address
//! that anyone can recompute from a list of seeds, and that comes with a bump
//! seed proving the derivation.
use solana_program::pubkey::{Pubkey, PubkeyError};
use vstd::prelude::*;
use vstd::slice::slice_to_vec;

verus! {

/// The storage address of an account, or the identity of a party: thirty-two bytes.
#[derive(Clone, Copy, Debug, Eq)]
pub struct Address {
    pub bytes: [u8; 32],
}

impl View for Address {
    type V = Seq<u8>;

    open spec fn view(&self) -> Seq<u8> {
        self.bytes@
    }
}

impl PartialEq for Address {
    fn eq(&self, other: &Address) -> (r: bool) {
        let mut i: usize = 0;
        while i < 32
            invariant
                i <= 32,
                forall|j: int| 0 <= j < i ==> self.bytes[j] == other.bytes[j],
            decreases 32 - i,
        {
            if self.bytes[i] != other.bytes[i] {
                return false;
            }
            i += 1;
        }
        assert(self.bytes@ =~= other.bytes@);
        assert(self.bytes == other.bytes);
        true
    }
}

impl vstd::std_specs::cmp::PartialEqSpecImpl for Address {
    open spec fn obeys_eq_spec() -> bool {
        true
    }

    open spec fn eq_spec(&self, other: &Address) -> bool {
        *self == *other
    }
}

/// Two addresses are the same address exactly when they hold the same bytes.
pub proof fn lemma_address_by_bytes(a: Address, b: Address)
    ensures
        (a@ == b@) <==> (a == b),
        a@.len() == 32,
{
    if a@ == b@ {
        assert(a.bytes@ =~= b.bytes@);
        assert(a.bytes == b.bytes);
    }
}

impl Address {
    /// The address as one seed of a derivation.
    pub fn seed(&self) -> (r: Vec<u8>)
        ensures
            r@ == self@,
    {
        slice_to_vec(self.bytes.as_slice())
    }
}

/// The most seeds that one derivation takes, the bump seed among them.
pub const MAX_SEEDS: usize = 16;

/// The most bytes that one seed holds.
pub const MAX_SEED_LEN: usize = 32;

/// The seeds of a derivation as bytes, in their order.
pub open spec fn seed_list(seeds: Vec<Vec<u8>>) -> Seq<Seq<u8>> {
    Seq::new(seeds@.len(), |i: int| seeds@[i]@)
}

/// Seeds that a derivation accepts: at most `MAX_SEEDS` of them, none longer
/// than `MAX_SEED_LEN`.
pub open spec fn seeds_fit(seeds: Seq<Seq<u8>>) -> bool {
    &&& seeds.len() <= MAX_SEEDS
    &&& forall|i: int| 0 <= i < seeds.len() ==> (#[trigger] seeds[i]).len() <= MAX_SEED_LEN
}

/// The seeds followed by the bump seed, a seed of one byte.
pub open spec fn with_bump(seeds: Seq<Seq<u8>>, bump: u8) -> Seq<Seq<u8>> {
    seeds.push(seq![bump])
}

/// What `Pubkey::create_program_address` computes from seeds that fit: the
/// address that the seeds and the program hash to, or `None` where that hash
/// is a point of the curve, so that a key pair could own it.
pub uninterp spec fn hashed_address(seeds: Seq<Seq<u8>>, program: Seq<u8>) -> Option<Seq<u8>>;

/// The address that the seeds derive under the program with this bump seed.
pub open spec fn derived(seeds: Seq<Seq<u8>>, bump: u8, program: Address) -> Option<Seq<u8>> {
    if seeds_fit(with_bump(seeds, bump)) {
        hashed_address(with_bump(seeds, bump), program@)
    } else {
        None
    }
}

/// The canonical bump seed: the largest one, from 255 down to 1, with which the
/// seeds derive an address.
pub open spec fn is_canonical(seeds: Seq<Seq<u8>>, program: Address, bump: u8) -> bool {
    &&& 1 <= bump
    &&& derived(seeds, bump, program) is Some
    &&& forall|higher: u8| bump < higher ==> derived(seeds, higher, program) is None
}

/// The canonical bump seed of the seeds, where there is one.
pub open spec fn canonical_bump(seeds: Seq<Seq<u8>>, program: Address) -> Option<u8> {
    if exists|bump: u8| is_canonical(seeds, program, bump) {
        Some(choose|bump: u8| is_canonical(seeds, program, bump))
    } else {
        None
    }
}

/// The address that the seeds derive with their canonical bump seed.
pub open spec fn canonical_address(seeds: Seq<Seq<u8>>, program: Address) -> Option<Seq<u8>> {
    match canonical_bump(seeds, program) {
        Some(bump) => derived(seeds, bump, program),
        None => None,
    }
}

/// There is at most one canonical bump seed.
pub proof fn lemma_canonical_unique(seeds: Seq<Seq<u8>>, program: Address, bump: u8)
    requires
        is_canonical(seeds, program, bump),
    ensures
        canonical_bump(seeds, program) == Some(bump),
{
    let chosen = choose|b: u8| is_canonical(seeds, program, b);
    assert(is_canonical(seeds, program, chosen));
    if chosen < bump {
        assert(derived(seeds, bump, program) is None);
    } else if bump < chosen {
        assert(derived(seeds, chosen, program) is None);
    }
}

/// `solana_program::pubkey::PubkeyError`: why no address is derived. The
/// registry reads nothing of it.
#[verifier::external_type_specification]
#[verifier::external_body]
pub struct ExPubkeyError(PubkeyError);

/// `Pubkey::create_program_address`. It refuses seeds that do not fit, and
/// seeds that hash onto the curve; otherwise it returns the address that the
/// seeds and the program hash to.
#[verifier::external_body]
fn create_program_address(seeds: &Vec<Vec<u8>>, program: &Address) -> (r: Result<Address, PubkeyError>)
    ensures
        match r {
            Ok(address) => {
                &&& seeds_fit(seed_list(*seeds))
                &&& hashed_address(seed_list(*seeds), program@) == Some(address@)
            },
            Err(_) => !seeds_fit(seed_list(*seeds)) || hashed_address(seed_list(*seeds), program@) is None,
        },
{
    let parts: Vec<&[u8]> = seeds.iter().map(|seed| seed.as_slice()).collect();
    Pubkey::create_program_address(&parts, &Pubkey::from(program.bytes))
        .map(|key| Address { bytes: key.to_bytes() })
}

/// `Pubkey::try_find_program_address`. It tries the bump seeds from 255 down
/// to 1 and returns the first with which the seeds derive an address, together
/// with that address; `None` where there is none, or the seeds do not fit.
#[verifier::external_body]
fn try_find_program_address(seeds: &Vec<Vec<u8>>, program: &Address) -> (r: Option<(Address, u8)>)
    ensures
        match r {
            Some((address, bump)) => {
                &&& is_canonical(seed_list(*seeds), *program, bump)
                &&& derived(seed_list(*seeds), bump, *program) == Some(address@)
            },
            None => forall|bump: u8| 1 <= bump ==> derived(seed_list(*seeds), bump, *program) is None,
        },
{
    let parts: Vec<&[u8]> = seeds.iter().map(|seed| seed.as_slice()).collect();
    Pubkey::try_find_program_address(&parts, &Pubkey::from(program.bytes))
        .map(|(key, bump)| (Address { bytes: key.to_bytes() }, bump))
}

/// Derives the address of the seeds under the program, with the canonical bump
/// seed that proves the derivation.
pub fn find_address(seeds: &Vec<Vec<u8>>, program: &Address) -> (r: Option<(Address, u8)>)
    ensures
        r is Some <==> canonical_bump(seed_list(*seeds), *program) is Some,
        r matches Some((address, bump)) ==> {
            &&& canonical_bump(seed_list(*seeds), *program) == Some(bump)
            &&& canonical_address(seed_list(*seeds), *program) == Some(address@)
            &&& derived(seed_list(*seeds), bump, *program) == Some(address@)
        },
{
    let found = try_find_program_address(seeds, program);
    proof {
        match found {
            Some((address, bump)) => {
                lemma_canonical_unique(seed_list(*seeds), *program, bump);
            },
            None => {
                if exists|bump: u8| is_canonical(seed_list(*seeds), *program, bump) {
                    let bump = choose|bump: u8| is_canonical(seed_list(*seeds), *program, bump);
                    assert(derived(seed_list(*seeds), bump, *program) is None);
                }
            },
        }
    }
    found
}

/// The seeds followed by the bump seed: what signs for the address that they
/// derive.
pub fn signer_seeds(seeds: Vec<Vec<u8>>, bump: u8) -> (r: Vec<Vec<u8>>)
    ensures
        seed_list(r) == with_bump(seed_list(seeds), bump),
{
    let mut all: Vec<Vec<u8>> = seeds;
    let mut last: Vec<u8> = Vec::new();
    last.push(bump);
    all.push(last);
    proof {
        assert(last@ =~= seq![bump]);
        assert(seed_list(all) =~= with_bump(seed_list(seeds), bump));
    }
    all
}

/// Whether `address` is the one that the seeds derive under the program with
/// this bump seed. No other address passes.
pub fn derives_to(seeds: Vec<Vec<u8>>, bump: u8, program: &Address, address: &Address) -> (r: bool)
    ensures
        r == (derived(seed_list(seeds), bump, *program) == Some(address@)),
{
    let all = signer_seeds(seeds, bump);
    match create_program_address(&all, program) {
        Ok(found) => {
            proof {
                lemma_address_by_bytes(found, *address);
            }
            found == *address
        },
        Err(_) => false,
    }
}

} // verus!
