//! The seeds of each address that the registry derives: a tag, then the
//! addresses that the record hangs from, the caller's base address last.
use crate::address::{
    canonical_address, canonical_bump, derived, derives_to, find_address, seed_list, Address,
};
use crate::programs::{id, registry};
use vstd::prelude::*;
use vstd::slice::slice_to_vec;
use vstd::string::StringSliceAdditionalSpecFns;

verus! {

/// A tag as a seed: the bytes of its text.
pub open spec fn tag(text: &str) -> Seq<u8> {
    text.spec_bytes()
}

/// The seeds of an Event: its tag and the caller's base address.
pub open spec fn event_seeds(event_base: Address) -> Seq<Seq<u8>> {
    seq![tag("event"), event_base@]
}

/// The seeds of an Event's payment vault.
pub open spec fn event_vault_seeds(event: Address) -> Seq<Seq<u8>> {
    seq![tag("event_vault"), event@]
}

/// The seeds of an Event's collection asset.
pub open spec fn event_mint_seeds(event: Address) -> Seq<Seq<u8>> {
    seq![tag("event_mint"), event@]
}

/// The seeds of the vault that holds the one unit of an Event's collection asset.
pub open spec fn event_collection_vault_seeds(event: Address) -> Seq<Seq<u8>> {
    seq![tag("event_collection_vault"), event@]
}

/// The seeds of a Collaborator of an Event.
pub open spec fn collaborator_seeds(event: Address, collaborator_base: Address) -> Seq<Seq<u8>> {
    seq![tag("collaborator"), event@, collaborator_base@]
}

/// The seeds of a TicketMachine of an Event.
pub open spec fn ticket_machine_seeds(event: Address, ticket_machine_base: Address) -> Seq<Seq<u8>> {
    seq![tag("ticket_machine"), event@, ticket_machine_base@]
}

/// The seeds of the asset of one ticket that a TicketMachine sells.
pub open spec fn ticket_mint_seeds(
    event: Address,
    ticket_machine: Address,
    ticket_mint_base: Address,
) -> Seq<Seq<u8>> {
    seq![tag("ticket_mint"), event@, ticket_machine@, ticket_mint_base@]
}

/// The seeds of the Ticket record of a ticket asset.
pub open spec fn ticket_seeds(ticket_mint: Address) -> Seq<Seq<u8>> {
    seq![tag("ticket"), ticket_mint@]
}

/// The seeds of an asset's metadata, derived under the metadata program.
pub open spec fn metadata_seeds(metadata_program: Address, mint: Address) -> Seq<Seq<u8>> {
    seq![tag("metadata"), metadata_program@, mint@]
}

/// The seeds of an asset's master record, derived under the metadata program.
pub open spec fn master_edition_seeds(metadata_program: Address, mint: Address) -> Seq<Seq<u8>> {
    seq![tag("metadata"), metadata_program@, mint@, tag("edition")]
}

/// The seeds of the vault in which an owner holds an asset, derived under the
/// associated token program.
pub open spec fn vault_seeds(owner: Address, token_program: Address, mint: Address) -> Seq<Seq<u8>> {
    seq![owner@, token_program@, mint@]
}

/// The seeds of a record of the registry: its tag, then the addresses that it
/// hangs from, then the base address that the caller gives.
pub open spec fn record_seeds(text: &str, parents: Seq<Address>, base: Address) -> Seq<Seq<u8>> {
    seq![tag(text)] + parents.map_values(|parent: Address| parent@) + seq![base@]
}

/// The seeds of each record of the registry are its tag, the addresses that
/// it hangs from and a base address.
pub proof fn lemma_seeds_of_records(a: Address, b: Address, c: Address)
    ensures
        event_seeds(a) == record_seeds("event", seq![], a),
        event_vault_seeds(a) == record_seeds("event_vault", seq![], a),
        event_mint_seeds(a) == record_seeds("event_mint", seq![], a),
        event_collection_vault_seeds(a) == record_seeds("event_collection_vault", seq![], a),
        collaborator_seeds(a, b) == record_seeds("collaborator", seq![a], b),
        ticket_machine_seeds(a, b) == record_seeds("ticket_machine", seq![a], b),
        ticket_mint_seeds(a, b, c) == record_seeds("ticket_mint", seq![a, b], c),
        ticket_seeds(a) == record_seeds("ticket", seq![], a),
{
    assert(event_seeds(a) =~= record_seeds("event", seq![], a));
    assert(event_vault_seeds(a) =~= record_seeds("event_vault", seq![], a));
    assert(event_mint_seeds(a) =~= record_seeds("event_mint", seq![], a));
    assert(event_collection_vault_seeds(a) =~= record_seeds("event_collection_vault", seq![], a));
    assert(collaborator_seeds(a, b) =~= record_seeds("collaborator", seq![a], b));
    assert(ticket_machine_seeds(a, b) =~= record_seeds("ticket_machine", seq![a], b));
    assert(ticket_mint_seeds(a, b, c) =~= record_seeds("ticket_mint", seq![a, b], c));
    assert(ticket_seeds(a) =~= record_seeds("ticket", seq![], a));
}

/// A list of seeds that holds the tag alone.
fn tagged(text: &str) -> (r: Vec<Vec<u8>>)
    ensures
        seed_list(r) == seq![tag(text)],
{
    let mut seeds: Vec<Vec<u8>> = Vec::new();
    seeds.push(slice_to_vec(text.as_bytes()));
    assert(seed_list(seeds) =~= seq![tag(text)]);
    seeds
}

/// The seeds followed by an address.
fn then(seeds: Vec<Vec<u8>>, key: &Address) -> (r: Vec<Vec<u8>>)
    ensures
        seed_list(r) == seed_list(seeds).push(key@),
{
    let mut all = seeds;
    all.push(key.seed());
    assert(seed_list(all) =~= seed_list(seeds).push(key@));
    all
}

/// The seeds of a record of the registry: its tag, then the addresses that it
/// hangs from, then the base address that the caller gives.
pub fn record_seed_list(text: &str, parents: &Vec<Address>, base: &Address) -> (r: Vec<Vec<u8>>)
    ensures
        seed_list(r) == record_seeds(text, parents@, *base),
{
    let mut seeds = tagged(text);
    let mut i: usize = 0;
    while i < parents.len()
        invariant
            i <= parents.len(),
            seed_list(seeds) == seq![tag(text)] + parents@.subrange(0, i as int).map_values(
                |parent: Address| parent@,
            ),
        decreases parents.len() - i,
    {
        let ghost before = seed_list(seeds);
        seeds = then(seeds, &parents[i]);
        i += 1;
        assert(seed_list(seeds) =~= seq![tag(text)] + parents@.subrange(0, i as int).map_values(
            |parent: Address| parent@,
        ));
    }
    assert(parents@.subrange(0, i as int) =~= parents@);
    let r = then(seeds, base);
    assert(seed_list(r) =~= record_seeds(text, parents@, *base));
    r
}

/// Derives the address of a record of the registry from its tag, the
/// addresses that it hangs from and the caller's base address, together with
/// the bump seed that proves the derivation. The same seeds give the same
/// address, whoever derives it.
pub fn derive_address(text: &str, parents: &Vec<Address>, base: &Address) -> (r: Option<(Address, u8)>)
    ensures
        r is Some <==> canonical_bump(record_seeds(text, parents@, *base), registry()) is Some,
        r matches Some((address, bump)) ==> {
            &&& canonical_bump(record_seeds(text, parents@, *base), registry()) == Some(bump)
            &&& canonical_address(record_seeds(text, parents@, *base), registry()) == Some(address@)
            &&& derived(record_seeds(text, parents@, *base), bump, registry()) == Some(address@)
        },
{
    find_address(&record_seed_list(text, parents, base), &id())
}

/// Holds an address against the tag, the addresses and the base address that
/// it is said to be derived from, and the bump seed that is said to prove it.
pub fn stands_at(address: &Address, text: &str, parents: &Vec<Address>, base: &Address, bump: u8) -> (r: bool)
    ensures
        r == (derived(record_seeds(text, parents@, *base), bump, registry()) == Some(address@)),
{
    derives_to(record_seed_list(text, parents, base), bump, &id(), address)
}

/// The seeds of an Event.
pub fn event_seed_list(event_base: &Address) -> (r: Vec<Vec<u8>>)
    ensures
        seed_list(r) == event_seeds(*event_base),
{
    let r = then(tagged("event"), event_base);
    assert(seed_list(r) =~= event_seeds(*event_base));
    r
}

/// The seeds of an Event's payment vault.
pub fn event_vault_seed_list(event: &Address) -> (r: Vec<Vec<u8>>)
    ensures
        seed_list(r) == event_vault_seeds(*event),
{
    let r = then(tagged("event_vault"), event);
    assert(seed_list(r) =~= event_vault_seeds(*event));
    r
}

/// The seeds of an Event's collection asset.
pub fn event_mint_seed_list(event: &Address) -> (r: Vec<Vec<u8>>)
    ensures
        seed_list(r) == event_mint_seeds(*event),
{
    let r = then(tagged("event_mint"), event);
    assert(seed_list(r) =~= event_mint_seeds(*event));
    r
}

/// The seeds of the vault of an Event's collection asset.
pub fn event_collection_vault_seed_list(event: &Address) -> (r: Vec<Vec<u8>>)
    ensures
        seed_list(r) == event_collection_vault_seeds(*event),
{
    let r = then(tagged("event_collection_vault"), event);
    assert(seed_list(r) =~= event_collection_vault_seeds(*event));
    r
}

/// The seeds of a Collaborator of an Event.
pub fn collaborator_seed_list(event: &Address, collaborator_base: &Address) -> (r: Vec<Vec<u8>>)
    ensures
        seed_list(r) == collaborator_seeds(*event, *collaborator_base),
{
    let r = then(then(tagged("collaborator"), event), collaborator_base);
    assert(seed_list(r) =~= collaborator_seeds(*event, *collaborator_base));
    r
}

/// The seeds of a TicketMachine of an Event.
pub fn ticket_machine_seed_list(event: &Address, ticket_machine_base: &Address) -> (r: Vec<Vec<u8>>)
    ensures
        seed_list(r) == ticket_machine_seeds(*event, *ticket_machine_base),
{
    let r = then(then(tagged("ticket_machine"), event), ticket_machine_base);
    assert(seed_list(r) =~= ticket_machine_seeds(*event, *ticket_machine_base));
    r
}

/// The seeds of the asset of one ticket.
pub fn ticket_mint_seed_list(
    event: &Address,
    ticket_machine: &Address,
    ticket_mint_base: &Address,
) -> (r: Vec<Vec<u8>>)
    ensures
        seed_list(r) == ticket_mint_seeds(*event, *ticket_machine, *ticket_mint_base),
{
    let r = then(then(then(tagged("ticket_mint"), event), ticket_machine), ticket_mint_base);
    assert(seed_list(r) =~= ticket_mint_seeds(*event, *ticket_machine, *ticket_mint_base));
    r
}

/// The seeds of the Ticket record of a ticket asset.
pub fn ticket_seed_list(ticket_mint: &Address) -> (r: Vec<Vec<u8>>)
    ensures
        seed_list(r) == ticket_seeds(*ticket_mint),
{
    let r = then(tagged("ticket"), ticket_mint);
    assert(seed_list(r) =~= ticket_seeds(*ticket_mint));
    r
}

/// The seeds of an asset's metadata.
pub fn metadata_seed_list(metadata_program: &Address, mint: &Address) -> (r: Vec<Vec<u8>>)
    ensures
        seed_list(r) == metadata_seeds(*metadata_program, *mint),
{
    let r = then(then(tagged("metadata"), metadata_program), mint);
    assert(seed_list(r) =~= metadata_seeds(*metadata_program, *mint));
    r
}

/// The seeds of an asset's master record.
pub fn master_edition_seed_list(metadata_program: &Address, mint: &Address) -> (r: Vec<Vec<u8>>)
    ensures
        seed_list(r) == master_edition_seeds(*metadata_program, *mint),
{
    let head = then(then(tagged("metadata"), metadata_program), mint);
    let ghost before = seed_list(head);
    let mut r = head;
    r.push(slice_to_vec("edition".as_bytes()));
    assert(seed_list(r) =~= before.push(tag("edition")));
    assert(seed_list(r) =~= master_edition_seeds(*metadata_program, *mint));
    r
}

/// The seeds of the vault in which an owner holds an asset.
pub fn vault_seed_list(owner: &Address, token_program: &Address, mint: &Address) -> (r: Vec<Vec<u8>>)
    ensures
        seed_list(r) == vault_seeds(*owner, *token_program, *mint),
{
    let mut seeds: Vec<Vec<u8>> = Vec::new();
    seeds.push(owner.seed());
    seeds.push(token_program.seed());
    seeds.push(mint.seed());
    assert(seed_list(seeds) =~= vault_seeds(*owner, *token_program, *mint));
    seeds
}

} // verus!
