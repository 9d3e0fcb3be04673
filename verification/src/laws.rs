//! What holds of the registry over more than one transaction.
use crate::accounts::{at, lemma_found_stands, Account, Mint, Signer, TokenAccount};
use crate::collaborator::{CreateCollaborator, DeleteCollaborator};
use crate::errors::{ErrorCode, Failure};
use crate::programs::registry;
use crate::event::CreateEvent;
use crate::seeds::{
    collaborator_seeds, event_mint_seeds, event_seeds, event_vault_seeds, master_edition_seeds,
    metadata_seeds, ticket_machine_seeds, ticket_mint_seeds, ticket_seeds, vault_seeds,
};
use crate::ticket_machine::CreateTicketMachine;
use crate::state::{Collaborator, TicketMachine};
use crate::ticket::{CheckIn, MintTicket, SetTicketAuthority, VerifyTicketOwnership};
use vstd::prelude::*;

verus! {

/// The TicketMachine after this many attempts to sell a ticket, one after the
/// other, each of which sells one or is rejected.
pub open spec fn after_sales(machine: TicketMachine, attempts: nat) -> TicketMachine
    decreases attempts,
{
    if attempts == 0 {
        machine
    } else {
        match after_sales(machine, (attempts - 1) as nat).spec_sell() {
            Ok(sold) => sold,
            Err(_) => after_sales(machine, (attempts - 1) as nat),
        }
    }
}

/// Whatever the number of attempts, a TicketMachine never sells more tickets
/// than it has: each attempt sells one ticket until none is left, and after
/// that nothing changes.
pub proof fn lemma_sold_never_exceeds_quantity(machine: TicketMachine, attempts: nat)
    requires
        machine.sold <= machine.quantity,
    ensures
        after_sales(machine, attempts).sold <= machine.quantity,
        after_sales(machine, attempts).sold == if machine.sold + attempts <= machine.quantity {
            machine.sold + attempts
        } else {
            machine.quantity as int
        },
        after_sales(machine, attempts) == (TicketMachine { sold: after_sales(machine, attempts).sold, ..machine }),
    decreases attempts,
{
    if attempts > 0 {
        lemma_sold_never_exceeds_quantity(machine, (attempts - 1) as nat);
    }
}

/// A new TicketMachine sells exactly as many tickets as it has: the attempt
/// after the last ticket is rejected, because not enough tickets are
/// available, and leaves the number of tickets sold as it is.
pub proof fn lemma_sale_after_the_last_is_rejected(machine: TicketMachine)
    requires
        machine.sold == 0,
    ensures
        after_sales(machine, machine.quantity as nat).sold == machine.quantity,
        after_sales(machine, machine.quantity as nat).spec_sell() == Err::<TicketMachine, ErrorCode>(
            ErrorCode::NotEnoughTicketsAvailable,
        ),
        after_sales(machine, (machine.quantity + 1) as nat) == after_sales(machine, machine.quantity as nat),
{
    lemma_sold_never_exceeds_quantity(machine, machine.quantity as nat);
    assert(after_sales(machine, (machine.quantity + 1) as nat) == after_sales(machine, machine.quantity as nat)) by {
        reveal_with_fuel(after_sales, 2);
    }
}

/// A sale, accepted or rejected, leaves a valid TicketMachine valid: it has
/// sold no more tickets than it has.
pub proof fn lemma_mint_keeps_supply(ctx: MintTicket, ticket_vault_bump: u8)
    requires
        ctx.machine_wf(),
    ensures
        ctx.after(ticket_vault_bump).machine_wf(),
{
}

/// Once a TicketMachine has sold all its tickets, every further sale is
/// rejected and leaves the number of tickets sold as it is. Where the
/// accounts of the sale stand, it is rejected because not enough tickets are
/// available.
pub proof fn lemma_mint_sold_out(ctx: MintTicket, ticket_vault_bump: u8)
    requires
        ctx.ticket_machine.data is Some,
        ctx.ticket_machine.data.unwrap().sold >= ctx.ticket_machine.data.unwrap().quantity,
    ensures
        ctx.rejection(ticket_vault_bump) is Some,
        ctx.after(ticket_vault_bump) == ctx,
        ctx.before_rules(ticket_vault_bump) is None ==> ctx.rejection(ticket_vault_bump) == Some(
            Failure::Rule(ErrorCode::NotEnoughTicketsAvailable),
        ),
{
}

/// A ticket is checked in once. A second check-in of the same ticket, with
/// the same accounts, is rejected because the ticket is already checked in,
/// so that the two together count one use.
pub proof fn lemma_second_check_in_is_rejected(ctx: CheckIn)
    requires
        ctx.rejection() is None,
    ensures
        ctx.after().rejection() == Some(Failure::Rule(ErrorCode::TicketAlreadyCheckedIn)),
        ctx.after().after().ticket.data.unwrap().checked_in,
        ctx.after().after().ticket_machine.data.unwrap().used == ctx.ticket_machine.data.unwrap().used + 1,
{
    let again = ctx.after();
    assert(again.before_rules() is None);
}

/// No check-in of a ticket that is checked in is accepted, whatever accounts
/// it names, and none changes the ticket or the count of uses.
pub proof fn lemma_checked_in_is_final(ctx: CheckIn)
    requires
        ctx.ticket.data is Some,
        ctx.ticket.data.unwrap().checked_in,
    ensures
        ctx.rejection() is Some,
        ctx.after() == ctx,
        ctx.before_rules() is None ==> ctx.rejection() == Some(Failure::Rule(ErrorCode::TicketAlreadyCheckedIn)),
{
}

/// After its check-in a ticket does not change hands: every transfer of it is
/// rejected and leaves the record as it is. Where the accounts of the transfer
/// stand and the caller holds the ticket, it is rejected because checked-in
/// tickets cannot change authority.
pub proof fn lemma_checked_in_ticket_stays(check: CheckIn, ctx: SetTicketAuthority, bump: u8)
    requires
        check.rejection() is None,
        ctx.ticket.data == check.after().ticket.data,
    ensures
        ctx.rejection(bump) is Some,
        ctx.after(bump) == ctx,
        ctx.before_rules() is None && ctx.authority.key == ctx.ticket.data.unwrap().authority
            ==> ctx.rejection(bump) == Some(Failure::Rule(ErrorCode::CheckedInTicketsCantChangeAuthority)),
{
}

/// Only the organizer of an event grants a permission: a grant by any other
/// caller is rejected, and the permission exists after it exactly if it did
/// before. Where the accounts stand, it is rejected because only the event
/// authority can create collaborators.
pub proof fn lemma_only_the_organizer_grants(ctx: CreateCollaborator)
    requires
        ctx.event.data is Some,
        ctx.event.data.unwrap().authority != ctx.authority.key,
    ensures
        ctx.rejection() is Some,
        ctx.after().collaborator == ctx.collaborator,
        ctx.before_rules() is None ==> ctx.rejection() == Some(
            Failure::Rule(ErrorCode::OnlyEventAuthorityCanCreateCollaborators),
        ),
{
}

/// Only the organizer of an event takes a permission back: a revocation by
/// any other caller is rejected, and the permission exists after it exactly
/// if it did before. Where the accounts stand, it is rejected because only
/// the event authority can delete collaborators.
pub proof fn lemma_only_the_organizer_revokes(ctx: DeleteCollaborator)
    requires
        ctx.event.data is Some,
        ctx.event.data.unwrap().authority != ctx.authority.key,
    ensures
        ctx.rejection() is Some,
        ctx.after().collaborator == ctx.collaborator,
        ctx.before_rules() is None ==> ctx.rejection() == Some(
            Failure::Rule(ErrorCode::OnlyEventAuthorityCanDeleteCollaborators),
        ),
{
}

/// A sale can be attested at once. Let the vault hold the ticket that was
/// issued into it, and let a collaborator of the event attest. Then after
/// every accepted sale the claim of the buyer to hold the ticket is accepted,
/// and the same claim by any other party is rejected because that party is
/// not the authority of the ticket.
pub proof fn lemma_buyer_holds_the_ticket(
    sale: MintTicket,
    ticket_vault_bump: u8,
    other: Signer,
    collaborator_base: Signer,
    collaborator: Account<Collaborator>,
    ticket_mint: Mint,
    ticket_vault: TokenAccount,
)
    requires
        sale.rejection(ticket_vault_bump) is None,
        ticket_vault.amount > 0,
        collaborator_base.is_signer,
        collaborator.data is Some,
        at(
            collaborator.key,
            collaborator_seeds(sale.event.key, collaborator_base.key),
            collaborator.data.unwrap().bump,
            registry(),
        ),
        other.is_signer,
        other.key != sale.authority.key,
    ensures
        VerifyTicketOwnership::following(
            sale,
            ticket_vault_bump,
            sale.authority,
            collaborator_base,
            collaborator,
            ticket_mint,
            ticket_vault,
        ).rejection() is None,
        VerifyTicketOwnership::following(
            sale,
            ticket_vault_bump,
            other,
            collaborator_base,
            collaborator,
            ticket_mint,
            ticket_vault,
        ).rejection() == Some(Failure::Rule(ErrorCode::InvalidAuthorityForTicket)),
{
    lemma_found_stands(
        sale.ticket_mint.key,
        ticket_mint_seeds(sale.event.key, sale.ticket_machine.key, sale.ticket_mint_base),
        registry(),
    );
    lemma_found_stands(sale.ticket.key, ticket_seeds(sale.ticket_mint.key), registry());
    lemma_found_stands(
        sale.ticket_vault.key,
        vault_seeds(sale.authority.key, sale.token_program.key, sale.ticket_mint.key),
        sale.associated_token_program.key,
    );
    let claim = VerifyTicketOwnership::following(
        sale,
        ticket_vault_bump,
        sale.authority,
        collaborator_base,
        collaborator,
        ticket_mint,
        ticket_vault,
    );
    assert(claim.before_rules() is None);
    let claim_of_other = VerifyTicketOwnership::following(
        sale,
        ticket_vault_bump,
        other,
        collaborator_base,
        collaborator,
        ticket_mint,
        ticket_vault,
    );
    assert(claim_of_other.before_rules() is None);
}

/// Sales that follow one another on one TicketMachine: each finds the
/// TicketMachine as the sale before it left it.
pub open spec fn follow_one_another(sales: Seq<(MintTicket, u8)>) -> bool {
    forall|i: int|
        0 < i < sales.len() ==> (#[trigger] sales[i]).0.ticket_machine == sales[i - 1].0.after(
            sales[i - 1].1,
        ).ticket_machine
}

/// However many sales follow one another on a valid TicketMachine, accepted
/// or rejected, after each of them it has sold no more tickets than it has.
pub proof fn lemma_mints_never_oversell(sales: Seq<(MintTicket, u8)>, i: int)
    requires
        follow_one_another(sales),
        0 <= i < sales.len(),
        sales[0].0.machine_wf(),
    ensures
        sales[i].0.machine_wf(),
        sales[i].0.after(sales[i].1).machine_wf(),
        sales[i].0.after(sales[i].1).ticket_machine.data matches Some(machine) ==> machine.sold
            <= machine.quantity,
    decreases i,
{
    if i > 0 {
        lemma_mints_never_oversell(sales, i - 1);
        assert(sales[i].0.ticket_machine == sales[i - 1].0.after(sales[i - 1].1).ticket_machine);
    }
}

/// A check-in is never undone, and a ticket keeps the bump seeds that it was
/// sold with: neither a further check-in nor a transfer clears the mark, and
/// a check-in leaves the ticket in the same hands.
pub proof fn lemma_ticket_keeps_its_marks(check: CheckIn, transfer: SetTicketAuthority, bump: u8)
    requires
        check.ticket.data is Some,
        transfer.ticket.data is Some,
    ensures
        check.after().ticket.data is Some,
        check.ticket.data.unwrap().checked_in ==> check.after().ticket.data.unwrap().checked_in,
        check.after().ticket.data.unwrap() == (crate::state::Ticket {
            checked_in: check.after().ticket.data.unwrap().checked_in,
            ..check.ticket.data.unwrap()
        }),
        transfer.after(bump).ticket.data is Some,
        transfer.after(bump).ticket.data.unwrap().checked_in == transfer.ticket.data.unwrap().checked_in,
        transfer.after(bump).ticket.data.unwrap() == (crate::state::Ticket {
            authority: transfer.after(bump).ticket.data.unwrap().authority,
            associated_token_bump: transfer.after(bump).ticket.data.unwrap().associated_token_bump,
            ..transfer.ticket.data.unwrap()
        }),
{
}

/// A ticket changes hands only before its check-in, and only by the party
/// that holds it.
pub proof fn lemma_authority_changes_before_check_in_only(ctx: SetTicketAuthority, bump: u8)
    requires
        ctx.ticket.data is Some,
        ctx.after(bump).ticket.data.unwrap().authority != ctx.ticket.data.unwrap().authority,
    ensures
        !ctx.ticket.data.unwrap().checked_in,
        ctx.authority.key == ctx.ticket.data.unwrap().authority,
        ctx.authority.is_signer,
        ctx.after(bump).ticket.data.unwrap().authority == ctx.new_authority,
{
}

/// The bump seeds that a sale records prove the derivation of the ticket's
/// accounts: with them, the buyer's vault and the asset, the record, the
/// metadata and the master record of the ticket stand at their addresses
/// whenever they are held against their seeds again.
pub proof fn lemma_sale_records_true_bump_seeds(sale: MintTicket, ticket_vault_bump: u8)
    requires
        sale.rejection(ticket_vault_bump) is None,
    ensures
        sale.record(ticket_vault_bump).associated_token_bump == sale.ticket_vault_bump(),
        at(
            sale.ticket_vault.key,
            vault_seeds(sale.authority.key, sale.token_program.key, sale.ticket_mint.key),
            sale.record(ticket_vault_bump).associated_token_bump,
            sale.associated_token_program.key,
        ),
        at(
            sale.ticket_mint.key,
            ticket_mint_seeds(sale.event.key, sale.ticket_machine.key, sale.ticket_mint_base),
            sale.record(ticket_vault_bump).mint_bump,
            registry(),
        ),
        at(sale.ticket.key, ticket_seeds(sale.ticket_mint.key), sale.record(ticket_vault_bump).bump, registry()),
        at(
            sale.ticket_metadata,
            metadata_seeds(sale.metadata_program.key, sale.ticket_mint.key),
            sale.record(ticket_vault_bump).metadata_bump,
            sale.metadata_program.key,
        ),
        at(
            sale.ticket_master_edition,
            master_edition_seeds(sale.metadata_program.key, sale.ticket_mint.key),
            sale.record(ticket_vault_bump).master_edition_bump,
            sale.metadata_program.key,
        ),
{
    lemma_found_stands(
        sale.ticket_mint.key,
        ticket_mint_seeds(sale.event.key, sale.ticket_machine.key, sale.ticket_mint_base),
        registry(),
    );
    lemma_found_stands(sale.ticket.key, ticket_seeds(sale.ticket_mint.key), registry());
    lemma_found_stands(
        sale.ticket_metadata,
        metadata_seeds(sale.metadata_program.key, sale.ticket_mint.key),
        sale.metadata_program.key,
    );
    lemma_found_stands(
        sale.ticket_master_edition,
        master_edition_seeds(sale.metadata_program.key, sale.ticket_mint.key),
        sale.metadata_program.key,
    );
    lemma_found_stands(
        sale.ticket_vault.key,
        vault_seeds(sale.authority.key, sale.token_program.key, sale.ticket_mint.key),
        sale.associated_token_program.key,
    );
}

/// The bump seeds that an event records at its creation prove the derivation
/// of its accounts: with them, the event, its payment vault, its collection
/// asset and that asset's metadata and master record stand at their addresses
/// whenever they are held against their seeds again.
pub proof fn lemma_event_records_true_bump_seeds(
    ctx: CreateEvent,
    name: Seq<char>,
    symbol: Seq<char>,
    uri: Seq<char>,
)
    requires
        ctx.rejection(name, symbol, uri) is None,
    ensures
        at(ctx.event.key, event_seeds(ctx.event_base), ctx.record().bump, registry()),
        at(ctx.event_vault.key, event_vault_seeds(ctx.event.key), ctx.record().event_vault_bump, registry()),
        at(ctx.event_mint.key, event_mint_seeds(ctx.event.key), ctx.record().event_mint_bump, registry()),
        at(
            ctx.event_metadata,
            metadata_seeds(ctx.metadata_program.key, ctx.event_mint.key),
            ctx.record().event_metadata_bump,
            ctx.metadata_program.key,
        ),
        at(
            ctx.event_master_edition,
            master_edition_seeds(ctx.metadata_program.key, ctx.event_mint.key),
            ctx.record().event_master_edition_bump,
            ctx.metadata_program.key,
        ),
{
    lemma_found_stands(ctx.event.key, event_seeds(ctx.event_base), registry());
    lemma_found_stands(ctx.event_vault.key, event_vault_seeds(ctx.event.key), registry());
    lemma_found_stands(ctx.event_mint.key, event_mint_seeds(ctx.event.key), registry());
    lemma_found_stands(
        ctx.event_metadata,
        metadata_seeds(ctx.metadata_program.key, ctx.event_mint.key),
        ctx.metadata_program.key,
    );
    lemma_found_stands(
        ctx.event_master_edition,
        master_edition_seeds(ctx.metadata_program.key, ctx.event_mint.key),
        ctx.metadata_program.key,
    );
}

/// The bump seed that a TicketMachine or a permission records at its creation
/// proves the derivation of its address.
pub proof fn lemma_records_keep_true_bump_seeds(
    machine: CreateTicketMachine,
    name: String,
    symbol: String,
    uri: String,
    price: u64,
    quantity: u64,
    uses: u64,
    grant: CreateCollaborator,
)
    ensures
        machine.rejection(name@, symbol@, uri@) is None ==> at(
            machine.ticket_machine.key,
            ticket_machine_seeds(machine.event.key, machine.ticket_machine_base),
            machine.created(name, symbol, uri, price, quantity, uses).ticket_machine.data.unwrap().bump,
            registry(),
        ),
        grant.rejection() is None ==> at(
            grant.collaborator.key,
            collaborator_seeds(grant.event.key, grant.collaborator_base),
            grant.granted().collaborator.data.unwrap().bump,
            registry(),
        ),
{
    if machine.rejection(name@, symbol@, uri@) is None {
        lemma_found_stands(
            machine.ticket_machine.key,
            ticket_machine_seeds(machine.event.key, machine.ticket_machine_base),
            registry(),
        );
    }
    if grant.rejection() is None {
        lemma_found_stands(
            grant.collaborator.key,
            collaborator_seeds(grant.event.key, grant.collaborator_base),
            registry(),
        );
    }
}

} // verus!
