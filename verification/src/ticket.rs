//! The life of a ticket: it is sold, it may change hands, it is checked in,
//! and whoever holds it can have that attested.
use crate::accounts::{at, bump_of, check_at, check_found, found, Account, Mint, Program, Signer, TokenAccount};
use crate::address::{seed_list, signer_seeds, with_bump, Address};
use crate::bridge::{
    call_list, check_text, consume_use, create_master_edition, create_master_edition_instruction, create_metadata,
    create_metadata_instruction, set_and_verify_collection_instruction, text_fits, utilize_instruction,
    verify_collection, BridgeCall, BridgeCallView,
};
use crate::errors::{ErrorCode, Failure};
use crate::programs::{
    associated_token_program, associated_token_program_id, id, metadata_program, metadata_program_id,
    registry, rent, rent_id, system_program, system_program_id, token_program, token_program_id,
};
use crate::seeds::{
    collaborator_seed_list, collaborator_seeds, event_mint_seed_list, event_mint_seeds, event_seed_list,
    event_seeds, event_vault_seed_list, event_vault_seeds, master_edition_seed_list, master_edition_seeds,
    metadata_seed_list, metadata_seeds, ticket_machine_seed_list, ticket_machine_seeds,
    ticket_mint_seed_list, ticket_mint_seeds, ticket_seed_list, ticket_seeds, vault_seed_list, vault_seeds,
};
use crate::state::{Collaborator, Event, Ticket, TicketMachine};
use vstd::prelude::*;

verus! {

/// The accounts of `mint_ticket`.
#[derive(Clone, Debug, PartialEq, Eq)]
pub struct MintTicket {
    pub metadata_program: Program,
    pub system_program: Program,
    pub token_program: Program,
    pub associated_token_program: Program,
    pub rent: Address,
    /// The buyer, who pays for the ticket and for what is created.
    pub authority: Signer,
    pub event_base: Address,
    pub event: Account<Event>,
    /// The event's collection asset.
    pub event_mint: Account<Mint>,
    pub event_metadata: Address,
    pub event_master_edition: Address,
    pub ticket_machine_base: Address,
    pub ticket_machine: Account<TicketMachine>,
    /// The vault from which the buyer pays.
    pub buyer_vault: Account<TokenAccount>,
    /// The vault of the event, which is paid.
    pub event_vault: Account<TokenAccount>,
    pub ticket_mint_base: Address,
    /// Where the asset of the ticket is created.
    pub ticket_mint: Account<Mint>,
    pub ticket_metadata: Address,
    pub ticket_master_edition: Address,
    /// Where the buyer's vault for the ticket is created.
    pub ticket_vault: Account<TokenAccount>,
    /// Where the record of the ticket is created.
    pub ticket: Account<Ticket>,
}

/// The accounts of `check_in`.
#[derive(Clone, Debug, PartialEq, Eq)]
pub struct CheckIn {
    pub metadata_program: Program,
    pub system_program: Program,
    pub token_program: Program,
    pub associated_token_program: Program,
    pub rent: Address,
    /// The party that presents the ticket.
    pub authority: Signer,
    pub event_base: Address,
    pub event: Account<Event>,
    pub ticket_machine_base: Address,
    pub ticket_machine: Account<TicketMachine>,
    pub ticket_mint_base: Address,
    pub ticket_mint: Account<Mint>,
    pub ticket_metadata: Address,
    /// The vault in which the party holds the ticket.
    pub ticket_vault: Account<TokenAccount>,
    pub ticket: Account<Ticket>,
}

/// The accounts of `verify_ticket_ownership`.
#[derive(Clone, Debug, PartialEq, Eq)]
pub struct VerifyTicketOwnership {
    pub metadata_program: Program,
    pub system_program: Program,
    pub token_program: Program,
    pub associated_token_program: Program,
    pub rent: Address,
    /// The collaborator who attests.
    pub collaborator_base: Signer,
    /// The party that claims to hold the ticket.
    pub authority: Signer,
    pub event_base: Address,
    pub event: Account<Event>,
    pub collaborator: Account<Collaborator>,
    pub ticket_machine_base: Address,
    pub ticket_machine: Account<TicketMachine>,
    pub ticket_mint_base: Address,
    pub ticket_mint: Account<Mint>,
    pub ticket: Account<Ticket>,
    /// The vault in which the party holds the ticket.
    pub ticket_vault: Account<TokenAccount>,
}

/// The accounts of `set_ticket_authority`.
#[derive(Clone, Debug, PartialEq, Eq)]
pub struct SetTicketAuthority {
    pub token_program: Program,
    pub associated_token_program: Program,
    /// The party that holds the ticket, and hands it on.
    pub authority: Signer,
    /// The party that receives the ticket.
    pub new_authority: Address,
    pub ticket_mint: Account<Mint>,
    pub ticket: Account<Ticket>,
    /// The vault in which the receiving party holds the ticket.
    pub new_authority_ticket_vault: Account<TokenAccount>,
}

impl MintTicket {
    /// Why the accounts of the sale are rejected, if they are, before the
    /// supply is looked at: the first of these that holds. The buyer must have
    /// signed; the event, its collection asset, the TicketMachine and the two
    /// payment vaults must exist; the asset, the vault and the record of the
    /// ticket must be new, each at the address that its seeds derive, and the
    /// bump seed that the buyer gives for the vault must be its canonical one;
    /// and the event, its collection asset with its metadata and master
    /// record, and the TicketMachine must each be at the address that its
    /// seeds and its recorded bump seed derive.
    pub open spec fn before_rules(self, ticket_vault_bump: u8) -> Option<Failure> {
        let event = self.event.data.unwrap();
        let machine = self.ticket_machine.data.unwrap();
        if !self.system_program.runs(system_program()) {
            Some(Failure::InvalidProgram)
        } else if !self.token_program.runs(token_program()) {
            Some(Failure::InvalidProgram)
        } else if !self.associated_token_program.runs(associated_token_program()) {
            Some(Failure::InvalidProgram)
        } else if self.rent != rent() {
            Some(Failure::InvalidSysvar)
        } else if !self.authority.is_signer {
            Some(Failure::MissingSignature)
        } else if self.event.data is None || self.event_mint.data is None || self.ticket_machine.data is None
            || self.buyer_vault.data is None || self.event_vault.data is None {
            Some(Failure::AccountNotInitialized)
        } else if !found(
            self.ticket_mint.key,
            ticket_mint_seeds(self.event.key, self.ticket_machine.key, self.ticket_mint_base),
            registry(),
        ) {
            Some(Failure::AddressMismatch)
        } else if self.ticket_mint.data is Some {
            Some(Failure::AccountInUse)
        } else if !found(
            self.ticket_vault.key,
            vault_seeds(self.authority.key, self.token_program.key, self.ticket_mint.key),
            self.associated_token_program.key,
        ) {
            Some(Failure::AddressMismatch)
        } else if ticket_vault_bump != self.ticket_vault_bump() {
            Some(Failure::AddressMismatch)
        } else if self.ticket_vault.data is Some {
            Some(Failure::AccountInUse)
        } else if !found(self.ticket.key, ticket_seeds(self.ticket_mint.key), registry()) {
            Some(Failure::AddressMismatch)
        } else if self.ticket.data is Some {
            Some(Failure::AccountInUse)
        } else if !self.metadata_program.runs(metadata_program()) {
            Some(Failure::InvalidProgram)
        } else if !at(self.event.key, event_seeds(self.event_base), event.bump, registry()) {
            Some(Failure::AddressMismatch)
        } else if !at(self.event_mint.key, event_mint_seeds(self.event.key), event.event_mint_bump, registry()) {
            Some(Failure::AddressMismatch)
        } else if !at(
            self.event_metadata,
            metadata_seeds(self.metadata_program.key, self.event_mint.key),
            event.event_metadata_bump,
            self.metadata_program.key,
        ) {
            Some(Failure::AddressMismatch)
        } else if !at(
            self.event_master_edition,
            master_edition_seeds(self.metadata_program.key, self.event_mint.key),
            event.event_master_edition_bump,
            self.metadata_program.key,
        ) {
            Some(Failure::AddressMismatch)
        } else if !at(
            self.ticket_machine.key,
            ticket_machine_seeds(self.event.key, self.ticket_machine_base),
            machine.bump,
            registry(),
        ) {
            Some(Failure::AddressMismatch)
        } else {
            None
        }
    }

    /// Why the sale is rejected, if it is: the first of these that holds. The
    /// accounts must stand; a ticket must be left; the buyer must pay in the
    /// asset that the event accepts, into the vault of the event; the
    /// metadata and the master record of the ticket must be at the addresses
    /// that the metadata service derives for them; and the texts of the
    /// TicketMachine must be short enough to be sent.
    pub open spec fn rejection(self, ticket_vault_bump: u8) -> Option<Failure> {
        let event = self.event.data.unwrap();
        let machine = self.ticket_machine.data.unwrap();
        if self.before_rules(ticket_vault_bump) is Some {
            self.before_rules(ticket_vault_bump)
        } else if !machine.available() {
            Some(Failure::Rule(ErrorCode::NotEnoughTicketsAvailable))
        } else if self.buyer_vault.data.unwrap().mint != event.accepted_mint {
            Some(Failure::PaymentAssetMismatch)
        } else if !at(
            self.event_vault.key,
            event_vault_seeds(self.event.key),
            event.event_vault_bump,
            registry(),
        ) {
            Some(Failure::AddressMismatch)
        } else if !found(
            self.ticket_metadata,
            metadata_seeds(self.metadata_program.key, self.ticket_mint.key),
            self.metadata_program.key,
        ) {
            Some(Failure::AddressMismatch)
        } else if !found(
            self.ticket_master_edition,
            master_edition_seeds(self.metadata_program.key, self.ticket_mint.key),
            self.metadata_program.key,
        ) {
            Some(Failure::AddressMismatch)
        } else if !(text_fits(machine.name@) && text_fits(machine.symbol@) && text_fits(machine.uri@)) {
            Some(Failure::TextTooLong)
        } else {
            None
        }
    }

    /// The accounts after the transaction, accepted or rejected.
    pub open spec fn after(self, ticket_vault_bump: u8) -> MintTicket {
        if self.rejection(ticket_vault_bump) is None {
            self.sold(ticket_vault_bump)
        } else {
            self
        }
    }

    /// Whether the TicketMachine, if there is one, is a valid one.
    pub open spec fn machine_wf(self) -> bool {
        self.ticket_machine.data matches Some(machine) ==> machine.wf()
    }

    /// The canonical bump seed of the buyer's vault for the ticket.
    pub open spec fn ticket_vault_bump(self) -> u8 {
        bump_of(
            vault_seeds(self.authority.key, self.token_program.key, self.ticket_mint.key),
            self.associated_token_program.key,
        )
    }

    /// The canonical bump seed of the ticket's record.
    pub open spec fn ticket_bump(self) -> u8 {
        bump_of(ticket_seeds(self.ticket_mint.key), registry())
    }

    /// The canonical bump seed of the ticket's asset.
    pub open spec fn ticket_mint_bump(self) -> u8 {
        bump_of(ticket_mint_seeds(self.event.key, self.ticket_machine.key, self.ticket_mint_base), registry())
    }

    /// The record of the ticket that the sale creates: in the hands of the
    /// buyer, not checked in, with the bump seed that the buyer gave for their
    /// vault, which an accepted sale has held against the canonical one, and
    /// the canonical bump seed of each other address.
    pub open spec fn record(self, ticket_vault_bump: u8) -> Ticket {
        Ticket {
            authority: self.authority.key,
            checked_in: false,
            bump: self.ticket_bump(),
            associated_token_bump: ticket_vault_bump,
            mint_bump: self.ticket_mint_bump(),
            metadata_bump: bump_of(
                metadata_seeds(self.metadata_program.key, self.ticket_mint.key),
                self.metadata_program.key,
            ),
            master_edition_bump: bump_of(
                master_edition_seeds(self.metadata_program.key, self.ticket_mint.key),
                self.metadata_program.key,
            ),
        }
    }

    /// The accounts after the sale: the TicketMachine has sold one ticket
    /// more, and the record of the ticket exists.
    pub open spec fn sold(self, ticket_vault_bump: u8) -> MintTicket {
        MintTicket {
            ticket_machine: Account {
                key: self.ticket_machine.key,
                data: Some(self.ticket_machine.data.unwrap().after_sale()),
            },
            ticket: Account { key: self.ticket.key, data: Some(self.record(ticket_vault_bump)) },
            ..self
        }
    }

    /// The seeds with which the registry signs for the event.
    pub open spec fn event_signer(self) -> Seq<Seq<u8>> {
        with_bump(event_seeds(self.event_base), self.event.data.unwrap().bump)
    }

    /// The calls that the sale makes, in their order: the asset of the ticket
    /// and the buyer's vault for it are created; the ledger allocates the
    /// record of the ticket, paid by the buyer; the buyer pays the price into
    /// the vault of the event; one unit of the asset is issued into the
    /// buyer's vault; and the metadata service records the name, symbol and
    /// uri of the TicketMachine with the ticket's use-counter, makes the unit
    /// the only one, and registers it as a verified member of the event's
    /// collection.
    pub open spec fn calls(self) -> Seq<BridgeCallView> {
        let machine = self.ticket_machine.data.unwrap();
        seq![
            BridgeCallView::CreateMint {
                mint: self.ticket_mint.key,
                decimals: 0,
                authority: self.event.key,
                payer: self.authority.key,
                seeds: with_bump(
                    ticket_mint_seeds(self.event.key, self.ticket_machine.key, self.ticket_mint_base),
                    self.ticket_mint_bump(),
                ),
            },
            BridgeCallView::CreateAssociatedTokenAccount {
                account: self.ticket_vault.key,
                mint: self.ticket_mint.key,
                owner: self.authority.key,
                payer: self.authority.key,
            },
            BridgeCallView::CreateRecord {
                account: self.ticket.key,
                space: Ticket::SIZE,
                payer: self.authority.key,
                seeds: with_bump(ticket_seeds(self.ticket_mint.key), self.ticket_bump()),
            },
            BridgeCallView::Transfer {
                from: self.buyer_vault.key,
                to: self.event_vault.key,
                authority: self.authority.key,
                amount: machine.price,
            },
            BridgeCallView::MintTo {
                mint: self.ticket_mint.key,
                to: self.ticket_vault.key,
                authority: self.event.key,
                amount: 1,
                signer_seeds: self.event_signer(),
            },
            BridgeCallView::Invoke {
                instruction: create_metadata_instruction(
                    self.ticket_metadata,
                    self.ticket_mint.key,
                    self.event.key,
                    self.authority.key,
                    machine.name@,
                    machine.symbol@,
                    machine.uri@,
                    Some(machine.spec_use_counter()),
                ),
                signer_seeds: self.event_signer(),
            },
            BridgeCallView::Invoke {
                instruction: create_master_edition_instruction(
                    self.ticket_master_edition,
                    self.ticket_mint.key,
                    self.event.key,
                    self.ticket_metadata,
                    self.authority.key,
                ),
                signer_seeds: self.event_signer(),
            },
            BridgeCallView::Invoke {
                instruction: set_and_verify_collection_instruction(
                    self.ticket_metadata,
                    self.event.key,
                    self.authority.key,
                    self.event_mint.key,
                    self.event_metadata,
                    self.event_master_edition,
                ),
                signer_seeds: self.event_signer(),
            },
        ]
    }
}

/// Sells one ticket of a TicketMachine to the buyer, who pays its price to
/// the event. `ticket_vault_bump` is the bump seed of the buyer's vault for
/// the ticket: it has to be the canonical one, and the record keeps it. A
/// rejected sale changes nothing and makes no call.
pub fn mint_ticket(ctx: &mut MintTicket, ticket_vault_bump: u8) -> (r: Result<Vec<BridgeCall>, Failure>)
    ensures
        match r {
            Ok(calls) => {
                &&& old(ctx).rejection(ticket_vault_bump) is None
                &&& *final(ctx) == old(ctx).sold(ticket_vault_bump)
                &&& final(ctx).ticket.data.unwrap().associated_token_bump == old(ctx).ticket_vault_bump()
                &&& call_list(calls) == old(ctx).calls()
            },
            Err(failure) => {
                &&& old(ctx).rejection(ticket_vault_bump) == Some(failure)
                &&& *final(ctx) == *old(ctx)
            },
        },
        *final(ctx) == old(ctx).after(ticket_vault_bump),
        old(ctx).machine_wf() ==> final(ctx).machine_wf(),
{
    if !ctx.system_program.check(&system_program_id()) {
        return Err(Failure::InvalidProgram);
    }
    if !ctx.token_program.check(&token_program_id()) {
        return Err(Failure::InvalidProgram);
    }
    if !ctx.associated_token_program.check(&associated_token_program_id()) {
        return Err(Failure::InvalidProgram);
    }
    if ctx.rent != rent_id() {
        return Err(Failure::InvalidSysvar);
    }
    if !ctx.authority.is_signer {
        return Err(Failure::MissingSignature);
    }
    let event = match ctx.event.data {
        Some(event) => event,
        None => return Err(Failure::AccountNotInitialized),
    };
    if ctx.event_mint.data.is_none() {
        return Err(Failure::AccountNotInitialized);
    }
    let (machine_bump, available, price, uses, name, symbol, uri) = match &ctx.ticket_machine.data {
        Some(machine) => (
            machine.bump,
            machine.check_available(),
            machine.price,
            machine.use_counter(),
            machine.name.clone(),
            machine.symbol.clone(),
            machine.uri.clone(),
        ),
        None => return Err(Failure::AccountNotInitialized),
    };
    let buyer_vault = match ctx.buyer_vault.data {
        Some(vault) => vault,
        None => return Err(Failure::AccountNotInitialized),
    };
    if ctx.event_vault.data.is_none() {
        return Err(Failure::AccountNotInitialized);
    }
    let mint_bump = check_found(
        &ctx.ticket_mint.key,
        ticket_mint_seed_list(&ctx.event.key, &ctx.ticket_machine.key, &ctx.ticket_mint_base),
        &id(),
    )?;
    if ctx.ticket_mint.data.is_some() {
        return Err(Failure::AccountInUse);
    }
    let vault_bump = check_found(
        &ctx.ticket_vault.key,
        vault_seed_list(&ctx.authority.key, &ctx.token_program.key, &ctx.ticket_mint.key),
        &ctx.associated_token_program.key,
    )?;
    if ticket_vault_bump != vault_bump {
        return Err(Failure::AddressMismatch);
    }
    if ctx.ticket_vault.data.is_some() {
        return Err(Failure::AccountInUse);
    }
    let bump = check_found(&ctx.ticket.key, ticket_seed_list(&ctx.ticket_mint.key), &id())?;
    if ctx.ticket.data.is_some() {
        return Err(Failure::AccountInUse);
    }
    if !ctx.metadata_program.check(&metadata_program_id()) {
        return Err(Failure::InvalidProgram);
    }
    check_at(&ctx.event.key, event_seed_list(&ctx.event_base), event.bump, &id())?;
    check_at(&ctx.event_mint.key, event_mint_seed_list(&ctx.event.key), event.event_mint_bump, &id())?;
    check_at(
        &ctx.event_metadata,
        metadata_seed_list(&ctx.metadata_program.key, &ctx.event_mint.key),
        event.event_metadata_bump,
        &ctx.metadata_program.key,
    )?;
    check_at(
        &ctx.event_master_edition,
        master_edition_seed_list(&ctx.metadata_program.key, &ctx.event_mint.key),
        event.event_master_edition_bump,
        &ctx.metadata_program.key,
    )?;
    check_at(
        &ctx.ticket_machine.key,
        ticket_machine_seed_list(&ctx.event.key, &ctx.ticket_machine_base),
        machine_bump,
        &id(),
    )?;
    match available {
        Ok(()) => {},
        Err(rule) => return Err(Failure::Rule(rule)),
    }
    if buyer_vault.mint != event.accepted_mint {
        return Err(Failure::PaymentAssetMismatch);
    }
    check_at(&ctx.event_vault.key, event_vault_seed_list(&ctx.event.key), event.event_vault_bump, &id())?;
    let metadata_bump = check_found(
        &ctx.ticket_metadata,
        metadata_seed_list(&ctx.metadata_program.key, &ctx.ticket_mint.key),
        &ctx.metadata_program.key,
    )?;
    let master_edition_bump = check_found(
        &ctx.ticket_master_edition,
        master_edition_seed_list(&ctx.metadata_program.key, &ctx.ticket_mint.key),
        &ctx.metadata_program.key,
    )?;
    if !(check_text(&name) && check_text(&symbol) && check_text(&uri)) {
        return Err(Failure::TextTooLong);
    }
    let buyer = ctx.authority.key;
    let mut calls: Vec<BridgeCall> = Vec::new();
    calls.push(
        BridgeCall::CreateMint {
            mint: ctx.ticket_mint.key,
            decimals: 0,
            authority: ctx.event.key,
            payer: buyer,
            seeds: signer_seeds(
                ticket_mint_seed_list(&ctx.event.key, &ctx.ticket_machine.key, &ctx.ticket_mint_base),
                mint_bump,
            ),
        },
    );
    calls.push(
        BridgeCall::CreateAssociatedTokenAccount {
            account: ctx.ticket_vault.key,
            mint: ctx.ticket_mint.key,
            owner: buyer,
            payer: buyer,
        },
    );
    calls.push(
        BridgeCall::CreateRecord {
            account: ctx.ticket.key,
            space: Ticket::SIZE,
            payer: buyer,
            seeds: signer_seeds(ticket_seed_list(&ctx.ticket_mint.key), bump),
        },
    );
    calls.push(
        BridgeCall::Transfer { from: ctx.buyer_vault.key, to: ctx.event_vault.key, authority: buyer, amount: price },
    );
    calls.push(
        BridgeCall::MintTo {
            mint: ctx.ticket_mint.key,
            to: ctx.ticket_vault.key,
            authority: ctx.event.key,
            amount: 1,
            signer_seeds: signer_seeds(event_seed_list(&ctx.event_base), event.bump),
        },
    );
    calls.push(
        BridgeCall::Invoke {
            instruction: create_metadata(
                &ctx.ticket_metadata,
                &ctx.ticket_mint.key,
                &ctx.event.key,
                &buyer,
                name,
                symbol,
                uri,
                Some(uses),
            ),
            signer_seeds: signer_seeds(event_seed_list(&ctx.event_base), event.bump),
        },
    );
    calls.push(
        BridgeCall::Invoke {
            instruction: create_master_edition(
                &ctx.ticket_master_edition,
                &ctx.ticket_mint.key,
                &ctx.event.key,
                &ctx.ticket_metadata,
                &buyer,
            ),
            signer_seeds: signer_seeds(event_seed_list(&ctx.event_base), event.bump),
        },
    );
    calls.push(
        BridgeCall::Invoke {
            instruction: verify_collection(
                &ctx.ticket_metadata,
                &ctx.event.key,
                &buyer,
                &ctx.event_mint.key,
                &ctx.event_metadata,
                &ctx.event_master_edition,
            ),
            signer_seeds: signer_seeds(event_seed_list(&ctx.event_base), event.bump),
        },
    );
    match &mut ctx.ticket_machine.data {
        Some(machine) => {
            let sale = machine.sell();
            assert(sale is Ok);
        },
        None => {},
    }
    ctx.ticket.data = Some(
        Ticket::new(buyer, bump, vault_bump, mint_bump, metadata_bump, master_edition_bump),
    );
    proof {
        assert(call_list(calls) =~= old(ctx).calls());
    }
    Ok(calls)
}

impl CheckIn {
    /// Why the accounts of the check-in are rejected, if they are, before
    /// the ticket is looked at: the first of these that holds. The party must
    /// have signed; and the event, the TicketMachine, the asset, the vault and
    /// the record of the ticket must exist, each at the address that its seeds
    /// and its recorded bump seed derive, the vault being the party's own.
    pub open spec fn before_rules(self) -> Option<Failure> {
        let event = self.event.data.unwrap();
        let machine = self.ticket_machine.data.unwrap();
        let ticket = self.ticket.data.unwrap();
        if !self.system_program.runs(system_program()) {
            Some(Failure::InvalidProgram)
        } else if !self.token_program.runs(token_program()) {
            Some(Failure::InvalidProgram)
        } else if !self.associated_token_program.runs(associated_token_program()) {
            Some(Failure::InvalidProgram)
        } else if self.rent != rent() {
            Some(Failure::InvalidSysvar)
        } else if !self.authority.is_signer {
            Some(Failure::MissingSignature)
        } else if self.event.data is None || self.ticket_machine.data is None || self.ticket_mint.data is None
            || self.ticket_vault.data is None || self.ticket.data is None {
            Some(Failure::AccountNotInitialized)
        } else if !self.metadata_program.runs(metadata_program()) {
            Some(Failure::InvalidProgram)
        } else if !at(self.event.key, event_seeds(self.event_base), event.bump, registry()) {
            Some(Failure::AddressMismatch)
        } else if !at(
            self.ticket_machine.key,
            ticket_machine_seeds(self.event.key, self.ticket_machine_base),
            machine.bump,
            registry(),
        ) {
            Some(Failure::AddressMismatch)
        } else if !at(
            self.ticket_mint.key,
            ticket_mint_seeds(self.event.key, self.ticket_machine.key, self.ticket_mint_base),
            ticket.mint_bump,
            registry(),
        ) {
            Some(Failure::AddressMismatch)
        } else if !at(
            self.ticket_metadata,
            metadata_seeds(self.metadata_program.key, self.ticket_mint.key),
            ticket.metadata_bump,
            self.metadata_program.key,
        ) {
            Some(Failure::AddressMismatch)
        } else if !at(
            self.ticket_vault.key,
            vault_seeds(self.authority.key, self.token_program.key, self.ticket_mint.key),
            ticket.associated_token_bump,
            self.associated_token_program.key,
        ) {
            Some(Failure::AddressMismatch)
        } else if !at(self.ticket.key, ticket_seeds(self.ticket_mint.key), ticket.bump, registry()) {
            Some(Failure::AddressMismatch)
        } else {
            None
        }
    }

    /// Why the check-in is rejected, if it is: the first of these that holds.
    /// The accounts must stand; the ticket must not be checked in yet; and the
    /// counter of uses must not be at its end.
    pub open spec fn rejection(self) -> Option<Failure> {
        let machine = self.ticket_machine.data.unwrap();
        let ticket = self.ticket.data.unwrap();
        if self.before_rules() is Some {
            self.before_rules()
        } else if ticket.spec_check_in() is Err {
            Some(Failure::Rule(ticket.spec_check_in()->Err_0))
        } else if machine.used == u64::MAX {
            Some(Failure::CounterOverflow)
        } else {
            None
        }
    }

    /// The accounts after the transaction, accepted or rejected.
    pub open spec fn after(self) -> CheckIn {
        if self.rejection() is None {
            self.checked_in()
        } else {
            self
        }
    }

    /// The accounts after the check-in: the TicketMachine has counted one use
    /// more, and the ticket is checked in.
    pub open spec fn checked_in(self) -> CheckIn {
        CheckIn {
            ticket_machine: Account {
                key: self.ticket_machine.key,
                data: Some(self.ticket_machine.data.unwrap().after_use()),
            },
            ticket: Account { key: self.ticket.key, data: Some(self.ticket.data.unwrap().spec_check_in().unwrap()) },
            ..self
        }
    }

    /// The one call that the check-in makes: the party consumes one use of
    /// the ticket with the metadata service.
    pub open spec fn calls(self) -> Seq<BridgeCallView> {
        seq![
            BridgeCallView::Invoke {
                instruction: utilize_instruction(
                    self.ticket_metadata,
                    self.ticket_vault.key,
                    self.ticket_mint.key,
                    self.authority.key,
                ),
                signer_seeds: Seq::empty(),
            },
        ]
    }
}

/// Checks a ticket in: the ticket is marked for good, the TicketMachine counts
/// the use, and one use of the ticket is consumed. A rejected check-in
/// changes nothing and makes no call.
pub fn check_in(ctx: &mut CheckIn) -> (r: Result<Vec<BridgeCall>, Failure>)
    ensures
        match r {
            Ok(calls) => {
                &&& old(ctx).rejection() is None
                &&& *final(ctx) == old(ctx).checked_in()
                &&& call_list(calls) == old(ctx).calls()
            },
            Err(failure) => old(ctx).rejection() == Some(failure) && *final(ctx) == *old(ctx),
        },
        *final(ctx) == old(ctx).after(),
{
    if !ctx.system_program.check(&system_program_id()) {
        return Err(Failure::InvalidProgram);
    }
    if !ctx.token_program.check(&token_program_id()) {
        return Err(Failure::InvalidProgram);
    }
    if !ctx.associated_token_program.check(&associated_token_program_id()) {
        return Err(Failure::InvalidProgram);
    }
    if ctx.rent != rent_id() {
        return Err(Failure::InvalidSysvar);
    }
    if !ctx.authority.is_signer {
        return Err(Failure::MissingSignature);
    }
    let event = match ctx.event.data {
        Some(event) => event,
        None => return Err(Failure::AccountNotInitialized),
    };
    let (machine_bump, used) = match &ctx.ticket_machine.data {
        Some(machine) => (machine.bump, machine.used),
        None => return Err(Failure::AccountNotInitialized),
    };
    if ctx.ticket_mint.data.is_none() || ctx.ticket_vault.data.is_none() {
        return Err(Failure::AccountNotInitialized);
    }
    let mut ticket = match ctx.ticket.data {
        Some(ticket) => ticket,
        None => return Err(Failure::AccountNotInitialized),
    };
    if !ctx.metadata_program.check(&metadata_program_id()) {
        return Err(Failure::InvalidProgram);
    }
    check_at(&ctx.event.key, event_seed_list(&ctx.event_base), event.bump, &id())?;
    check_at(
        &ctx.ticket_machine.key,
        ticket_machine_seed_list(&ctx.event.key, &ctx.ticket_machine_base),
        machine_bump,
        &id(),
    )?;
    check_at(
        &ctx.ticket_mint.key,
        ticket_mint_seed_list(&ctx.event.key, &ctx.ticket_machine.key, &ctx.ticket_mint_base),
        ticket.mint_bump,
        &id(),
    )?;
    check_at(
        &ctx.ticket_metadata,
        metadata_seed_list(&ctx.metadata_program.key, &ctx.ticket_mint.key),
        ticket.metadata_bump,
        &ctx.metadata_program.key,
    )?;
    check_at(
        &ctx.ticket_vault.key,
        vault_seed_list(&ctx.authority.key, &ctx.token_program.key, &ctx.ticket_mint.key),
        ticket.associated_token_bump,
        &ctx.associated_token_program.key,
    )?;
    check_at(&ctx.ticket.key, ticket_seed_list(&ctx.ticket_mint.key), ticket.bump, &id())?;
    match ticket.check_in() {
        Ok(()) => {},
        Err(rule) => return Err(Failure::Rule(rule)),
    }
    if used == u64::MAX {
        return Err(Failure::CounterOverflow);
    }
    let unsigned: Vec<Vec<u8>> = Vec::new();
    assert(seed_list(unsigned) =~= Seq::<Seq<u8>>::empty());
    let mut calls: Vec<BridgeCall> = Vec::new();
    calls.push(
        BridgeCall::Invoke {
            instruction: consume_use(
                &ctx.ticket_metadata,
                &ctx.ticket_vault.key,
                &ctx.ticket_mint.key,
                &ctx.authority.key,
            ),
            signer_seeds: unsigned,
        },
    );
    match &mut ctx.ticket_machine.data {
        Some(machine) => {
            let counted = machine.record_use();
            assert(counted);
        },
        None => {},
    }
    ctx.ticket.data = Some(ticket);
    proof {
        assert(call_list(calls) =~= old(ctx).calls());
    }
    Ok(calls)
}

impl VerifyTicketOwnership {
    /// The accounts of a claim that follows a sale at once: the claimant
    /// presents the ticket that was sold, as the sale left it, and the vault
    /// that the sale created for the buyer, as the asset service holds it
    /// now.
    pub open spec fn following(
        sale: MintTicket,
        ticket_vault_bump: u8,
        claimant: Signer,
        collaborator_base: Signer,
        collaborator: Account<Collaborator>,
        ticket_mint: Mint,
        ticket_vault: TokenAccount,
    ) -> VerifyTicketOwnership {
        VerifyTicketOwnership {
            metadata_program: sale.metadata_program,
            system_program: sale.system_program,
            token_program: sale.token_program,
            associated_token_program: sale.associated_token_program,
            rent: sale.rent,
            collaborator_base,
            authority: claimant,
            event_base: sale.event_base,
            event: sale.event,
            collaborator,
            ticket_machine_base: sale.ticket_machine_base,
            ticket_machine: sale.sold(ticket_vault_bump).ticket_machine,
            ticket_mint_base: sale.ticket_mint_base,
            ticket_mint: Account { key: sale.ticket_mint.key, data: Some(ticket_mint) },
            ticket: sale.sold(ticket_vault_bump).ticket,
            ticket_vault: Account { key: sale.ticket_vault.key, data: Some(ticket_vault) },
        }
    }

    /// Why the accounts of the claim are rejected, if they are, before the
    /// ticket is looked at: the first of these that holds. The collaborator
    /// and the party must have signed; and the event, the collaborator's
    /// permission, the TicketMachine, the asset, the record and the vault of
    /// the ticket must exist, all but the vault at the address that its seeds
    /// and its recorded bump seed derive.
    pub open spec fn before_rules(self) -> Option<Failure> {
        let event = self.event.data.unwrap();
        let machine = self.ticket_machine.data.unwrap();
        let ticket = self.ticket.data.unwrap();
        if !self.system_program.runs(system_program()) {
            Some(Failure::InvalidProgram)
        } else if !self.token_program.runs(token_program()) {
            Some(Failure::InvalidProgram)
        } else if !self.associated_token_program.runs(associated_token_program()) {
            Some(Failure::InvalidProgram)
        } else if self.rent != rent() {
            Some(Failure::InvalidSysvar)
        } else if !self.collaborator_base.is_signer || !self.authority.is_signer {
            Some(Failure::MissingSignature)
        } else if self.event.data is None || self.collaborator.data is None || self.ticket_machine.data is None
            || self.ticket_mint.data is None || self.ticket.data is None || self.ticket_vault.data is None {
            Some(Failure::AccountNotInitialized)
        } else if !self.metadata_program.runs(metadata_program()) {
            Some(Failure::InvalidProgram)
        } else if !at(self.event.key, event_seeds(self.event_base), event.bump, registry()) {
            Some(Failure::AddressMismatch)
        } else if !at(
            self.collaborator.key,
            collaborator_seeds(self.event.key, self.collaborator_base.key),
            self.collaborator.data.unwrap().bump,
            registry(),
        ) {
            Some(Failure::AddressMismatch)
        } else if !at(
            self.ticket_machine.key,
            ticket_machine_seeds(self.event.key, self.ticket_machine_base),
            machine.bump,
            registry(),
        ) {
            Some(Failure::AddressMismatch)
        } else if !at(
            self.ticket_mint.key,
            ticket_mint_seeds(self.event.key, self.ticket_machine.key, self.ticket_mint_base),
            ticket.mint_bump,
            registry(),
        ) {
            Some(Failure::AddressMismatch)
        } else if !at(self.ticket.key, ticket_seeds(self.ticket_mint.key), ticket.bump, registry()) {
            Some(Failure::AddressMismatch)
        } else {
            None
        }
    }

    /// Why the claim is rejected, if it is: the first of these that holds.
    /// The accounts must stand; the record must name the party; the vault must
    /// be the party's own, at the address that its seeds and the recorded bump
    /// seed derive; and the vault must hold the ticket.
    pub open spec fn rejection(self) -> Option<Failure> {
        let ticket = self.ticket.data.unwrap();
        if self.before_rules() is Some {
            self.before_rules()
        } else if ticket.authority != self.authority.key {
            Some(Failure::Rule(ErrorCode::InvalidAuthorityForTicket))
        } else if !at(
            self.ticket_vault.key,
            vault_seeds(self.authority.key, self.token_program.key, self.ticket_mint.key),
            ticket.associated_token_bump,
            self.associated_token_program.key,
        ) {
            Some(Failure::AddressMismatch)
        } else if !ticket.held_by(self.authority.key, self.ticket_vault.data.unwrap().amount) {
            Some(Failure::Rule(ErrorCode::InvalidAuthorityForTicket))
        } else {
            None
        }
    }
}

/// Attests, for a collaborator of the event, that the party holds the ticket:
/// the record names the party, and the party's vault holds the ticket's
/// asset. Nothing is changed.
pub fn verify_ticket_ownership(ctx: &VerifyTicketOwnership) -> (r: Result<(), Failure>)
    ensures
        match r {
            Ok(()) => ctx.rejection() is None,
            Err(failure) => ctx.rejection() == Some(failure),
        },
{
    if !ctx.system_program.check(&system_program_id()) {
        return Err(Failure::InvalidProgram);
    }
    if !ctx.token_program.check(&token_program_id()) {
        return Err(Failure::InvalidProgram);
    }
    if !ctx.associated_token_program.check(&associated_token_program_id()) {
        return Err(Failure::InvalidProgram);
    }
    if ctx.rent != rent_id() {
        return Err(Failure::InvalidSysvar);
    }
    if !ctx.collaborator_base.is_signer || !ctx.authority.is_signer {
        return Err(Failure::MissingSignature);
    }
    let event = match ctx.event.data {
        Some(event) => event,
        None => return Err(Failure::AccountNotInitialized),
    };
    let collaborator = match ctx.collaborator.data {
        Some(collaborator) => collaborator,
        None => return Err(Failure::AccountNotInitialized),
    };
    let machine_bump = match &ctx.ticket_machine.data {
        Some(machine) => machine.bump,
        None => return Err(Failure::AccountNotInitialized),
    };
    if ctx.ticket_mint.data.is_none() {
        return Err(Failure::AccountNotInitialized);
    }
    let ticket = match ctx.ticket.data {
        Some(ticket) => ticket,
        None => return Err(Failure::AccountNotInitialized),
    };
    let vault = match ctx.ticket_vault.data {
        Some(vault) => vault,
        None => return Err(Failure::AccountNotInitialized),
    };
    if !ctx.metadata_program.check(&metadata_program_id()) {
        return Err(Failure::InvalidProgram);
    }
    check_at(&ctx.event.key, event_seed_list(&ctx.event_base), event.bump, &id())?;
    check_at(
        &ctx.collaborator.key,
        collaborator_seed_list(&ctx.event.key, &ctx.collaborator_base.key),
        collaborator.bump,
        &id(),
    )?;
    check_at(
        &ctx.ticket_machine.key,
        ticket_machine_seed_list(&ctx.event.key, &ctx.ticket_machine_base),
        machine_bump,
        &id(),
    )?;
    check_at(
        &ctx.ticket_mint.key,
        ticket_mint_seed_list(&ctx.event.key, &ctx.ticket_machine.key, &ctx.ticket_mint_base),
        ticket.mint_bump,
        &id(),
    )?;
    check_at(&ctx.ticket.key, ticket_seed_list(&ctx.ticket_mint.key), ticket.bump, &id())?;
    if ticket.authority != ctx.authority.key {
        return Err(Failure::Rule(ErrorCode::InvalidAuthorityForTicket));
    }
    check_at(
        &ctx.ticket_vault.key,
        vault_seed_list(&ctx.authority.key, &ctx.token_program.key, &ctx.ticket_mint.key),
        ticket.associated_token_bump,
        &ctx.associated_token_program.key,
    )?;
    match ticket.verify_ownership(&ctx.authority.key, vault.amount) {
        Ok(()) => Ok(()),
        Err(rule) => Err(Failure::Rule(rule)),
    }
}

impl SetTicketAuthority {
    /// Why the accounts of the transfer are rejected, if they are, before
    /// the ticket is looked at: the first of these that holds. The party must
    /// have signed; the asset and the record of the ticket and the vault of
    /// the receiving party must exist; and the record must be at the address
    /// that its seeds and its bump seed derive.
    pub open spec fn before_rules(self) -> Option<Failure> {
        let ticket = self.ticket.data.unwrap();
        if !self.token_program.runs(token_program()) {
            Some(Failure::InvalidProgram)
        } else if !self.associated_token_program.runs(associated_token_program()) {
            Some(Failure::InvalidProgram)
        } else if !self.authority.is_signer {
            Some(Failure::MissingSignature)
        } else if self.ticket_mint.data is None || self.ticket.data is None
            || self.new_authority_ticket_vault.data is None {
            Some(Failure::AccountNotInitialized)
        } else if !at(self.ticket.key, ticket_seeds(self.ticket_mint.key), ticket.bump, registry()) {
            Some(Failure::AddressMismatch)
        } else {
            None
        }
    }

    /// Why the transfer is rejected, if it is: the first of these that holds.
    /// The accounts must stand; the party must hold the ticket; the ticket
    /// must not be checked in; and the vault must be the receiving party's
    /// own, with the bump seed that is given.
    pub open spec fn rejection(self, new_authority_ticket_vault_bump: u8) -> Option<Failure> {
        let ticket = self.ticket.data.unwrap();
        if self.before_rules() is Some {
            self.before_rules()
        } else if ticket.spec_set_authority(self.authority.key, self.new_authority, new_authority_ticket_vault_bump)
            is Err {
            Some(
                Failure::Rule(
                    ticket.spec_set_authority(
                        self.authority.key,
                        self.new_authority,
                        new_authority_ticket_vault_bump,
                    )->Err_0,
                ),
            )
        } else if !at(
            self.new_authority_ticket_vault.key,
            vault_seeds(self.new_authority, self.token_program.key, self.ticket_mint.key),
            new_authority_ticket_vault_bump,
            self.associated_token_program.key,
        ) {
            Some(Failure::AddressMismatch)
        } else {
            None
        }
    }

    /// The accounts after the transaction, accepted or rejected.
    pub open spec fn after(self, new_authority_ticket_vault_bump: u8) -> SetTicketAuthority {
        if self.rejection(new_authority_ticket_vault_bump) is None {
            self.transferred(new_authority_ticket_vault_bump)
        } else {
            self
        }
    }

    /// The accounts after the transfer: the record names the receiving party,
    /// and keeps the bump seed of their vault.
    pub open spec fn transferred(self, new_authority_ticket_vault_bump: u8) -> SetTicketAuthority {
        SetTicketAuthority {
            ticket: Account {
                key: self.ticket.key,
                data: Some(
                    self.ticket.data.unwrap().spec_set_authority(
                        self.authority.key,
                        self.new_authority,
                        new_authority_ticket_vault_bump,
                    ).unwrap(),
                ),
            },
            ..self
        }
    }
}

/// Hands a ticket on to another party. Only the party that holds it can, and
/// only until it is checked in. A rejected transfer changes nothing.
pub fn set_ticket_authority(ctx: &mut SetTicketAuthority, new_authority_ticket_vault_bump: u8) -> (r: Result<
    (),
    Failure,
>)
    ensures
        match r {
            Ok(()) => {
                &&& old(ctx).rejection(new_authority_ticket_vault_bump) is None
                &&& *final(ctx) == old(ctx).transferred(new_authority_ticket_vault_bump)
            },
            Err(failure) => {
                &&& old(ctx).rejection(new_authority_ticket_vault_bump) == Some(failure)
                &&& *final(ctx) == *old(ctx)
            },
        },
        *final(ctx) == old(ctx).after(new_authority_ticket_vault_bump),
{
    if !ctx.token_program.check(&token_program_id()) {
        return Err(Failure::InvalidProgram);
    }
    if !ctx.associated_token_program.check(&associated_token_program_id()) {
        return Err(Failure::InvalidProgram);
    }
    if !ctx.authority.is_signer {
        return Err(Failure::MissingSignature);
    }
    if ctx.ticket_mint.data.is_none() {
        return Err(Failure::AccountNotInitialized);
    }
    let mut ticket = match ctx.ticket.data {
        Some(ticket) => ticket,
        None => return Err(Failure::AccountNotInitialized),
    };
    if ctx.new_authority_ticket_vault.data.is_none() {
        return Err(Failure::AccountNotInitialized);
    }
    check_at(&ctx.ticket.key, ticket_seed_list(&ctx.ticket_mint.key), ticket.bump, &id())?;
    match ticket.set_authority(&ctx.authority.key, ctx.new_authority, new_authority_ticket_vault_bump) {
        Ok(()) => {},
        Err(rule) => return Err(Failure::Rule(rule)),
    }
    check_at(
        &ctx.new_authority_ticket_vault.key,
        vault_seed_list(&ctx.new_authority, &ctx.token_program.key, &ctx.ticket_mint.key),
        new_authority_ticket_vault_bump,
        &ctx.associated_token_program.key,
    )?;
    ctx.ticket.data = Some(ticket);
    Ok(())
}

} // verus!
