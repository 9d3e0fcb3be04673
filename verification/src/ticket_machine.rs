//! Ticket machines: one sale of tickets under an event, with its price, its
//! supply and the uses of each ticket.
use crate::accounts::{at, bump_of, check_at, check_found, found, Account, Program, Signer};
use crate::address::{signer_seeds, with_bump, Address};
use crate::bridge::{call_list, BridgeCall, BridgeCallView};
use crate::errors::Failure;
use crate::programs::{
    id, metadata_program, metadata_program_id, registry, rent, rent_id, system_program, system_program_id,
    token_program, token_program_id,
};
use crate::seeds::{event_seed_list, event_seeds, ticket_machine_seed_list, ticket_machine_seeds};
use crate::state::{check_texts, texts_fit, Event, TicketMachine};
use vstd::prelude::*;

verus! {

/// The accounts of `create_ticket_machine`.
#[derive(Clone, Debug, PartialEq, Eq)]
pub struct CreateTicketMachine {
    pub metadata_program: Program,
    pub system_program: Program,
    pub token_program: Program,
    pub rent: Address,
    /// The caller, who pays for the record. Anyone may be the caller.
    pub authority: Signer,
    pub event_base: Address,
    pub event: Account<Event>,
    pub ticket_machine_base: Address,
    /// Where the record of the sale is created.
    pub ticket_machine: Account<TicketMachine>,
}

impl CreateTicketMachine {
    /// Why the transaction is rejected, if it is: the first of these that
    /// holds. The caller must have signed, and the event must exist; the
    /// TicketMachine must be new, at the address that the event and its base
    /// address derive; the event must be at the address that its base address
    /// derives; and the three texts must fit the record.
    pub open spec fn rejection(self, name: Seq<char>, symbol: Seq<char>, uri: Seq<char>) -> Option<Failure> {
        if !self.system_program.runs(system_program()) {
            Some(Failure::InvalidProgram)
        } else if !self.token_program.runs(token_program()) {
            Some(Failure::InvalidProgram)
        } else if self.rent != rent() {
            Some(Failure::InvalidSysvar)
        } else if !self.authority.is_signer {
            Some(Failure::MissingSignature)
        } else if self.event.data is None {
            Some(Failure::AccountNotInitialized)
        } else if !found(
            self.ticket_machine.key,
            ticket_machine_seeds(self.event.key, self.ticket_machine_base),
            registry(),
        ) {
            Some(Failure::AddressMismatch)
        } else if self.ticket_machine.data is Some {
            Some(Failure::AccountInUse)
        } else if !self.metadata_program.runs(metadata_program()) {
            Some(Failure::InvalidProgram)
        } else if !at(self.event.key, event_seeds(self.event_base), self.event.data.unwrap().bump, registry()) {
            Some(Failure::AddressMismatch)
        } else if !texts_fit(name, symbol, uri) {
            Some(Failure::TextTooLong)
        } else {
            None
        }
    }

    /// The one call that the transaction makes: the ledger allocates the
    /// record, paid by the caller.
    pub open spec fn calls(self) -> Seq<BridgeCallView> {
        seq![
            BridgeCallView::CreateRecord {
                account: self.ticket_machine.key,
                space: TicketMachine::SIZE,
                payer: self.authority.key,
                seeds: with_bump(
                    ticket_machine_seeds(self.event.key, self.ticket_machine_base),
                    bump_of(ticket_machine_seeds(self.event.key, self.ticket_machine_base), registry()),
                ),
            },
        ]
    }

    /// The accounts after the TicketMachine is created: the record holds what
    /// the caller gave, with nothing sold and nothing used, and the canonical
    /// bump seed of its address.
    pub open spec fn created(
        self,
        name: String,
        symbol: String,
        uri: String,
        price: u64,
        quantity: u64,
        uses: u64,
    ) -> CreateTicketMachine {
        CreateTicketMachine {
            ticket_machine: Account {
                key: self.ticket_machine.key,
                data: Some(
                    TicketMachine {
                        name,
                        symbol,
                        uri,
                        price,
                        quantity,
                        sold: 0,
                        used: 0,
                        uses,
                        bump: bump_of(
                            ticket_machine_seeds(self.event.key, self.ticket_machine_base),
                            registry(),
                        ),
                    },
                ),
            },
            ..self
        }
    }
}

/// Creates a TicketMachine under an event: tickets of this name, symbol and
/// uri, at this price, this many of them, each good for this many uses. A
/// rejected transaction changes nothing and makes no call.
pub fn create_ticket_machine(
    ctx: &mut CreateTicketMachine,
    ticket_name: String,
    ticket_symbol: String,
    ticket_uri: String,
    ticket_price: u64,
    ticket_quantity: u64,
    ticket_uses: u64,
) -> (r: Result<Vec<BridgeCall>, Failure>)
    ensures
        match r {
            Ok(calls) => {
                &&& old(ctx).rejection(ticket_name@, ticket_symbol@, ticket_uri@) is None
                &&& call_list(calls) == old(ctx).calls()
                &&& *final(ctx) == old(ctx).created(
                    ticket_name,
                    ticket_symbol,
                    ticket_uri,
                    ticket_price,
                    ticket_quantity,
                    ticket_uses,
                )
                &&& final(ctx).ticket_machine.data.unwrap().wf()
            },
            Err(failure) => {
                &&& old(ctx).rejection(ticket_name@, ticket_symbol@, ticket_uri@) == Some(failure)
                &&& *final(ctx) == *old(ctx)
            },
        },
{
    if !ctx.system_program.check(&system_program_id()) {
        return Err(Failure::InvalidProgram);
    }
    if !ctx.token_program.check(&token_program_id()) {
        return Err(Failure::InvalidProgram);
    }
    if ctx.rent != rent_id() {
        return Err(Failure::InvalidSysvar);
    }
    if !ctx.authority.is_signer {
        return Err(Failure::MissingSignature);
    }
    let event = match ctx.event.data {
        Some(event) => event,
        None => return Err(Failure::AccountNotInitialized),
    };
    let bump = check_found(
        &ctx.ticket_machine.key,
        ticket_machine_seed_list(&ctx.event.key, &ctx.ticket_machine_base),
        &id(),
    )?;
    if ctx.ticket_machine.data.is_some() {
        return Err(Failure::AccountInUse);
    }
    if !ctx.metadata_program.check(&metadata_program_id()) {
        return Err(Failure::InvalidProgram);
    }
    check_at(&ctx.event.key, event_seed_list(&ctx.event_base), event.bump, &id())?;
    if !check_texts(&ticket_name, &ticket_symbol, &ticket_uri) {
        return Err(Failure::TextTooLong);
    }
    let mut calls: Vec<BridgeCall> = Vec::new();
    calls.push(
        BridgeCall::CreateRecord {
            account: ctx.ticket_machine.key,
            space: TicketMachine::SIZE,
            payer: ctx.authority.key,
            seeds: signer_seeds(ticket_machine_seed_list(&ctx.event.key, &ctx.ticket_machine_base), bump),
        },
    );
    ctx.ticket_machine.data = Some(
        TicketMachine::new(
            ticket_name,
            ticket_symbol,
            ticket_uri,
            ticket_price,
            ticket_quantity,
            ticket_uses,
            bump,
        ),
    );
    proof {
        assert(call_list(calls) =~= old(ctx).calls());
    }
    Ok(calls)
}

} // verus!
