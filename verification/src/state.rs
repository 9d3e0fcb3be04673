//! The four records of the registry and the rules by which each one changes.
use crate::address::Address;
use crate::bridge::{UseMethod, Uses};
use crate::errors::ErrorCode;
use vstd::prelude::*;

verus! {

/// One ticketed event. Nothing of it changes once it is created.
#[derive(Clone, Copy, Debug, PartialEq, Eq)]
pub struct Event {
    /// The asset in which tickets are paid.
    pub accepted_mint: Address,
    /// The organizer, who alone names collaborators.
    pub authority: Address,
    pub bump: u8,
    pub event_vault_bump: u8,
    pub event_mint_bump: u8,
    pub event_metadata_bump: u8,
    pub event_master_edition_bump: u8,
}

impl Event {
    /// The bytes that the record takes in storage.
    pub const SIZE: usize = 8 + 32 + 32 + 1 + 1 + 1 + 1 + 1;
}

/// The permission of one party to act for an event. That the record exists
/// is the permission.
#[derive(Clone, Copy, Debug, PartialEq, Eq, Structural)]
pub struct Collaborator {
    pub bump: u8,
}

impl Collaborator {
    /// The bytes that the record takes in storage.
    pub const SIZE: usize = 8 + 1;
}

/// The most bytes of a TicketMachine's name.
pub const MAX_NAME_LEN: usize = 32;

/// The most bytes of a TicketMachine's symbol.
pub const MAX_SYMBOL_LEN: usize = 10;

/// The most bytes of a TicketMachine's uri.
pub const MAX_URI_LEN: usize = 200;

/// One sale of tickets under an event: what a ticket is called and costs, how
/// many there are, how often each may be used, and how many were sold and used.
#[derive(Clone, Debug, PartialEq, Eq)]
pub struct TicketMachine {
    pub name: String,
    pub symbol: String,
    pub uri: String,
    pub price: u64,
    pub quantity: u64,
    pub sold: u64,
    pub used: u64,
    pub uses: u64,
    pub bump: u8,
}

/// Whether the three texts are within what a TicketMachine's record holds.
pub open spec fn texts_fit(name: Seq<char>, symbol: Seq<char>, uri: Seq<char>) -> bool {
    &&& vstd::utf8::encode_utf8(name).len() <= MAX_NAME_LEN
    &&& vstd::utf8::encode_utf8(symbol).len() <= MAX_SYMBOL_LEN
    &&& vstd::utf8::encode_utf8(uri).len() <= MAX_URI_LEN
}

/// Whether the three texts are within what a TicketMachine's record holds.
pub fn check_texts(name: &String, symbol: &String, uri: &String) -> (r: bool)
    ensures
        r == texts_fit(name@, symbol@, uri@),
{
    name.as_str().as_bytes().len() <= MAX_NAME_LEN && symbol.as_str().as_bytes().len()
        <= MAX_SYMBOL_LEN && uri.as_str().as_bytes().len() <= MAX_URI_LEN
}

impl TicketMachine {
    /// The bytes that the record takes in storage.
    pub const SIZE: usize = 8 + 36 + 204 + 14 + 8 + 8 + 8 + 8 + 8 + 1;

    /// A valid TicketMachine has sold no more tickets than it has, and its
    /// texts fit its record.
    pub open spec fn wf(&self) -> bool {
        &&& self.sold <= self.quantity
        &&& texts_fit(self.name@, self.symbol@, self.uri@)
    }

    /// Whether a ticket is left to sell.
    pub open spec fn available(&self) -> bool {
        self.sold + 1 <= self.quantity
    }

    /// The TicketMachine after the sale of one ticket.
    pub open spec fn after_sale(self) -> TicketMachine {
        TicketMachine { sold: (self.sold + 1) as u64, ..self }
    }

    /// What the sale of one ticket gives: the TicketMachine with one ticket
    /// more sold, or the rule that forbids the sale.
    pub open spec fn spec_sell(self) -> Result<TicketMachine, ErrorCode> {
        if self.available() {
            Ok(self.after_sale())
        } else {
            Err(ErrorCode::NotEnoughTicketsAvailable)
        }
    }

    /// The TicketMachine after one use of a ticket.
    pub open spec fn after_use(self) -> TicketMachine {
        TicketMachine { used: (self.used + 1) as u64, ..self }
    }

    /// The use-counter that a ticket starts with: all its uses remain, and the
    /// method is single-use for one use, multi-use otherwise.
    pub open spec fn spec_use_counter(&self) -> Uses {
        Uses {
            use_method: if self.uses == 1 {
                UseMethod::Single
            } else {
                UseMethod::Multiple
            },
            remaining: self.uses,
            total: self.uses,
        }
    }

    /// A new TicketMachine, with nothing sold and nothing used.
    pub fn new(
        name: String,
        symbol: String,
        uri: String,
        price: u64,
        quantity: u64,
        uses: u64,
        bump: u8,
    ) -> (r: TicketMachine)
        ensures
            r == (TicketMachine { name, symbol, uri, price, quantity, sold: 0, used: 0, uses, bump }),
            texts_fit(name@, symbol@, uri@) ==> r.wf(),
    {
        TicketMachine { name, symbol, uri, price, quantity, sold: 0, used: 0, uses, bump }
    }

    /// Judges the sale of one ticket: there has to be one left.
    pub fn check_available(&self) -> (r: Result<(), ErrorCode>)
        ensures
            self.available() ==> r is Ok,
            !self.available() ==> r == Err::<(), ErrorCode>(ErrorCode::NotEnoughTicketsAvailable),
    {
        if self.sold < self.quantity {
            Ok(())
        } else {
            Err(ErrorCode::NotEnoughTicketsAvailable)
        }
    }

    /// Sells one ticket, or rejects the sale and changes nothing.
    pub fn sell(&mut self) -> (r: Result<(), ErrorCode>)
        ensures
            match old(self).spec_sell() {
                Ok(machine) => r is Ok && *final(self) == machine,
                Err(e) => r == Err::<(), ErrorCode>(e) && *final(self) == *old(self),
            },
            old(self).wf() ==> final(self).wf(),
    {
        if self.sold < self.quantity {
            self.sold = self.sold + 1;
            Ok(())
        } else {
            Err(ErrorCode::NotEnoughTicketsAvailable)
        }
    }

    /// Counts one use of a ticket, unless the counter is at its end.
    pub fn record_use(&mut self) -> (r: bool)
        ensures
            r == (old(self).used < u64::MAX),
            r ==> *final(self) == old(self).after_use(),
            !r ==> *final(self) == *old(self),
            old(self).wf() ==> final(self).wf(),
    {
        if self.used < u64::MAX {
            self.used = self.used + 1;
            true
        } else {
            false
        }
    }

    /// The use-counter that a ticket of this TicketMachine starts with.
    #[verifier::when_used_as_spec(spec_use_counter)]
    pub fn use_counter(&self) -> (r: Uses)
        ensures
            r == self.spec_use_counter(),
    {
        Uses {
            use_method: if self.uses == 1 {
                UseMethod::Single
            } else {
                UseMethod::Multiple
            },
            remaining: self.uses,
            total: self.uses,
        }
    }
}

/// One sold ticket: who holds it and whether it was checked in.
#[derive(Clone, Copy, Debug, PartialEq, Eq)]
pub struct Ticket {
    /// The party that holds the ticket.
    pub authority: Address,
    /// Set once, at check-in, and never cleared.
    pub checked_in: bool,
    pub bump: u8,
    pub associated_token_bump: u8,
    pub mint_bump: u8,
    pub metadata_bump: u8,
    pub master_edition_bump: u8,
}

impl Ticket {
    /// The bytes that the record takes in storage.
    pub const SIZE: usize = 8 + 32 + 1 + 1 + 1 + 1 + 1 + 1;

    /// What a check-in of the ticket gives: the ticket checked in, or the rule
    /// that forbids a second check-in.
    pub open spec fn spec_check_in(self) -> Result<Ticket, ErrorCode> {
        if self.checked_in {
            Err(ErrorCode::TicketAlreadyCheckedIn)
        } else {
            Ok(Ticket { checked_in: true, ..self })
        }
    }

    /// What the transfer of the ticket by `caller` to `new_authority` gives:
    /// the ticket in the new hands, with the bump seed of their vault, or the
    /// rule that forbids the transfer.
    pub open spec fn spec_set_authority(
        self,
        caller: Address,
        new_authority: Address,
        new_authority_ticket_vault_bump: u8,
    ) -> Result<Ticket, ErrorCode> {
        if self.authority != caller {
            Err(ErrorCode::OnlyTicketAuthorityCanChangeAuthority)
        } else if self.checked_in {
            Err(ErrorCode::CheckedInTicketsCantChangeAuthority)
        } else {
            Ok(
                Ticket {
                    authority: new_authority,
                    associated_token_bump: new_authority_ticket_vault_bump,
                    ..self
                },
            )
        }
    }

    /// Whether `caller` holds the ticket: the record names them, and their
    /// vault holds the ticket's asset.
    pub open spec fn held_by(self, caller: Address, balance: u64) -> bool {
        self.authority == caller && balance > 0
    }

    /// A new ticket in the hands of its buyer, not checked in.
    pub fn new(
        authority: Address,
        bump: u8,
        associated_token_bump: u8,
        mint_bump: u8,
        metadata_bump: u8,
        master_edition_bump: u8,
    ) -> (r: Ticket)
        ensures
            r == (Ticket {
                authority,
                checked_in: false,
                bump,
                associated_token_bump,
                mint_bump,
                metadata_bump,
                master_edition_bump,
            }),
    {
        Ticket {
            authority,
            checked_in: false,
            bump,
            associated_token_bump,
            mint_bump,
            metadata_bump,
            master_edition_bump,
        }
    }

    /// Checks the ticket in, or rejects a second check-in and changes nothing.
    pub fn check_in(&mut self) -> (r: Result<(), ErrorCode>)
        ensures
            match old(self).spec_check_in() {
                Ok(ticket) => r is Ok && *final(self) == ticket,
                Err(e) => r == Err::<(), ErrorCode>(e) && *final(self) == *old(self),
            },
    {
        if self.checked_in {
            Err(ErrorCode::TicketAlreadyCheckedIn)
        } else {
            self.checked_in = true;
            Ok(())
        }
    }

    /// Hands the ticket from `caller` to `new_authority`, or rejects the
    /// transfer and changes nothing.
    pub fn set_authority(
        &mut self,
        caller: &Address,
        new_authority: Address,
        new_authority_ticket_vault_bump: u8,
    ) -> (r: Result<(), ErrorCode>)
        ensures
            match old(self).spec_set_authority(*caller, new_authority, new_authority_ticket_vault_bump) {
                Ok(ticket) => r is Ok && *final(self) == ticket,
                Err(e) => r == Err::<(), ErrorCode>(e) && *final(self) == *old(self),
            },
    {
        if self.authority != *caller {
            Err(ErrorCode::OnlyTicketAuthorityCanChangeAuthority)
        } else if self.checked_in {
            Err(ErrorCode::CheckedInTicketsCantChangeAuthority)
        } else {
            self.authority = new_authority;
            self.associated_token_bump = new_authority_ticket_vault_bump;
            Ok(())
        }
    }

    /// Judges the claim of `caller` to hold the ticket.
    pub fn verify_ownership(&self, caller: &Address, balance: u64) -> (r: Result<(), ErrorCode>)
        ensures
            self.held_by(*caller, balance) ==> r is Ok,
            !self.held_by(*caller, balance) ==> r == Err::<(), ErrorCode>(
                ErrorCode::InvalidAuthorityForTicket,
            ),
    {
        if self.authority == *caller && balance > 0 {
            Ok(())
        } else {
            Err(ErrorCode::InvalidAuthorityForTicket)
        }
    }
}

} // verus!
