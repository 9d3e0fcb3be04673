//! The registry of an event's tickets: the organizer registers an event, names
//! collaborators and sets up ticket machines; tickets are sold, change hands,
//! and are checked in. Each entry point holds the accounts that it is given
//! against the addresses that their seeds derive, judges the rules, changes
//! the records and says which calls to the asset and metadata services go
//! with the change.
pub mod accounts;
pub mod address;
pub mod bridge;
pub mod collaborator;
pub mod errors;
pub mod event;
pub mod laws;
pub mod programs;
pub mod seeds;
pub mod state;
pub mod ticket;
pub mod ticket_machine;

pub use accounts::{Account, Mint, Program, Signer, TokenAccount};
pub use address::Address;
pub use bridge::{AccountMeta, BridgeCall, Instruction, UseMethod, Uses};
pub use collaborator::{create_collaborator, delete_collaborator, CreateCollaborator, DeleteCollaborator};
pub use errors::{ErrorCode, Failure};
pub use event::{create_event, CreateEvent};
pub use programs::id;
pub use state::{Collaborator, Event, Ticket, TicketMachine};
pub use ticket::{
    check_in, mint_ticket, set_ticket_authority, verify_ticket_ownership, CheckIn, MintTicket,
    SetTicketAuthority, VerifyTicketOwnership,
};
pub use ticket_machine::{create_ticket_machine, CreateTicketMachine};
