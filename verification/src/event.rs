//! Events: the organizer registers an event, the asset in which its tickets
//! are paid, and the collection that its tickets will belong to.
use crate::accounts::{at, bump_of, check_found, found, Account, Mint, Program, Signer, TokenAccount};
use crate::address::{signer_seeds, with_bump, Address};
use crate::bridge::{
    call_list, create_master_edition, create_master_edition_instruction, create_metadata,
    check_text, create_metadata_instruction, text_fits, BridgeCall, BridgeCallView,
};
use crate::errors::Failure;
use crate::programs::{
    id, metadata_program, metadata_program_id, registry, rent, rent_id, system_program, system_program_id,
    token_program, token_program_id,
};
use crate::seeds::{
    event_collection_vault_seed_list, event_collection_vault_seeds, event_mint_seed_list, event_mint_seeds,
    event_seed_list, event_seeds, event_vault_seed_list, event_vault_seeds, master_edition_seed_list,
    master_edition_seeds, metadata_seed_list, metadata_seeds,
};
use crate::state::Event;
use vstd::prelude::*;

verus! {

/// The accounts of `create_event`.
#[derive(Clone, Debug, PartialEq, Eq)]
pub struct CreateEvent {
    pub system_program: Program,
    pub token_program: Program,
    pub metadata_program: Program,
    pub rent: Address,
    /// The organizer, who pays for what is created.
    pub authority: Signer,
    pub event_base: Address,
    /// Where the record of the event is created.
    pub event: Account<Event>,
    /// The asset in which tickets will be paid.
    pub accepted_mint: Account<Mint>,
    /// Where the vault for the payments is created.
    pub event_vault: Account<TokenAccount>,
    /// Where the event's collection asset is created.
    pub event_mint: Account<Mint>,
    pub event_metadata: Address,
    pub event_master_edition: Address,
    /// Where the vault for the one unit of the collection asset is created.
    pub event_collection_vault: Account<TokenAccount>,
}

impl CreateEvent {
    /// Why the transaction is rejected, if it is: the first of these that
    /// holds. The organizer must have signed, and the accepted asset must
    /// exist; the event, its payment vault, its collection asset and the vault
    /// of that asset must be new, each at the address that its seeds derive;
    /// the metadata and the master record of the collection asset must be at
    /// the addresses that the metadata service derives for them; and the three
    /// texts must be short enough to be sent.
    pub open spec fn rejection(self, name: Seq<char>, symbol: Seq<char>, uri: Seq<char>) -> Option<Failure> {
        if !self.system_program.runs(system_program()) {
            Some(Failure::InvalidProgram)
        } else if !self.token_program.runs(token_program()) {
            Some(Failure::InvalidProgram)
        } else if self.rent != rent() {
            Some(Failure::InvalidSysvar)
        } else if !self.authority.is_signer {
            Some(Failure::MissingSignature)
        } else if self.accepted_mint.data is None {
            Some(Failure::AccountNotInitialized)
        } else if !found(self.event.key, event_seeds(self.event_base), registry()) {
            Some(Failure::AddressMismatch)
        } else if self.event.data is Some {
            Some(Failure::AccountInUse)
        } else if !found(self.event_vault.key, event_vault_seeds(self.event.key), registry()) {
            Some(Failure::AddressMismatch)
        } else if self.event_vault.data is Some {
            Some(Failure::AccountInUse)
        } else if !found(self.event_mint.key, event_mint_seeds(self.event.key), registry()) {
            Some(Failure::AddressMismatch)
        } else if self.event_mint.data is Some {
            Some(Failure::AccountInUse)
        } else if !found(
            self.event_collection_vault.key,
            event_collection_vault_seeds(self.event.key),
            registry(),
        ) {
            Some(Failure::AddressMismatch)
        } else if self.event_collection_vault.data is Some {
            Some(Failure::AccountInUse)
        } else if !self.metadata_program.runs(metadata_program()) {
            Some(Failure::InvalidProgram)
        } else if !found(
            self.event_metadata,
            metadata_seeds(self.metadata_program.key, self.event_mint.key),
            self.metadata_program.key,
        ) {
            Some(Failure::AddressMismatch)
        } else if !found(
            self.event_master_edition,
            master_edition_seeds(self.metadata_program.key, self.event_mint.key),
            self.metadata_program.key,
        ) {
            Some(Failure::AddressMismatch)
        } else if !(text_fits(name) && text_fits(symbol) && text_fits(uri)) {
            Some(Failure::TextTooLong)
        } else {
            None
        }
    }

    /// The record of the event that the transaction creates: the accepted
    /// asset, the organizer, and the canonical bump seed of each address that
    /// belongs to the event.
    pub open spec fn record(self) -> Event {
        Event {
            accepted_mint: self.accepted_mint.key,
            authority: self.authority.key,
            bump: bump_of(event_seeds(self.event_base), registry()),
            event_vault_bump: bump_of(event_vault_seeds(self.event.key), registry()),
            event_mint_bump: bump_of(event_mint_seeds(self.event.key), registry()),
            event_metadata_bump: bump_of(
                metadata_seeds(self.metadata_program.key, self.event_mint.key),
                self.metadata_program.key,
            ),
            event_master_edition_bump: bump_of(
                master_edition_seeds(self.metadata_program.key, self.event_mint.key),
                self.metadata_program.key,
            ),
        }
    }

    /// The accounts after the event is created.
    pub open spec fn created(self) -> CreateEvent {
        CreateEvent { event: Account { key: self.event.key, data: Some(self.record()) }, ..self }
    }

    /// The seeds with which the registry signs for the event.
    pub open spec fn event_signer(self) -> Seq<Seq<u8>> {
        with_bump(event_seeds(self.event_base), self.record().bump)
    }

    /// The calls that the transaction makes, in their order: the ledger
    /// allocates the record of the event, paid by the organizer; the payment
    /// vault, the collection asset and its vault are created, all in the hands
    /// of the event; one unit of the collection asset is issued into its
    /// vault; and the metadata service records the asset's name, symbol and
    /// uri and makes the unit the only one.
    pub open spec fn calls(self, name: Seq<char>, symbol: Seq<char>, uri: Seq<char>) -> Seq<BridgeCallView> {
        seq![
            BridgeCallView::CreateRecord {
                account: self.event.key,
                space: Event::SIZE,
                payer: self.authority.key,
                seeds: self.event_signer(),
            },
            BridgeCallView::CreateTokenAccount {
                account: self.event_vault.key,
                mint: self.accepted_mint.key,
                owner: self.event.key,
                payer: self.authority.key,
                seeds: with_bump(event_vault_seeds(self.event.key), self.record().event_vault_bump),
            },
            BridgeCallView::CreateMint {
                mint: self.event_mint.key,
                decimals: 0,
                authority: self.event.key,
                payer: self.authority.key,
                seeds: with_bump(event_mint_seeds(self.event.key), self.record().event_mint_bump),
            },
            BridgeCallView::CreateTokenAccount {
                account: self.event_collection_vault.key,
                mint: self.event_mint.key,
                owner: self.event.key,
                payer: self.authority.key,
                seeds: with_bump(
                    event_collection_vault_seeds(self.event.key),
                    bump_of(event_collection_vault_seeds(self.event.key), registry()),
                ),
            },
            BridgeCallView::MintTo {
                mint: self.event_mint.key,
                to: self.event_collection_vault.key,
                authority: self.event.key,
                amount: 1,
                signer_seeds: self.event_signer(),
            },
            BridgeCallView::Invoke {
                instruction: create_metadata_instruction(
                    self.event_metadata,
                    self.event_mint.key,
                    self.event.key,
                    self.authority.key,
                    name,
                    symbol,
                    uri,
                    None,
                ),
                signer_seeds: self.event_signer(),
            },
            BridgeCallView::Invoke {
                instruction: create_master_edition_instruction(
                    self.event_master_edition,
                    self.event_mint.key,
                    self.event.key,
                    self.event_metadata,
                    self.authority.key,
                ),
                signer_seeds: self.event_signer(),
            },
        ]
    }
}

/// Registers an event with its organizer and the asset in which its tickets
/// are paid, and creates the collection that its tickets will belong to. A
/// rejected transaction changes nothing and makes no call.
pub fn create_event(ctx: &mut CreateEvent, event_name: String, event_symbol: String, event_uri: String) -> (r:
    Result<Vec<BridgeCall>, Failure>)
    ensures
        match r {
            Ok(calls) => {
                &&& old(ctx).rejection(event_name@, event_symbol@, event_uri@) is None
                &&& *final(ctx) == old(ctx).created()
                &&& call_list(calls) == old(ctx).calls(event_name@, event_symbol@, event_uri@)
            },
            Err(failure) => {
                &&& old(ctx).rejection(event_name@, event_symbol@, event_uri@) == Some(failure)
                &&& *final(ctx) == *old(ctx)
            },
        },
{
    if !ctx.system_program.check(&system_program_id()) {
        return Err(Failure::InvalidProgram);
    }
    if !ctx.token_program.check(&token_program_id()) {
        return Err(Failure::InvalidProgram);
    }
    if ctx.rent != rent_id() {
        return Err(Failure::InvalidSysvar);
    }
    if !ctx.authority.is_signer {
        return Err(Failure::MissingSignature);
    }
    if ctx.accepted_mint.data.is_none() {
        return Err(Failure::AccountNotInitialized);
    }
    let bump = check_found(&ctx.event.key, event_seed_list(&ctx.event_base), &id())?;
    if ctx.event.data.is_some() {
        return Err(Failure::AccountInUse);
    }
    let event_vault_bump = check_found(&ctx.event_vault.key, event_vault_seed_list(&ctx.event.key), &id())?;
    if ctx.event_vault.data.is_some() {
        return Err(Failure::AccountInUse);
    }
    let event_mint_bump = check_found(&ctx.event_mint.key, event_mint_seed_list(&ctx.event.key), &id())?;
    if ctx.event_mint.data.is_some() {
        return Err(Failure::AccountInUse);
    }
    let collection_vault_bump = check_found(
        &ctx.event_collection_vault.key,
        event_collection_vault_seed_list(&ctx.event.key),
        &id(),
    )?;
    if ctx.event_collection_vault.data.is_some() {
        return Err(Failure::AccountInUse);
    }
    if !ctx.metadata_program.check(&metadata_program_id()) {
        return Err(Failure::InvalidProgram);
    }
    let event_metadata_bump = check_found(
        &ctx.event_metadata,
        metadata_seed_list(&ctx.metadata_program.key, &ctx.event_mint.key),
        &ctx.metadata_program.key,
    )?;
    let event_master_edition_bump = check_found(
        &ctx.event_master_edition,
        master_edition_seed_list(&ctx.metadata_program.key, &ctx.event_mint.key),
        &ctx.metadata_program.key,
    )?;
    if !(check_text(&event_name) && check_text(&event_symbol) && check_text(&event_uri)) {
        return Err(Failure::TextTooLong);
    }
    let event = ctx.event.key;
    let payer = ctx.authority.key;
    let mut calls: Vec<BridgeCall> = Vec::new();
    calls.push(
        BridgeCall::CreateRecord {
            account: event,
            space: Event::SIZE,
            payer,
            seeds: signer_seeds(event_seed_list(&ctx.event_base), bump),
        },
    );
    calls.push(
        BridgeCall::CreateTokenAccount {
            account: ctx.event_vault.key,
            mint: ctx.accepted_mint.key,
            owner: event,
            payer,
            seeds: signer_seeds(event_vault_seed_list(&event), event_vault_bump),
        },
    );
    calls.push(
        BridgeCall::CreateMint {
            mint: ctx.event_mint.key,
            decimals: 0,
            authority: event,
            payer,
            seeds: signer_seeds(event_mint_seed_list(&event), event_mint_bump),
        },
    );
    calls.push(
        BridgeCall::CreateTokenAccount {
            account: ctx.event_collection_vault.key,
            mint: ctx.event_mint.key,
            owner: event,
            payer,
            seeds: signer_seeds(event_collection_vault_seed_list(&event), collection_vault_bump),
        },
    );
    calls.push(
        BridgeCall::MintTo {
            mint: ctx.event_mint.key,
            to: ctx.event_collection_vault.key,
            authority: event,
            amount: 1,
            signer_seeds: signer_seeds(event_seed_list(&ctx.event_base), bump),
        },
    );
    calls.push(
        BridgeCall::Invoke {
            instruction: create_metadata(
                &ctx.event_metadata,
                &ctx.event_mint.key,
                &event,
                &payer,
                event_name,
                event_symbol,
                event_uri,
                None,
            ),
            signer_seeds: signer_seeds(event_seed_list(&ctx.event_base), bump),
        },
    );
    calls.push(
        BridgeCall::Invoke {
            instruction: create_master_edition(
                &ctx.event_master_edition,
                &ctx.event_mint.key,
                &event,
                &ctx.event_metadata,
                &payer,
            ),
            signer_seeds: signer_seeds(event_seed_list(&ctx.event_base), bump),
        },
    );
    ctx.event.data = Some(
        Event {
            accepted_mint: ctx.accepted_mint.key,
            authority: payer,
            bump,
            event_vault_bump,
            event_mint_bump,
            event_metadata_bump,
            event_master_edition_bump,
        },
    );
    proof {
        assert(call_list(calls) =~= old(ctx).calls(event_name@, event_symbol@, event_uri@));
    }
    Ok(calls)
}

} // verus!
