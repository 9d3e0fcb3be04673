//! Collaborators: the organizer of an event grants a party the permission to
//! act for the event, and takes it back.
use crate::accounts::{at, bump_of, check_at, check_found, found, Account, Program, Signer};
use crate::address::{signer_seeds, with_bump, Address};
use crate::bridge::{call_list, BridgeCall, BridgeCallView};
use crate::errors::{ErrorCode, Failure};
use crate::programs::{id, registry, system_program, system_program_id};
use crate::seeds::{collaborator_seed_list, collaborator_seeds, event_seed_list, event_seeds};
use crate::state::{Collaborator, Event};
use vstd::prelude::*;

verus! {

/// The accounts of `create_collaborator`.
#[derive(Clone, Debug, PartialEq, Eq)]
pub struct CreateCollaborator {
    pub system_program: Program,
    /// The caller, who pays for the record.
    pub authority: Signer,
    pub event_base: Address,
    pub event: Account<Event>,
    pub collaborator_base: Address,
    /// Where the record of the permission is created.
    pub collaborator: Account<Collaborator>,
}

/// The accounts of `delete_collaborator`.
#[derive(Clone, Debug, PartialEq, Eq)]
pub struct DeleteCollaborator {
    pub system_program: Program,
    /// The caller, to whom the storage of the record goes back.
    pub authority: Signer,
    pub event_base: Address,
    pub event: Account<Event>,
    pub collaborator_base: Address,
    /// The record of the permission, which is removed.
    pub collaborator: Account<Collaborator>,
}

impl CreateCollaborator {
    /// The accounts after the transaction, accepted or rejected.
    pub open spec fn after(self) -> CreateCollaborator {
        if self.rejection() is None {
            self.granted()
        } else {
            self
        }
    }

    /// Why the accounts are rejected, if they are, before the caller is
    /// looked at: the first of these that holds. The caller must have signed,
    /// and the event must exist; the permission must be new, at the address
    /// that the event and the collaborator's base address derive; and the
    /// event must be at the address that its base address derives.
    pub open spec fn before_rules(self) -> Option<Failure> {
        if !self.system_program.runs(system_program()) {
            Some(Failure::InvalidProgram)
        } else if !self.authority.is_signer {
            Some(Failure::MissingSignature)
        } else if self.event.data is None {
            Some(Failure::AccountNotInitialized)
        } else if !found(
            self.collaborator.key,
            collaborator_seeds(self.event.key, self.collaborator_base),
            registry(),
        ) {
            Some(Failure::AddressMismatch)
        } else if self.collaborator.data is Some {
            Some(Failure::AccountInUse)
        } else if !at(self.event.key, event_seeds(self.event_base), self.event.data.unwrap().bump, registry()) {
            Some(Failure::AddressMismatch)
        } else {
            None
        }
    }

    /// Why the transaction is rejected, if it is: the accounts must stand,
    /// and the caller must be the organizer of the event.
    pub open spec fn rejection(self) -> Option<Failure> {
        if self.before_rules() is Some {
            self.before_rules()
        } else if self.event.data.unwrap().authority != self.authority.key {
            Some(Failure::Rule(ErrorCode::OnlyEventAuthorityCanCreateCollaborators))
        } else {
            None
        }
    }

    /// The one call that the grant makes: the ledger allocates the record,
    /// paid by the caller.
    pub open spec fn calls(self) -> Seq<BridgeCallView> {
        seq![
            BridgeCallView::CreateRecord {
                account: self.collaborator.key,
                space: Collaborator::SIZE,
                payer: self.authority.key,
                seeds: with_bump(
                    collaborator_seeds(self.event.key, self.collaborator_base),
                    bump_of(collaborator_seeds(self.event.key, self.collaborator_base), registry()),
                ),
            },
        ]
    }

    /// The accounts after the permission is granted: the record exists, and
    /// holds the canonical bump seed of its address.
    pub open spec fn granted(self) -> CreateCollaborator {
        CreateCollaborator {
            collaborator: Account {
                key: self.collaborator.key,
                data: Some(
                    Collaborator {
                        bump: bump_of(collaborator_seeds(self.event.key, self.collaborator_base), registry()),
                    },
                ),
            },
            ..self
        }
    }
}

impl DeleteCollaborator {
    /// The accounts after the transaction, accepted or rejected.
    pub open spec fn after(self) -> DeleteCollaborator {
        if self.rejection() is None {
            self.revoked()
        } else {
            self
        }
    }

    /// Why the accounts are rejected, if they are, before the caller is
    /// looked at: the first of these that holds. The caller must have signed,
    /// and the event and the permission must exist; and the event must be at
    /// the address that its base address derives.
    pub open spec fn before_rules(self) -> Option<Failure> {
        if !self.system_program.runs(system_program()) {
            Some(Failure::InvalidProgram)
        } else if !self.authority.is_signer {
            Some(Failure::MissingSignature)
        } else if self.event.data is None {
            Some(Failure::AccountNotInitialized)
        } else if self.collaborator.data is None {
            Some(Failure::AccountNotInitialized)
        } else if !at(self.event.key, event_seeds(self.event_base), self.event.data.unwrap().bump, registry()) {
            Some(Failure::AddressMismatch)
        } else {
            None
        }
    }

    /// Why the transaction is rejected, if it is: the first of these that
    /// holds. The accounts must stand; the caller must be the organizer of
    /// the event; and the permission must be at the address that the event
    /// and the collaborator's base address derive.
    pub open spec fn rejection(self) -> Option<Failure> {
        if self.before_rules() is Some {
            self.before_rules()
        } else if self.event.data.unwrap().authority != self.authority.key {
            Some(Failure::Rule(ErrorCode::OnlyEventAuthorityCanDeleteCollaborators))
        } else if !found(
            self.collaborator.key,
            collaborator_seeds(self.event.key, self.collaborator_base),
            registry(),
        ) {
            Some(Failure::AddressMismatch)
        } else {
            None
        }
    }

    /// The one call that the revocation makes: the ledger releases the
    /// storage of the record to the caller.
    pub open spec fn calls(self) -> Seq<BridgeCallView> {
        seq![
            BridgeCallView::CloseRecord { account: self.collaborator.key, destination: self.authority.key },
        ]
    }

    /// The accounts after the permission is taken back: the record is gone.
    pub open spec fn revoked(self) -> DeleteCollaborator {
        DeleteCollaborator { collaborator: Account { key: self.collaborator.key, data: None }, ..self }
    }
}

/// Grants a party the permission to act for an event. Only the organizer of
/// the event can; a rejected transaction changes nothing and makes no call.
pub fn create_collaborator(ctx: &mut CreateCollaborator) -> (r: Result<Vec<BridgeCall>, Failure>)
    ensures
        match r {
            Ok(calls) => {
                &&& old(ctx).rejection() is None
                &&& *final(ctx) == old(ctx).granted()
                &&& call_list(calls) == old(ctx).calls()
            },
            Err(failure) => old(ctx).rejection() == Some(failure) && *final(ctx) == *old(ctx),
        },
        *final(ctx) == old(ctx).after(),
{
    if !ctx.system_program.check(&system_program_id()) {
        return Err(Failure::InvalidProgram);
    }
    if !ctx.authority.is_signer {
        return Err(Failure::MissingSignature);
    }
    let event = match ctx.event.data {
        Some(event) => event,
        None => return Err(Failure::AccountNotInitialized),
    };
    let bump = check_found(
        &ctx.collaborator.key,
        collaborator_seed_list(&ctx.event.key, &ctx.collaborator_base),
        &id(),
    )?;
    if ctx.collaborator.data.is_some() {
        return Err(Failure::AccountInUse);
    }
    check_at(&ctx.event.key, event_seed_list(&ctx.event_base), event.bump, &id())?;
    if event.authority != ctx.authority.key {
        return Err(Failure::Rule(ErrorCode::OnlyEventAuthorityCanCreateCollaborators));
    }
    let mut calls: Vec<BridgeCall> = Vec::new();
    calls.push(
        BridgeCall::CreateRecord {
            account: ctx.collaborator.key,
            space: Collaborator::SIZE,
            payer: ctx.authority.key,
            seeds: signer_seeds(collaborator_seed_list(&ctx.event.key, &ctx.collaborator_base), bump),
        },
    );
    ctx.collaborator.data = Some(Collaborator { bump });
    proof {
        assert(call_list(calls) =~= old(ctx).calls());
    }
    Ok(calls)
}

/// Takes the permission to act for an event back from a party. Only the
/// organizer of the event can; a rejected transaction changes nothing and
/// makes no call.
pub fn delete_collaborator(ctx: &mut DeleteCollaborator) -> (r: Result<Vec<BridgeCall>, Failure>)
    ensures
        match r {
            Ok(calls) => {
                &&& old(ctx).rejection() is None
                &&& *final(ctx) == old(ctx).revoked()
                &&& call_list(calls) == old(ctx).calls()
            },
            Err(failure) => old(ctx).rejection() == Some(failure) && *final(ctx) == *old(ctx),
        },
        *final(ctx) == old(ctx).after(),
{
    if !ctx.system_program.check(&system_program_id()) {
        return Err(Failure::InvalidProgram);
    }
    if !ctx.authority.is_signer {
        return Err(Failure::MissingSignature);
    }
    let event = match ctx.event.data {
        Some(event) => event,
        None => return Err(Failure::AccountNotInitialized),
    };
    if ctx.collaborator.data.is_none() {
        return Err(Failure::AccountNotInitialized);
    }
    check_at(&ctx.event.key, event_seed_list(&ctx.event_base), event.bump, &id())?;
    if event.authority != ctx.authority.key {
        return Err(Failure::Rule(ErrorCode::OnlyEventAuthorityCanDeleteCollaborators));
    }
    check_found(&ctx.collaborator.key, collaborator_seed_list(&ctx.event.key, &ctx.collaborator_base), &id())?;
    let mut calls: Vec<BridgeCall> = Vec::new();
    calls.push(BridgeCall::CloseRecord { account: ctx.collaborator.key, destination: ctx.authority.key });
    ctx.collaborator.data = None;
    proof {
        assert(call_list(calls) =~= old(ctx).calls());
    }
    Ok(calls)
}

} // verus!
