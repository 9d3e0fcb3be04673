//! Why the registry rejects a transaction.
use vstd::prelude::*;

verus! {

/// The rules of the registry that a transaction can break.
#[derive(Clone, Copy, Debug, PartialEq, Eq, Structural)]
pub enum ErrorCode {
    NotEnoughTicketsAvailable,
    TicketAlreadyCheckedIn,
    OnlyEventAuthorityCanCreateCollaborators,
    OnlyEventAuthorityCanDeleteCollaborators,
    InvalidAuthorityForTicket,
    OnlyTicketAuthorityCanChangeAuthority,
    CheckedInTicketsCantChangeAuthority,
}

/// The number of the first rule; the others follow it in their order.
pub const ERROR_CODE_OFFSET: u32 = 6000;

impl ErrorCode {
    /// The number under which the rule is reported to the caller.
    pub open spec fn spec_code(self) -> u32 {
        match self {
            ErrorCode::NotEnoughTicketsAvailable => 6000,
            ErrorCode::TicketAlreadyCheckedIn => 6001,
            ErrorCode::OnlyEventAuthorityCanCreateCollaborators => 6002,
            ErrorCode::OnlyEventAuthorityCanDeleteCollaborators => 6003,
            ErrorCode::InvalidAuthorityForTicket => 6004,
            ErrorCode::OnlyTicketAuthorityCanChangeAuthority => 6005,
            ErrorCode::CheckedInTicketsCantChangeAuthority => 6006,
        }
    }

    /// The sentence that tells the caller which rule was broken.
    pub open spec fn spec_message(self) -> Seq<char> {
        match self {
            ErrorCode::NotEnoughTicketsAvailable => "There are not enough tickets available."@,
            ErrorCode::TicketAlreadyCheckedIn => "This ticket has already checked-in."@,
            ErrorCode::OnlyEventAuthorityCanCreateCollaborators => "Only event authority can create collaborators."@,
            ErrorCode::OnlyEventAuthorityCanDeleteCollaborators => "Only event authority can delete collaborators."@,
            ErrorCode::InvalidAuthorityForTicket => "The authority is not registered as the authority of the ticket."@,
            ErrorCode::OnlyTicketAuthorityCanChangeAuthority => "The only the authority of the ticket can set a new authority."@,
            ErrorCode::CheckedInTicketsCantChangeAuthority => "Ticket that have already been checked in can't change authority."@,
        }
    }

    /// The number under which the rule is reported to the caller.
    #[verifier::when_used_as_spec(spec_code)]
    pub fn code(self) -> (r: u32)
        ensures
            r == self.spec_code(),
            ERROR_CODE_OFFSET <= r < ERROR_CODE_OFFSET + 7,
    {
        match self {
            ErrorCode::NotEnoughTicketsAvailable => ERROR_CODE_OFFSET,
            ErrorCode::TicketAlreadyCheckedIn => ERROR_CODE_OFFSET + 1,
            ErrorCode::OnlyEventAuthorityCanCreateCollaborators => ERROR_CODE_OFFSET + 2,
            ErrorCode::OnlyEventAuthorityCanDeleteCollaborators => ERROR_CODE_OFFSET + 3,
            ErrorCode::InvalidAuthorityForTicket => ERROR_CODE_OFFSET + 4,
            ErrorCode::OnlyTicketAuthorityCanChangeAuthority => ERROR_CODE_OFFSET + 5,
            ErrorCode::CheckedInTicketsCantChangeAuthority => ERROR_CODE_OFFSET + 6,
        }
    }

    /// The sentence that tells the caller which rule was broken.
    pub fn message(self) -> (r: &'static str)
        ensures
            r@ == self.spec_message(),
    {
        match self {
            ErrorCode::NotEnoughTicketsAvailable => "There are not enough tickets available.",
            ErrorCode::TicketAlreadyCheckedIn => "This ticket has already checked-in.",
            ErrorCode::OnlyEventAuthorityCanCreateCollaborators => "Only event authority can create collaborators.",
            ErrorCode::OnlyEventAuthorityCanDeleteCollaborators => "Only event authority can delete collaborators.",
            ErrorCode::InvalidAuthorityForTicket => "The authority is not registered as the authority of the ticket.",
            ErrorCode::OnlyTicketAuthorityCanChangeAuthority => "The only the authority of the ticket can set a new authority.",
            ErrorCode::CheckedInTicketsCantChangeAuthority => "Ticket that have already been checked in can't change authority.",
        }
    }
}

/// Why a transaction is rejected. Nothing of a rejected transaction takes
/// effect.
#[derive(Clone, Copy, Debug, PartialEq, Eq, Structural)]
pub enum Failure {
    /// A rule of the registry is broken.
    Rule(ErrorCode),
    /// A program is named that is not the expected one, or cannot be run.
    InvalidProgram,
    /// An account is named as a sysvar that is not that sysvar.
    InvalidSysvar,
    /// A party that has to sign has not signed.
    MissingSignature,
    /// A record or an asset account is named that does not exist.
    AccountNotInitialized,
    /// A record or an asset account is to be created where one exists.
    AccountInUse,
    /// An address is not the one that its seeds derive.
    AddressMismatch,
    /// The buyer pays from a vault of another asset than the one the event accepts.
    PaymentAssetMismatch,
    /// A text is longer than its record or the metadata service holds.
    TextTooLong,
    /// A counter has reached the largest number that it holds.
    CounterOverflow,
}

} // verus!
