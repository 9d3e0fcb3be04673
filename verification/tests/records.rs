use disco::address::Address;
use disco::state::{check_texts, MAX_NAME_LEN, MAX_SYMBOL_LEN, MAX_URI_LEN};
use disco::{Collaborator, ErrorCode, Event, Failure, Ticket, TicketMachine, UseMethod, Uses};

fn key(byte: u8) -> Address {
    Address { bytes: [byte; 32] }
}

fn machine(quantity: u64, uses: u64) -> TicketMachine {
    TicketMachine::new("VIP".to_string(), "VIP".to_string(), "https://e.example/vip".to_string(), 100, quantity, uses, 255)
}

fn ticket(holder: u8) -> Ticket {
    Ticket::new(key(holder), 255, 254, 253, 252, 251)
}

#[test]
fn record_sizes() {
    assert_eq!(Event::SIZE, 77);
    assert_eq!(Collaborator::SIZE, 9);
    assert_eq!(TicketMachine::SIZE, 303);
    assert_eq!(Ticket::SIZE, 46);
}

#[test]
fn error_codes_follow_their_order() {
    assert_eq!(ErrorCode::NotEnoughTicketsAvailable.code(), 6000);
    assert_eq!(ErrorCode::TicketAlreadyCheckedIn.code(), 6001);
    assert_eq!(ErrorCode::OnlyEventAuthorityCanCreateCollaborators.code(), 6002);
    assert_eq!(ErrorCode::OnlyEventAuthorityCanDeleteCollaborators.code(), 6003);
    assert_eq!(ErrorCode::InvalidAuthorityForTicket.code(), 6004);
    assert_eq!(ErrorCode::OnlyTicketAuthorityCanChangeAuthority.code(), 6005);
    assert_eq!(ErrorCode::CheckedInTicketsCantChangeAuthority.code(), 6006);
}

#[test]
fn error_messages() {
    assert_eq!(ErrorCode::NotEnoughTicketsAvailable.message(), "There are not enough tickets available.");
    assert_eq!(ErrorCode::TicketAlreadyCheckedIn.message(), "This ticket has already checked-in.");
    assert_eq!(
        ErrorCode::OnlyEventAuthorityCanCreateCollaborators.message(),
        "Only event authority can create collaborators."
    );
    assert_eq!(
        ErrorCode::OnlyEventAuthorityCanDeleteCollaborators.message(),
        "Only event authority can delete collaborators."
    );
    assert_eq!(
        ErrorCode::InvalidAuthorityForTicket.message(),
        "The authority is not registered as the authority of the ticket."
    );
    assert_eq!(
        ErrorCode::OnlyTicketAuthorityCanChangeAuthority.message(),
        "The only the authority of the ticket can set a new authority."
    );
    assert_eq!(
        ErrorCode::CheckedInTicketsCantChangeAuthority.message(),
        "Ticket that have already been checked in can't change authority."
    );
}

#[test]
fn failure_carries_the_rule() {
    assert_eq!(Failure::Rule(ErrorCode::TicketAlreadyCheckedIn), Failure::Rule(ErrorCode::TicketAlreadyCheckedIn));
    assert_ne!(Failure::Rule(ErrorCode::TicketAlreadyCheckedIn), Failure::AddressMismatch);
}

#[test]
fn new_machine_has_sold_and_used_nothing() {
    let machine = TicketMachine::new("a".to_string(), "b".to_string(), "c".to_string(), 5, 6, 7, 8);
    assert_eq!(
        machine,
        TicketMachine {
            name: "a".to_string(),
            symbol: "b".to_string(),
            uri: "c".to_string(),
            price: 5,
            quantity: 6,
            sold: 0,
            used: 0,
            uses: 7,
            bump: 8,
        }
    );
}

#[test]
fn machine_sells_until_nothing_is_left() {
    let mut machine = machine(3, 1);
    for sold in 1..=3u64 {
        assert_eq!(machine.check_available(), Ok(()));
        assert_eq!(machine.sell(), Ok(()));
        assert_eq!(machine.sold, sold);
    }
    assert_eq!(machine.check_available(), Err(ErrorCode::NotEnoughTicketsAvailable));
    let before = machine.clone();
    assert_eq!(machine.sell(), Err(ErrorCode::NotEnoughTicketsAvailable));
    assert_eq!(machine, before);
    assert_eq!(machine.sold, 3);
}

#[test]
fn machine_without_tickets_sells_none() {
    let mut machine = machine(0, 1);
    assert_eq!(machine.sell(), Err(ErrorCode::NotEnoughTicketsAvailable));
    assert_eq!(machine.sold, 0);
}

#[test]
fn machine_sells_its_last_ticket_at_the_largest_quantity() {
    let mut machine = machine(u64::MAX, 1);
    machine.sold = u64::MAX - 1;
    assert_eq!(machine.sell(), Ok(()));
    assert_eq!(machine.sold, u64::MAX);
    assert_eq!(machine.sell(), Err(ErrorCode::NotEnoughTicketsAvailable));
    assert_eq!(machine.sold, u64::MAX);
}

#[test]
fn machine_that_sold_too_much_sells_no_more() {
    let mut machine = machine(2, 1);
    machine.sold = 5;
    assert_eq!(machine.sell(), Err(ErrorCode::NotEnoughTicketsAvailable));
    assert_eq!(machine.sold, 5);
}

#[test]
fn machine_counts_uses_up_to_the_end_of_the_counter() {
    let mut machine = machine(2, 1);
    assert!(machine.record_use());
    assert_eq!(machine.used, 1);
    machine.used = u64::MAX - 1;
    assert!(machine.record_use());
    assert_eq!(machine.used, u64::MAX);
    assert!(!machine.record_use());
    assert_eq!(machine.used, u64::MAX);
}

#[test]
fn use_counter_of_one_use_is_single() {
    assert_eq!(machine(2, 1).use_counter(), Uses { use_method: UseMethod::Single, remaining: 1, total: 1 });
}

#[test]
fn use_counter_of_more_uses_is_multiple() {
    assert_eq!(machine(2, 2).use_counter(), Uses { use_method: UseMethod::Multiple, remaining: 2, total: 2 });
    assert_eq!(machine(2, 0).use_counter(), Uses { use_method: UseMethod::Multiple, remaining: 0, total: 0 });
    assert_eq!(
        machine(2, u64::MAX).use_counter(),
        Uses { use_method: UseMethod::Multiple, remaining: u64::MAX, total: u64::MAX }
    );
}

#[test]
fn texts_fit_up_to_their_limits() {
    assert_eq!((MAX_NAME_LEN, MAX_SYMBOL_LEN, MAX_URI_LEN), (32, 10, 200));
    let (name, symbol, uri) = ("n".repeat(32), "s".repeat(10), "u".repeat(200));
    assert!(check_texts(&name, &symbol, &uri));
    assert!(check_texts(&String::new(), &String::new(), &String::new()));
    assert!(!check_texts(&"n".repeat(33), &symbol, &uri));
    assert!(!check_texts(&name, &"s".repeat(11), &uri));
    assert!(!check_texts(&name, &symbol, &"u".repeat(201)));
}

#[test]
fn texts_are_measured_in_bytes() {
    // sixteen letters of two bytes each fill a name; one more does not fit
    assert!(check_texts(&"é".repeat(16), &String::new(), &String::new()));
    assert!(!check_texts(&"é".repeat(16), &"é".repeat(6), &String::new()));
    assert!(!check_texts(&("é".repeat(16) + "a"), &String::new(), &String::new()));
}

#[test]
fn new_ticket_is_not_checked_in() {
    assert_eq!(
        ticket(1),
        Ticket {
            authority: key(1),
            checked_in: false,
            bump: 255,
            associated_token_bump: 254,
            mint_bump: 253,
            metadata_bump: 252,
            master_edition_bump: 251,
        }
    );
}

#[test]
fn ticket_checks_in_once() {
    let mut ticket = ticket(1);
    assert_eq!(ticket.check_in(), Ok(()));
    assert!(ticket.checked_in);
    let before = ticket;
    assert_eq!(ticket.check_in(), Err(ErrorCode::TicketAlreadyCheckedIn));
    assert_eq!(ticket, before);
}

#[test]
fn ticket_changes_hands_by_its_holder() {
    let mut ticket = ticket(1);
    assert_eq!(ticket.set_authority(&key(1), key(2), 200), Ok(()));
    assert_eq!(ticket.authority, key(2));
    assert_eq!(ticket.associated_token_bump, 200);
    assert_eq!((ticket.bump, ticket.mint_bump, ticket.metadata_bump, ticket.master_edition_bump), (255, 253, 252, 251));
    assert!(!ticket.checked_in);
}

#[test]
fn ticket_does_not_change_hands_by_another() {
    let mut ticket = ticket(1);
    let before = ticket;
    assert_eq!(ticket.set_authority(&key(3), key(2), 200), Err(ErrorCode::OnlyTicketAuthorityCanChangeAuthority));
    assert_eq!(ticket, before);
}

#[test]
fn checked_in_ticket_does_not_change_hands() {
    let mut ticket = ticket(1);
    ticket.check_in().unwrap();
    let before = ticket;
    assert_eq!(ticket.set_authority(&key(1), key(2), 200), Err(ErrorCode::CheckedInTicketsCantChangeAuthority));
    assert_eq!(ticket, before);
    // another caller is told that they do not hold the ticket
    assert_eq!(ticket.set_authority(&key(3), key(2), 200), Err(ErrorCode::OnlyTicketAuthorityCanChangeAuthority));
    assert_eq!(ticket, before);
}

#[test]
fn ownership_needs_the_record_and_a_balance() {
    let ticket = ticket(1);
    assert_eq!(ticket.verify_ownership(&key(1), 1), Ok(()));
    assert_eq!(ticket.verify_ownership(&key(1), u64::MAX), Ok(()));
    assert_eq!(ticket.verify_ownership(&key(1), 0), Err(ErrorCode::InvalidAuthorityForTicket));
    assert_eq!(ticket.verify_ownership(&key(2), 1), Err(ErrorCode::InvalidAuthorityForTicket));
}
