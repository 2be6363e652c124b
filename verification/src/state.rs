use vstd::prelude::*;

use crate::pubkey::Pubkey;

verus! {

/// An account that collects platform fees.
#[derive(Clone, Debug, PartialEq, Eq)]
pub struct FeePool {
    pub owner: Pubkey,
    pub total_fees: u64,
}

/// The addresses allowed to create events.
#[derive(Clone, Debug, PartialEq, Eq)]
pub struct OrganizersPool {
    pub organizers: Vec<Pubkey>,
}

/// The list of event accounts; the first `event_count` entries are the live ones.
#[derive(Clone, Debug, PartialEq, Eq)]
pub struct EventRegistry {
    pub event_count: u32,
    pub events: Vec<Pubkey>,
}

/// An event, with its organizer, schedule, ticket counts and validators.
#[derive(Clone, Debug, PartialEq, Eq)]
pub struct EventNFT {
    pub event_id: String,
    pub organizer: Pubkey,
    pub name: String,
    pub event_date: i64,
    pub ticket_price: u64,
    pub available_tickets: u64,
    pub sold_tickets: u64,
    pub seating_type: u8,
    pub active: bool,
    pub validators: Vec<Pubkey>,
}

/// A section layout held inline.
#[derive(Clone, Debug, PartialEq, Eq)]
pub struct SeatingSection {
    pub section_type: u8,
    pub rows: u8,
    pub seats_per_row: u8,
    pub seat_status: Vec<u8>,
}

/// The seating plan of an event: its section accounts and their seat total.
#[derive(Clone, Debug, PartialEq, Eq)]
pub struct SeatingMap {
    pub event_id: String,
    pub organizer: Pubkey,
    pub active: bool,
    pub sections: Vec<Pubkey>,
    pub total_seats: u64,
}

/// What is announced about a seating map.
#[derive(Clone, Debug, PartialEq, Eq)]
pub struct SeatingMapDetails {
    pub event_id: String,
    pub total_seats: u64,
    pub sections: Vec<Pubkey>,
}

/// One section of seats, `rows` by `seats_per_row`; a seat's status is 0 while it is free.
#[derive(Clone, Debug, PartialEq, Eq)]
pub struct SeatingSectionAccount {
    pub event_id: String,
    pub section_name: String,
    pub section_type: u8,
    pub rows: u8,
    pub seats_per_row: u8,
    pub ticket_price: u64,
    pub seat_status: Vec<u8>,
}

/// The shape of a section.
#[derive(Clone, Debug, PartialEq, Eq)]
pub struct SeatingSectionInput {
    pub section_type: u8,
    pub rows: u8,
    pub seats_per_row: u8,
}

/// Whether a ticket has been activated by its holder and used at the door.
#[derive(Clone, Copy, Debug, PartialEq, Eq)]
pub struct TicketStatus {
    pub event: Pubkey,
    pub used: bool,
    pub activated: bool,
    pub activation_timestamp: i64,
}

/// What is announced when a ticket is let in.
#[derive(Clone, Copy, Debug, PartialEq, Eq)]
pub struct TicketValidated {
    pub event: Pubkey,
    pub validator: Pubkey,
    pub timestamp: i64,
}

} // verus!
