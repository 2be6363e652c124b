use vstd::prelude::*;

use crate::error::ErrorCode;
use crate::pubkey::{copy_keys, find_key, Pubkey};
use crate::state::{EventNFT, SeatingMap, SeatingMapDetails, SeatingSectionAccount};

verus! {

/// `n` free seats.
pub open spec fn free_seats(n: nat) -> Seq<u8> {
    Seq::new(n, |i: int| 0u8)
}

/// The number of seats in a section of `rows` rows of `seats_per_row` seats.
pub open spec fn seat_count(rows: u8, seats_per_row: u8) -> nat {
    (rows * seats_per_row) as nat
}

/// The number of seats in a section, as a `u64`.
pub fn section_size(rows: u8, seats_per_row: u8) -> (n: u64)
    ensures
        n == seat_count(rows, seats_per_row),
        n <= 255 * 255,
{
    proof {
        assert(rows * seats_per_row <= 255 * 255) by (nonlinear_arith)
            requires
                rows <= 255,
                seats_per_row <= 255,
                0 <= rows,
                0 <= seats_per_row,
        ;
    }
    (rows as u64) * (seats_per_row as u64)
}

/// A fresh list of `n` free seats.
pub fn new_seat_status(n: usize) -> (seats: Vec<u8>)
    ensures
        seats@ == free_seats(n as nat),
{
    let mut seats: Vec<u8> = Vec::new();
    let mut i: usize = 0;
    while i < n
        invariant
            i <= n,
            seats@ == free_seats(i as nat),
        decreases n - i,
    {
        seats.push(0u8);
        i = i + 1;
        assert(seats@ =~= free_seats(i as nat));
    }
    seats
}

/// Whether every seat of a section is still free.
pub fn all_seats_free(seat_status: &Vec<u8>) -> (free: bool)
    ensures
        free == (forall|i: int| 0 <= i < seat_status@.len() ==> seat_status@[i] == 0u8),
{
    let mut i: usize = 0;
    while i < seat_status.len()
        invariant
            i <= seat_status@.len(),
            forall|j: int| 0 <= j < i ==> seat_status@[j] == 0u8,
        decreases seat_status@.len() - i,
    {
        if seat_status[i] != 0 {
            return false;
        }
        i = i + 1;
    }
    true
}

/// Points a seating map at an event and empties its list of sections.
pub fn initialize_seating(seating_map: &mut SeatingMap, event_id: String) -> (result: Result<(), ErrorCode>)
    ensures
        result is Ok,
        *final(seating_map) == (SeatingMap {
            event_id: event_id,
            sections: final(seating_map).sections,
            ..*old(seating_map)
        }),
        final(seating_map).sections@ == Seq::<Pubkey>::empty(),
{
    seating_map.event_id = event_id;
    seating_map.sections = Vec::new();
    Ok(())
}

/// The checks that every change to the seating of an event begins with: the caller
/// is the event's organizer, the event is not active, and it has a seating type.
pub open spec fn seating_change_error(event: EventNFT, organizer: Pubkey) -> Option<ErrorCode> {
    if organizer != event.organizer {
        Some(ErrorCode::Unauthorized)
    } else if event.active {
        Some(ErrorCode::EventIsActive)
    } else if event.seating_type == 0 {
        Some(ErrorCode::InvalidSeatingType)
    } else {
        None
    }
}

fn check_seating_change(event: &EventNFT, organizer: &Pubkey) -> (result: Result<(), ErrorCode>)
    ensures
        match seating_change_error(*event, *organizer) {
            Some(e) => result == Err::<(), ErrorCode>(e),
            None => result is Ok,
        },
{
    if !event.organizer.same_as(organizer) {
        return Err(ErrorCode::Unauthorized);
    }
    if event.active {
        return Err(ErrorCode::EventIsActive);
    }
    if event.seating_type == 0 {
        return Err(ErrorCode::InvalidSeatingType);
    }
    Ok(())
}

/// Why `initialize_seating_section` refuses, if it does: beyond the common checks,
/// the section must have seats, and the map's seat total with them must fit a `u64`
/// and stay within the event's ticket supply.
pub open spec fn add_section_error(
    seating_map: SeatingMap,
    event: EventNFT,
    organizer: Pubkey,
    rows: u8,
    seats_per_row: u8,
) -> Option<ErrorCode> {
    if seating_change_error(event, organizer) is Some {
        seating_change_error(event, organizer)
    } else if rows == 0 || seats_per_row == 0 {
        Some(ErrorCode::InvalidSeating)
    } else if seating_map.total_seats + seat_count(rows, seats_per_row) > u64::MAX {
        Some(ErrorCode::InvalidSeating)
    } else if seating_map.total_seats + seat_count(rows, seats_per_row) > event.available_tickets {
        Some(ErrorCode::InvalidSeating)
    } else {
        None
    }
}

/// Sets up the section account at address `section_key` with all seats free,
/// adds it to the seating map and counts its seats in the map's total.
pub fn initialize_seating_section(
    seating_map: &mut SeatingMap,
    seating_section: &mut SeatingSectionAccount,
    event: &EventNFT,
    organizer: Pubkey,
    section_key: Pubkey,
    section_name: String,
    section_type: u8,
    rows: u8,
    seats_per_row: u8,
    ticket_price: u64,
) -> (result: Result<(), ErrorCode>)
    ensures
        match add_section_error(*old(seating_map), *event, organizer, rows, seats_per_row) {
            Some(e) => {
                &&& result == Err::<(), ErrorCode>(e)
                &&& *final(seating_map) == *old(seating_map)
                &&& *final(seating_section) == *old(seating_section)
            },
            None => {
                &&& result is Ok
                &&& *final(seating_section) == (SeatingSectionAccount {
                    event_id: old(seating_map).event_id,
                    section_name: section_name,
                    section_type: section_type,
                    rows: rows,
                    seats_per_row: seats_per_row,
                    ticket_price: ticket_price,
                    seat_status: final(seating_section).seat_status,
                })
                &&& final(seating_section).seat_status@ == free_seats(seat_count(rows, seats_per_row))
                &&& *final(seating_map) == (SeatingMap {
                    sections: final(seating_map).sections,
                    total_seats: (old(seating_map).total_seats + seat_count(rows, seats_per_row)) as u64,
                    ..*old(seating_map)
                })
                &&& final(seating_map).sections@ == old(seating_map).sections@.push(section_key)
            },
        },
{
    check_seating_change(event, &organizer)?;
    if !(rows > 0 && seats_per_row > 0) {
        return Err(ErrorCode::InvalidSeating);
    }
    let new_seats_count = section_size(rows, seats_per_row);
    let updated_total = match seating_map.total_seats.checked_add(new_seats_count) {
        Some(t) => t,
        None => {
            return Err(ErrorCode::InvalidSeating);
        },
    };
    if !(updated_total <= event.available_tickets) {
        return Err(ErrorCode::InvalidSeating);
    }
    seating_section.event_id = seating_map.event_id.clone();
    seating_section.section_name = section_name;
    seating_section.section_type = section_type;
    seating_section.rows = rows;
    seating_section.seats_per_row = seats_per_row;
    seating_section.ticket_price = ticket_price;
    seating_section.seat_status = new_seat_status(new_seats_count as usize);

    seating_map.sections.push(section_key);
    seating_map.total_seats = updated_total;
    Ok(())
}

/// The rows and seats per row that a section has after an update.
pub open spec fn updated_shape(
    section: SeatingSectionAccount,
    new_rows: Option<u8>,
    new_seats_per_row: Option<u8>,
) -> (u8, u8) {
    (
        match new_rows {
            Some(r) => r,
            None => section.rows,
        },
        match new_seats_per_row {
            Some(s) => s,
            None => section.seats_per_row,
        },
    )
}

/// The map's seat total once a section is reshaped: its old seats taken out and its new seats counted.
pub open spec fn reshaped_total(
    seating_map: SeatingMap,
    section: SeatingSectionAccount,
    new_rows: Option<u8>,
    new_seats_per_row: Option<u8>,
) -> int {
    let (r, s) = updated_shape(section, new_rows, new_seats_per_row);
    seating_map.total_seats - seat_count(section.rows, section.seats_per_row) + seat_count(r, s)
}

/// Why `update_seating_section` refuses, if it does: beyond the common checks, a new
/// row count or row length may not be 0, the old seats must be within the map's total,
/// and the new total must fit a `u64` and stay within the event's ticket supply.
pub open spec fn update_section_error(
    seating_map: SeatingMap,
    section: SeatingSectionAccount,
    event: EventNFT,
    organizer: Pubkey,
    new_rows: Option<u8>,
    new_seats_per_row: Option<u8>,
) -> Option<ErrorCode> {
    if seating_change_error(event, organizer) is Some {
        seating_change_error(event, organizer)
    } else if new_rows == Some(0u8) || new_seats_per_row == Some(0u8) {
        Some(ErrorCode::InvalidSeating)
    } else if seating_map.total_seats < seat_count(section.rows, section.seats_per_row) {
        Some(ErrorCode::InvalidSeating)
    } else if reshaped_total(seating_map, section, new_rows, new_seats_per_row) > u64::MAX {
        Some(ErrorCode::InvalidSeating)
    } else if reshaped_total(seating_map, section, new_rows, new_seats_per_row) > event.available_tickets {
        Some(ErrorCode::InvalidSeating)
    } else {
        None
    }
}

/// Reshapes a section, changes its type or price, and recounts the map's seat total.
/// Every seat of the section is free afterwards.
pub fn update_seating_section(
    seating_map: &mut SeatingMap,
    seating_section: &mut SeatingSectionAccount,
    event: &EventNFT,
    organizer: Pubkey,
    new_rows: Option<u8>,
    new_seats_per_row: Option<u8>,
    new_section_type: Option<u8>,
    new_ticket_price: Option<u64>,
) -> (result: Result<(), ErrorCode>)
    ensures
        match update_section_error(
            *old(seating_map),
            *old(seating_section),
            *event,
            organizer,
            new_rows,
            new_seats_per_row,
        ) {
            Some(e) => {
                &&& result == Err::<(), ErrorCode>(e)
                &&& *final(seating_map) == *old(seating_map)
                &&& *final(seating_section) == *old(seating_section)
            },
            None => {
                let (r, s) = updated_shape(*old(seating_section), new_rows, new_seats_per_row);
                &&& result is Ok
                &&& *final(seating_section) == (SeatingSectionAccount {
                    section_type: match new_section_type {
                        Some(t) => t,
                        None => old(seating_section).section_type,
                    },
                    ticket_price: match new_ticket_price {
                        Some(p) => p,
                        None => old(seating_section).ticket_price,
                    },
                    rows: r,
                    seats_per_row: s,
                    seat_status: final(seating_section).seat_status,
                    ..*old(seating_section)
                })
                &&& final(seating_section).seat_status@ == free_seats(seat_count(r, s))
                &&& *final(seating_map) == (SeatingMap {
                    total_seats: reshaped_total(
                        *old(seating_map),
                        *old(seating_section),
                        new_rows,
                        new_seats_per_row,
                    ) as u64,
                    ..*old(seating_map)
                })
            },
        },
{
    check_seating_change(event, &organizer)?;
    let old_seats_count = section_size(seating_section.rows, seating_section.seats_per_row);
    let mut new_rows_val = seating_section.rows;
    let mut new_seats_val = seating_section.seats_per_row;
    if let Some(r) = new_rows {
        if !(r > 0) {
            return Err(ErrorCode::InvalidSeating);
        }
        new_rows_val = r;
    }
    if let Some(s) = new_seats_per_row {
        if !(s > 0) {
            return Err(ErrorCode::InvalidSeating);
        }
        new_seats_val = s;
    }
    let new_count = section_size(new_rows_val, new_seats_val);
    let remaining = match seating_map.total_seats.checked_sub(old_seats_count) {
        Some(t) => t,
        None => {
            return Err(ErrorCode::InvalidSeating);
        },
    };
    let updated_total = match remaining.checked_add(new_count) {
        Some(t) => t,
        None => {
            return Err(ErrorCode::InvalidSeating);
        },
    };
    if !(updated_total <= event.available_tickets) {
        return Err(ErrorCode::InvalidSeating);
    }
    if let Some(t) = new_section_type {
        seating_section.section_type = t;
    }
    if let Some(new_price) = new_ticket_price {
        seating_section.ticket_price = new_price;
    }
    seating_section.rows = new_rows_val;
    seating_section.seats_per_row = new_seats_val;
    seating_section.seat_status = new_seat_status(new_count as usize);
    seating_map.total_seats = updated_total;
    Ok(())
}

/// What `remove_seating_section` leaves in the seating map and returns. Beyond the
/// common checks, no seat of the section may be taken and its seats must be within the
/// map's total; the total then loses them, and the section's address `section_key` is
/// dropped from the list. An address missing from the list is refused after the total
/// has changed.
pub open spec fn spec_remove_section(
    seating_map: SeatingMap,
    section: SeatingSectionAccount,
    event: EventNFT,
    organizer: Pubkey,
    section_key: Pubkey,
) -> (SeatingMap, Result<(), ErrorCode>) {
    if seating_change_error(event, organizer) is Some {
        (seating_map, Err(seating_change_error(event, organizer).unwrap()))
    } else if exists|i: int| 0 <= i < section.seat_status@.len() && section.seat_status@[i] != 0u8 {
        (seating_map, Err(ErrorCode::CannotRemoveSectionWithTickets))
    } else if seating_map.total_seats < seat_count(section.rows, section.seats_per_row) {
        (seating_map, Err(ErrorCode::InvalidSeating))
    } else {
        let reduced = SeatingMap {
            total_seats: (seating_map.total_seats - seat_count(section.rows, section.seats_per_row)) as u64,
            ..seating_map
        };
        if seating_map.sections@.contains(section_key) {
            (reduced, Ok(()))
        } else {
            (reduced, Err(ErrorCode::InvalidSeating))
        }
    }
}

/// Takes a section with no seat taken out of the seating map.
pub fn remove_seating_section(
    seating_map: &mut SeatingMap,
    seating_section: &SeatingSectionAccount,
    event: &EventNFT,
    organizer: Pubkey,
    section_key: Pubkey,
) -> (result: Result<(), ErrorCode>)
    ensures
        result == spec_remove_section(
            *old(seating_map),
            *seating_section,
            *event,
            organizer,
            section_key,
        ).1,
        result is Err ==> *final(seating_map) == spec_remove_section(
            *old(seating_map),
            *seating_section,
            *event,
            organizer,
            section_key,
        ).0,
        result is Ok ==> {
            &&& *final(seating_map) == (SeatingMap {
                sections: final(seating_map).sections,
                ..spec_remove_section(
                    *old(seating_map),
                    *seating_section,
                    *event,
                    organizer,
                    section_key,
                ).0
            })
            &&& final(seating_map).sections@ == old(seating_map).sections@.remove_value(section_key)
        },
{
    check_seating_change(event, &organizer)?;
    if !all_seats_free(&seating_section.seat_status) {
        return Err(ErrorCode::CannotRemoveSectionWithTickets);
    }
    let section_seats = section_size(seating_section.rows, seating_section.seats_per_row);
    seating_map.total_seats = match seating_map.total_seats.checked_sub(section_seats) {
        Some(t) => t,
        None => {
            return Err(ErrorCode::InvalidSeating);
        },
    };
    match find_key(&seating_map.sections, &section_key) {
        Some(pos) => {
            seating_map.sections.remove(pos);
            Ok(())
        },
        None => Err(ErrorCode::InvalidSeating),
    }
}

/// What is announced about a seating map: its event, its seat total and its sections.
pub fn emit_seating_map_details(seating_map: &SeatingMap) -> (details: SeatingMapDetails)
    ensures
        details.event_id == seating_map.event_id,
        details.total_seats == seating_map.total_seats,
        details.sections@ == seating_map.sections@,
{
    SeatingMapDetails {
        event_id: seating_map.event_id.clone(),
        total_seats: seating_map.total_seats,
        sections: copy_keys(&seating_map.sections),
    }
}

} // verus!
