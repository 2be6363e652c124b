use vstd::prelude::*;

use crate::error::ErrorCode;
use crate::events::{
    activate_event_error, add_validator_error, deactivate_event_error, delete_event_error,
    spec_events_after_delete, spec_update_event,
};
use crate::organizers::{add_organizer_error, remove_organizer_error};
use crate::pubkey::Pubkey;
use crate::seating::{
    add_section_error, free_seats, reshaped_total, seat_count, spec_remove_section, update_section_error,
};
use crate::state::{EventNFT, EventRegistry, OrganizersPool, SeatingMap, SeatingSectionAccount, TicketStatus};
use crate::tickets::{purchase_error, spec_fee, spec_seat_index, spec_validate_ticket, SALE_GRACE_SECONDS};

verus! {

/// An organizer is never registered twice: adding one keeps the pool free of duplicates.
pub proof fn add_organizer_keeps_pool_unique(pool: OrganizersPool, signer: Pubkey, new_organizer: Pubkey)
    requires
        pool.organizers@.no_duplicates(),
        add_organizer_error(pool, signer, new_organizer) is None,
    ensures
        pool.organizers@.push(new_organizer).no_duplicates(),
{
    let s = pool.organizers@.push(new_organizer);
    assert forall|i: int, j: int| 0 <= i < s.len() && 0 <= j < s.len() && i != j implies s[i] != s[j] by {
        if i == s.len() - 1 {
            assert(pool.organizers@[j] == s[j]);
        } else if j == s.len() - 1 {
            assert(pool.organizers@[i] == s[i]);
        }
    }
}

/// Removing an organizer keeps the pool free of duplicates, and the removed
/// organizer is no longer registered.
pub proof fn remove_organizer_keeps_pool_unique(pool: OrganizersPool, organizer: Pubkey)
    requires
        pool.organizers@.no_duplicates(),
        pool.organizers@.contains(organizer),
    ensures
        pool.organizers@.remove_value(organizer).no_duplicates(),
        !pool.organizers@.remove_value(organizer).contains(organizer),
{
    let s = pool.organizers@;
    s.index_of_first_ensures(organizer);
    let k = s.index_of_first(organizer).unwrap();
    let r = s.remove_value(organizer);
    assert(r =~= s.remove(k));
    assert forall|i: int, j: int| 0 <= i < r.len() && 0 <= j < r.len() && i != j implies r[i] != r[j] by {
        let si = if i < k { i } else { i + 1 };
        let sj = if j < k { j } else { j + 1 };
        assert(r[i] == s[si]);
        assert(r[j] == s[sj]);
    }
    if r.contains(organizer) {
        let i = choose|i: int| 0 <= i < r.len() && r[i] == organizer;
        let si = if i < k { i } else { i + 1 };
        assert(r[i] == s[si]);
    }
}

/// Removing an organizer right after adding it gives back the pool as it was.
pub proof fn remove_organizer_undoes_add(pool: OrganizersPool, signer: Pubkey, organizer: Pubkey)
    requires
        add_organizer_error(pool, signer, organizer) is None,
    ensures
        pool.organizers@.push(organizer).contains(organizer),
        pool.organizers@.push(organizer).remove_value(organizer) == pool.organizers@,
{
    let s = pool.organizers@;
    let p = s.push(organizer);
    assert(p[s.len() as int] == organizer);
    p.index_of_first_ensures(organizer);
    let k = p.index_of_first(organizer).unwrap();
    assert(k == s.len()) by {
        if k < s.len() {
            assert(s[k] == p[k]);
        }
    }
    assert(p.remove(k) =~= s);
}

/// A validator is never listed twice for an event: adding one keeps the list free of duplicates.
pub proof fn add_validator_keeps_validators_unique(event: EventNFT, organizer: Pubkey, validator: Pubkey)
    requires
        event.validators@.no_duplicates(),
        add_validator_error(event, organizer, validator) is None,
    ensures
        event.validators@.push(validator).no_duplicates(),
{
    let s = event.validators@.push(validator);
    assert forall|i: int, j: int| 0 <= i < s.len() && 0 <= j < s.len() && i != j implies s[i] != s[j] by {
        if i == s.len() - 1 {
            assert(event.validators@[j] == s[j]);
        } else if j == s.len() - 1 {
            assert(event.validators@[i] == s[i]);
        }
    }
}

/// Deactivating an event right after activating it, before any sale, gives back the event as it was.
pub proof fn deactivate_undoes_activate(event: EventNFT, organizer: Pubkey)
    requires
        activate_event_error(event, organizer) is None,
        event.sold_tickets == 0,
    ensures
        deactivate_event_error(EventNFT { active: true, ..event }, organizer) is None,
        (EventNFT { active: false, ..EventNFT { active: true, ..event } }) == event,
{
}

/// An event that has sold a ticket cannot be deactivated.
pub proof fn sold_event_stays_active(event: EventNFT, organizer: Pubkey)
    requires
        event.sold_tickets > 0,
    ensures
        deactivate_event_error(event, organizer) is Some,
{
}

/// Updating an event never brings its ticket supply below the tickets already sold.
pub proof fn update_event_keeps_supply_above_sales(
    event: EventNFT,
    organizer: Pubkey,
    now: i64,
    new_name: Option<String>,
    new_date: Option<i64>,
    new_available_tickets: Option<u64>,
)
    requires
        event.available_tickets >= event.sold_tickets,
    ensures
        ({
            let after = spec_update_event(event, organizer, now, new_name, new_date, new_available_tickets).0;
            after.available_tickets >= after.sold_tickets && after.sold_tickets == event.sold_tickets
        }),
{
}

/// Taking an event out of the registry keeps the other live events in their order:
/// the live entries afterwards are the live entries before without the removed one.
pub proof fn delete_keeps_other_live_events(events: Seq<Pubkey>, pos: int, count: int)
    requires
        0 <= pos < count <= events.len(),
    ensures
        spec_events_after_delete(events, pos, count).take(count - 1) == events.take(count).remove(pos),
        spec_events_after_delete(events, pos, count).len() == events.len(),
{
    assert(spec_events_after_delete(events, pos, count).take(count - 1) =~= events.take(count).remove(pos));
}

/// Creating an event keeps the registry's count within its list: the count becomes
/// the list's length, as long as that length fits a `u32`.
pub proof fn create_event_keeps_registry_wf(registry: EventRegistry, event_key: Pubkey)
    requires
        registry.events@.len() + 1 <= u32::MAX,
    ensures
        ((registry.events@.len() + 1) as u32) == registry.events@.push(event_key).len(),
{
}

/// Deleting an event keeps the registry's count within its list and lowers it by one.
pub proof fn delete_event_keeps_registry_wf(
    event: EventNFT,
    registry: EventRegistry,
    organizer: Pubkey,
    event_key: Pubkey,
)
    requires
        registry.wf(),
        registry.event_count >= 1,
        delete_event_error(event, registry, organizer, event_key) is None,
    ensures
        ({
            let pos = registry.events@.index_of_first(event_key).unwrap();
            (registry.event_count - 1) <= spec_events_after_delete(
                registry.events@,
                pos,
                registry.event_count as int,
            ).len()
        }),
{
}

/// Reshaping a section never brings the map's seat total above the event's ticket supply.
pub proof fn reshaped_section_fits_supply(
    seating_map: SeatingMap,
    section: SeatingSectionAccount,
    event: EventNFT,
    organizer: Pubkey,
    new_rows: Option<u8>,
    new_seats_per_row: Option<u8>,
)
    requires
        update_section_error(seating_map, section, event, organizer, new_rows, new_seats_per_row) is None,
    ensures
        0 <= reshaped_total(seating_map, section, new_rows, new_seats_per_row) <= event.available_tickets,
{
}

/// A section that is added never brings the map's seat total above the event's ticket supply.
pub proof fn added_section_fits_supply(
    seating_map: SeatingMap,
    event: EventNFT,
    organizer: Pubkey,
    rows: u8,
    seats_per_row: u8,
)
    requires
        add_section_error(seating_map, event, organizer, rows, seats_per_row) is None,
    ensures
        seating_map.total_seats + seat_count(rows, seats_per_row) <= event.available_tickets,
        seat_count(rows, seats_per_row) > 0,
{
    assert(rows * seats_per_row > 0) by (nonlinear_arith)
        requires
            rows > 0,
            seats_per_row > 0,
    ;
}

/// Removing a section right after adding it gives back the seat total and the list of
/// sections as they were, provided the section's address was not listed already.
pub proof fn remove_section_undoes_add(
    seating_map: SeatingMap,
    added: SeatingMap,
    section: SeatingSectionAccount,
    event: EventNFT,
    organizer: Pubkey,
    section_key: Pubkey,
)
    requires
        add_section_error(seating_map, event, organizer, section.rows, section.seats_per_row) is None,
        !seating_map.sections@.contains(section_key),
        section.seat_status@ == free_seats(seat_count(section.rows, section.seats_per_row)),
        added.sections@ == seating_map.sections@.push(section_key),
        added.total_seats == seating_map.total_seats + seat_count(section.rows, section.seats_per_row),
        added.event_id == seating_map.event_id,
        added.organizer == seating_map.organizer,
        added.active == seating_map.active,
    ensures
        spec_remove_section(added, section, event, organizer, section_key).1 is Ok,
        spec_remove_section(added, section, event, organizer, section_key).0.total_seats == seating_map.total_seats,
        added.sections@.remove_value(section_key) == seating_map.sections@,
{
    let s = seating_map.sections@;
    let p = added.sections@;
    assert(p[s.len() as int] == section_key);
    assert(p.contains(section_key));
    p.index_of_first_ensures(section_key);
    let k = p.index_of_first(section_key).unwrap();
    assert(k == s.len()) by {
        if k < s.len() {
            assert(s[k] == p[k]);
        }
    }
    assert(p.remove(k) =~= s);
}

/// A seat is never sold twice: once a sale of it is recorded, every later sale of the
/// same seat is refused, as a taken seat whenever the sale is still open.
pub proof fn sold_seat_is_refused(
    event: EventNFT,
    later_event: EventNFT,
    seating_map: SeatingMap,
    section: SeatingSectionAccount,
    sold: SeatingSectionAccount,
    buyer_lamports: u64,
    later_lamports: u64,
    now: i64,
    later: i64,
    event_id: Seq<char>,
    row: u8,
    seat: u8,
)
    requires
        purchase_error(event, seating_map, section, buyer_lamports, now, event_id, row, seat) is None,
        sold == (SeatingSectionAccount { seat_status: sold.seat_status, ..section }),
        sold.seat_status@ == section.seat_status@.update(spec_seat_index(section, row, seat), 1u8),
    ensures
        purchase_error(later_event, seating_map, sold, later_lamports, later, event_id, row, seat) is Some,
        later_event.active && later - SALE_GRACE_SECONDS < later_event.event_date ==> purchase_error(
            later_event,
            seating_map,
            sold,
            later_lamports,
            later,
            event_id,
            row,
            seat,
        ) == Some(ErrorCode::SeatAlreadyTaken),
{
}

/// The platform's fee is a part of the price, so the organizer's share is never negative.
pub proof fn fee_is_part_of_price(price: u64)
    ensures
        0 <= spec_fee(price) <= price,
{
}

/// A ticket lets in one person: once validated it is used, and every later validation
/// of it is refused.
pub proof fn validated_ticket_is_used(
    event: EventNFT,
    event_key: Pubkey,
    ticket_status: TicketStatus,
    validator: Pubkey,
    now: i64,
    later_validator: Pubkey,
    later: i64,
)
    requires
        spec_validate_ticket(event, event_key, ticket_status, validator, now).1 is Ok,
    ensures
        ({
            let after = spec_validate_ticket(event, event_key, ticket_status, validator, now).0;
            &&& after.used
            &&& spec_validate_ticket(event, event_key, after, later_validator, later).1 is Err
        }),
{
}

} // verus!
