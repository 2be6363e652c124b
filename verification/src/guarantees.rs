use vstd::prelude::*;
use vstd::utf8::encode_utf8;

use crate::error::ErrorCode;
use crate::events::{
    activate_event_error, add_validator_error, create_event_error, deactivate_event_error,
    delete_event_error, spec_update_event,
};
use crate::ids::spec_event_id;
use crate::organizers::{add_organizer_error, remove_organizer_error};
use crate::pubkey::{spec_master_account, Pubkey};
use crate::seating::{add_section_error, reshaped_total, seat_count, spec_remove_section, update_section_error};
use crate::state::{
    EventNFT, OrganizersPool, SeatingMap, SeatingSectionAccount, TicketStatus, TicketValidated,
};
use crate::tickets::{purchase_error, spec_fee, spec_seat_index, spec_validate_ticket};

verus! {

// ---------------- organizers ----------------

/// The administrator can register anyone not yet registered.
pub proof fn master_adds_any_new_organizer(pool: OrganizersPool, organizer: Pubkey)
    requires
        !pool.organizers@.contains(organizer),
    ensures
        add_organizer_error(pool, spec_master_account(), organizer) is None,
{
}

/// Only the administrator can register an organizer, and a registered one is refused as such.
pub proof fn add_organizer_refusals(pool: OrganizersPool, signer: Pubkey, organizer: Pubkey)
    ensures
        signer != spec_master_account() ==> add_organizer_error(pool, signer, organizer) == Some(
            ErrorCode::Unauthorized,
        ),
        signer == spec_master_account() && pool.organizers@.contains(organizer) ==> add_organizer_error(
            pool,
            signer,
            organizer,
        ) == Some(ErrorCode::AlreadyRegistered),
{
}

/// The administrator can remove any registered organizer, wherever it stands in the pool;
/// an organizer is reported missing only when the pool does not hold it.
pub proof fn master_removes_any_registered_organizer(pool: OrganizersPool, signer: Pubkey, organizer: Pubkey)
    ensures
        pool.organizers@.contains(organizer) ==> remove_organizer_error(pool, spec_master_account(), organizer)
            is None,
        remove_organizer_error(pool, signer, organizer) == Some(ErrorCode::OrganizerNotFound) ==> {
            &&& signer == spec_master_account()
            &&& !pool.organizers@.contains(organizer)
        },
        signer != spec_master_account() ==> remove_organizer_error(pool, signer, organizer) == Some(
            ErrorCode::Unauthorized,
        ),
{
}

/// Removing an organizer from a pool without duplicates takes out that organizer and
/// no other: one entry fewer, the others kept in their order.
pub proof fn removal_takes_out_only_that_organizer(pool: OrganizersPool, organizer: Pubkey)
    requires
        pool.organizers@.no_duplicates(),
        pool.organizers@.contains(organizer),
    ensures
        pool.organizers@.remove_value(organizer).len() == pool.organizers@.len() - 1,
        !pool.organizers@.remove_value(organizer).contains(organizer),
        forall|other: Pubkey|
            other != organizer ==> (#[trigger] pool.organizers@.remove_value(organizer).contains(other)
                <==> pool.organizers@.contains(other)),
{
    let s = pool.organizers@;
    s.index_of_first_ensures(organizer);
    let k = s.index_of_first(organizer).unwrap();
    let r = s.remove_value(organizer);
    assert(r =~= s.remove(k));
    if r.contains(organizer) {
        let i = choose|i: int| 0 <= i < r.len() && r[i] == organizer;
        let si = if i < k { i } else { i + 1 };
        assert(r[i] == s[si]);
    }
    assert forall|other: Pubkey| other != organizer implies (#[trigger] r.contains(other) <==> s.contains(other)) by {
        if r.contains(other) {
            let i = choose|i: int| 0 <= i < r.len() && r[i] == other;
            let si = if i < k { i } else { i + 1 };
            assert(r[i] == s[si]);
        }
        if s.contains(other) {
            let j = choose|j: int| 0 <= j < s.len() && s[j] == other;
            assert(j != k);
            let ri = if j < k { j } else { j - 1 };
            assert(r[ri] == s[j]);
        }
    }
}

// ---------------- events ----------------

/// A registered organizer creates an event with a future date, some tickets and the
/// identifier derived from its name, date and organizer.
pub proof fn registered_organizer_creates_event(
    pool: OrganizersPool,
    organizer: Pubkey,
    now: i64,
    name: Seq<char>,
    event_date: i64,
    available_tickets: u64,
)
    requires
        pool.organizers@.contains(organizer),
        event_date > now,
        available_tickets > 0,
    ensures
        create_event_error(
            pool,
            organizer,
            now,
            spec_event_id(encode_utf8(name), event_date, organizer),
            name,
            event_date,
            available_tickets,
        ) is None,
        !pool.organizers@.contains(organizer) ==> create_event_error(
            pool,
            organizer,
            now,
            spec_event_id(encode_utf8(name), event_date, organizer),
            name,
            event_date,
            available_tickets,
        ) == Some(ErrorCode::Unauthorized),
{
}

/// Creation is refused for a caller outside the pool, a date not after `now`, no tickets,
/// or an identifier other than the derived one.
pub proof fn create_event_refusals(
    pool: OrganizersPool,
    organizer: Pubkey,
    now: i64,
    event_id: Seq<char>,
    name: Seq<char>,
    event_date: i64,
    available_tickets: u64,
)
    ensures
        !pool.organizers@.contains(organizer) ==> create_event_error(
            pool,
            organizer,
            now,
            event_id,
            name,
            event_date,
            available_tickets,
        ) == Some(ErrorCode::Unauthorized),
        event_date <= now || available_tickets == 0 || event_id != spec_event_id(
            encode_utf8(name),
            event_date,
            organizer,
        ) ==> create_event_error(pool, organizer, now, event_id, name, event_date, available_tickets)
            is Some,
{
}

/// The organizer of an inactive event may move it to any date after `now`, earlier
/// or later than its current one, and may set any name.
pub proof fn organizer_moves_event_to_any_future_date(
    event: EventNFT,
    now: i64,
    new_name: Option<String>,
    new_date: i64,
)
    requires
        !event.active,
        new_date > now,
    ensures
        spec_update_event(event, event.organizer, now, new_name, Some(new_date), None).1 is Ok,
        spec_update_event(event, event.organizer, now, new_name, Some(new_date), None).0.event_date
            == new_date,
        spec_update_event(event, event.organizer, now, new_name, Some(new_date), None).0.name == match new_name {
            Some(n) => n,
            None => event.name,
        },
        spec_update_event(event, event.organizer, now, new_name, Some(new_date), None).0.available_tickets
            == event.available_tickets,
{
}

/// A new date not after `now` is refused and leaves the date as it was.
pub proof fn past_date_is_refused(event: EventNFT, now: i64, new_name: Option<String>, new_date: i64)
    requires
        !event.active,
        new_date <= now,
    ensures
        spec_update_event(event, event.organizer, now, new_name, Some(new_date), None).1 == Err::<
            (),
            ErrorCode,
        >(ErrorCode::InvalidEventDate),
        spec_update_event(event, event.organizer, now, new_name, Some(new_date), None).0.event_date
            == event.event_date,
{
}

/// The ticket supply of an inactive event may be set to any number not below the tickets
/// sold, and to nothing below them.
pub proof fn supply_update_respects_sales(event: EventNFT, now: i64, available: u64)
    requires
        !event.active,
    ensures
        available >= event.sold_tickets ==> {
            &&& spec_update_event(event, event.organizer, now, None, None, Some(available)).1 is Ok
            &&& spec_update_event(event, event.organizer, now, None, None, Some(available)).0.available_tickets
                == available
        },
        available < event.sold_tickets ==> spec_update_event(
            event,
            event.organizer,
            now,
            None,
            None,
            Some(available),
        ) == (event, Err::<(), ErrorCode>(ErrorCode::InvalidTicketQuantity)),
{
}

/// Only the organizer may update an event, and only while it is inactive.
pub proof fn update_event_refusals(
    event: EventNFT,
    organizer: Pubkey,
    now: i64,
    new_name: Option<String>,
    new_date: Option<i64>,
    new_available_tickets: Option<u64>,
)
    ensures
        organizer != event.organizer ==> spec_update_event(
            event,
            organizer,
            now,
            new_name,
            new_date,
            new_available_tickets,
        ) == (event, Err::<(), ErrorCode>(ErrorCode::Unauthorized)),
        organizer == event.organizer && event.active ==> spec_update_event(
            event,
            organizer,
            now,
            new_name,
            new_date,
            new_available_tickets,
        ) == (event, Err::<(), ErrorCode>(ErrorCode::EventIsActive)),
{
}

/// The organizer activates an inactive event, and deactivates an active one with no
/// sale; no one else may do either.
pub proof fn activation_rules(event: EventNFT, organizer: Pubkey)
    ensures
        organizer == event.organizer && !event.active ==> activate_event_error(event, organizer) is None,
        organizer == event.organizer && event.active && event.sold_tickets == 0 ==> deactivate_event_error(
            event,
            organizer,
        ) is None,
        organizer != event.organizer ==> activate_event_error(event, organizer) == Some(
            ErrorCode::Unauthorized,
        ) && deactivate_event_error(event, organizer) == Some(ErrorCode::Unauthorized),
        event.active ==> activate_event_error(event, organizer) is Some,
        !event.active ==> deactivate_event_error(event, organizer) is Some,
{
}

/// The organizer adds any validator not yet listed, wherever the others stand; a listed
/// one is refused as such.
pub proof fn organizer_adds_any_new_validator(event: EventNFT, validator: Pubkey)
    ensures
        !event.validators@.contains(validator) ==> add_validator_error(event, event.organizer, validator)
            is None,
        event.validators@.contains(validator) ==> add_validator_error(event, event.organizer, validator)
            == Some(ErrorCode::ValidatorAlreadyAdded),
{
}

/// The organizer deletes any event listed in the registry, at any position.
pub proof fn organizer_deletes_any_listed_event(
    event: EventNFT,
    registry: crate::state::EventRegistry,
    event_key: Pubkey,
)
    ensures
        registry.events@.contains(event_key) ==> delete_event_error(event, registry, event.organizer, event_key)
            is None,
        !registry.events@.contains(event_key) ==> delete_event_error(
            event,
            registry,
            event.organizer,
            event_key,
        ) == Some(ErrorCode::InvalidTicket),
{
}

// ---------------- seating ----------------

/// A section of `rows` by `seats_per_row` seats is added to an inactive event with a
/// seating type, by its organizer, whenever it has seats and the seat total with them
/// stays within the ticket supply.
pub proof fn fitting_section_is_added(
    seating_map: SeatingMap,
    event: EventNFT,
    rows: u8,
    seats_per_row: u8,
)
    requires
        !event.active,
        event.seating_type != 0,
        rows > 0,
        seats_per_row > 0,
        seating_map.total_seats + rows * seats_per_row <= event.available_tickets,
    ensures
        add_section_error(seating_map, event, event.organizer, rows, seats_per_row) is None,
        seat_count(rows, seats_per_row) == rows * seats_per_row,
{
}

/// A section that would bring the seat total above the supply, or has no seats, is refused.
pub proof fn oversized_section_is_refused(
    seating_map: SeatingMap,
    event: EventNFT,
    organizer: Pubkey,
    rows: u8,
    seats_per_row: u8,
)
    requires
        rows == 0 || seats_per_row == 0 || seating_map.total_seats + rows * seats_per_row > event.available_tickets,
    ensures
        add_section_error(seating_map, event, organizer, rows, seats_per_row) is Some,
{
}

/// A section is reshaped by the organizer of an inactive event with a seating type
/// whenever its new shape has seats and the new total (its old seats out, its new seats
/// in) stays within the supply.
pub proof fn fitting_reshape_is_accepted(
    seating_map: SeatingMap,
    section: SeatingSectionAccount,
    event: EventNFT,
    rows: u8,
    seats_per_row: u8,
)
    requires
        !event.active,
        event.seating_type != 0,
        rows > 0,
        seats_per_row > 0,
        seating_map.total_seats >= section.rows * section.seats_per_row,
        seating_map.total_seats - section.rows * section.seats_per_row + rows * seats_per_row
            <= event.available_tickets,
    ensures
        update_section_error(seating_map, section, event, event.organizer, Some(rows), Some(seats_per_row))
            is None,
        reshaped_total(seating_map, section, Some(rows), Some(seats_per_row)) == seating_map.total_seats
            - section.rows * section.seats_per_row + rows * seats_per_row,
{
}

/// A section with any seat taken, the first one included, is never removed: the removal
/// is refused and the map stays as it was.
pub proof fn section_with_a_sold_seat_is_kept(
    seating_map: SeatingMap,
    section: SeatingSectionAccount,
    event: EventNFT,
    section_key: Pubkey,
    i: int,
)
    requires
        !event.active,
        event.seating_type != 0,
        0 <= i < section.seat_status@.len(),
        section.seat_status@[i] != 0u8,
    ensures
        spec_remove_section(seating_map, section, event, event.organizer, section_key) == (
            seating_map,
            Err::<(), ErrorCode>(ErrorCode::CannotRemoveSectionWithTickets),
        ),
{
}

/// A removal that succeeds removes a listed section whose seats are all free, and its
/// seats leave the total.
pub proof fn removed_section_was_free(
    seating_map: SeatingMap,
    section: SeatingSectionAccount,
    event: EventNFT,
    organizer: Pubkey,
    section_key: Pubkey,
)
    requires
        spec_remove_section(seating_map, section, event, organizer, section_key).1 is Ok,
    ensures
        forall|i: int| 0 <= i < section.seat_status@.len() ==> section.seat_status@[i] == 0u8,
        organizer == event.organizer,
        seating_map.sections@.contains(section_key),
        spec_remove_section(seating_map, section, event, organizer, section_key).0.total_seats
            == seating_map.total_seats - section.rows * section.seats_per_row,
{
}

/// The organizer removes any listed section of an inactive event whose seats are all free
/// and within the total.
pub proof fn free_listed_section_is_removed(
    seating_map: SeatingMap,
    section: SeatingSectionAccount,
    event: EventNFT,
    section_key: Pubkey,
)
    requires
        !event.active,
        event.seating_type != 0,
        forall|i: int| 0 <= i < section.seat_status@.len() ==> section.seat_status@[i] == 0u8,
        seating_map.total_seats >= section.rows * section.seats_per_row,
        seating_map.sections@.contains(section_key),
    ensures
        spec_remove_section(seating_map, section, event, event.organizer, section_key).1 is Ok,
{
}

// ---------------- sales ----------------

proof fn row_major_places_differ(r1: int, s1: int, r2: int, s2: int, width: int)
    requires
        0 <= s1 < width,
        0 <= s2 < width,
        0 <= r1,
        0 <= r2,
        r1 != r2 || s1 != s2,
    ensures
        r1 * width + s1 != r2 * width + s2,
{
    if r1 == r2 {
    } else if r1 < r2 {
        assert(r1 * width + s1 < r2 * width + s2) by (nonlinear_arith)
            requires
                r1 < r2,
                0 <= s1 < width,
                0 <= s2,
        ;
    } else {
        assert(r2 * width + s2 < r1 * width + s1) by (nonlinear_arith)
            requires
                r2 < r1,
                0 <= s2 < width,
                0 <= s1,
        ;
    }
}

/// Seats are laid out row after row: the seat `seat` of row `row` has place
/// `row * seats_per_row + seat`, which lies inside the section's `rows * seats_per_row` places.
pub proof fn seat_place_is_row_major(section: SeatingSectionAccount, row: u8, seat: u8)
    requires
        row < section.rows,
        seat < section.seats_per_row,
    ensures
        spec_seat_index(section, row, seat) == row * section.seats_per_row + seat,
        0 <= spec_seat_index(section, row, seat) < section.rows * section.seats_per_row,
{
    assert(row * section.seats_per_row + seat < section.rows * section.seats_per_row) by (nonlinear_arith)
        requires
            row < section.rows,
            seat < section.seats_per_row,
            0 <= row,
            0 <= seat,
    ;
}

/// Distinct seats of a section have distinct places.
pub proof fn distinct_seats_have_distinct_places(
    section: SeatingSectionAccount,
    row1: u8,
    seat1: u8,
    row2: u8,
    seat2: u8,
)
    requires
        row1 < section.rows,
        seat1 < section.seats_per_row,
        row2 < section.rows,
        seat2 < section.seats_per_row,
        row1 != row2 || seat1 != seat2,
    ensures
        spec_seat_index(section, row1, seat1) != spec_seat_index(section, row2, seat2),
{
    row_major_places_differ(row1 as int, seat1 as int, row2 as int, seat2 as int, section.seats_per_row as int);
}

/// Selling a seat never takes another: a sale that was open for a second seat stays
/// open once the first is marked sold.
pub proof fn selling_a_seat_leaves_other_seats_free(
    event: EventNFT,
    seating_map: SeatingMap,
    section: SeatingSectionAccount,
    sold: SeatingSectionAccount,
    buyer_lamports: u64,
    now: i64,
    event_id: Seq<char>,
    row1: u8,
    seat1: u8,
    row2: u8,
    seat2: u8,
)
    requires
        purchase_error(event, seating_map, section, buyer_lamports, now, event_id, row1, seat1) is None,
        purchase_error(event, seating_map, section, buyer_lamports, now, event_id, row2, seat2) is None,
        row1 != row2 || seat1 != seat2,
        sold == (SeatingSectionAccount { seat_status: sold.seat_status, ..section }),
        sold.seat_status@ == section.seat_status@.update(spec_seat_index(section, row1, seat1), 1u8),
    ensures
        purchase_error(event, seating_map, sold, buyer_lamports, now, event_id, row2, seat2) is None,
{
    row_major_places_differ(row1 as int, seat1 as int, row2 as int, seat2 as int, section.seats_per_row as int);
}

/// A sale is accepted for any free seat of a well-formed section of an active event,
/// less than a day after its date, from a buyer who can afford the price.
pub proof fn open_sale_of_free_seat_is_accepted(
    event: EventNFT,
    seating_map: SeatingMap,
    section: SeatingSectionAccount,
    buyer_lamports: u64,
    now: i64,
    row: u8,
    seat: u8,
)
    requires
        event.active,
        now - 86400 < event.event_date,
        row < section.rows,
        seat < section.seats_per_row,
        section.seat_status@.len() == section.rows * section.seats_per_row,
        section.seat_status@[row * section.seats_per_row + seat] == 0u8,
        buyer_lamports >= section.ticket_price,
    ensures
        purchase_error(event, seating_map, section, buyer_lamports, now, seating_map.event_id@, row, seat)
            is None,
{
    assert(row * section.seats_per_row + seat < section.rows * section.seats_per_row) by (nonlinear_arith)
        requires
            row < section.rows,
            seat < section.seats_per_row,
            0 <= row,
            0 <= seat,
    ;
}

/// The platform's fee is 5% of the price rounded down: the largest amount whose
/// hundredfold does not exceed five times the price.
pub proof fn fee_is_five_percent_rounded_down(price: u64)
    ensures
        spec_fee(price) * 100 <= price * 5 < spec_fee(price) * 100 + 100,
        0 <= spec_fee(price),
{
}

// ---------------- tickets at the door ----------------

/// Any validator listed for the event, at any position, lets in an activated, unused
/// ticket within the activation window: the ticket becomes used and the validation
/// names the event, the validator and the time.
pub proof fn listed_validator_admits_fresh_ticket(
    event: EventNFT,
    event_key: Pubkey,
    ticket_status: TicketStatus,
    validator: Pubkey,
    now: i64,
)
    requires
        event.validators@.contains(validator),
        ticket_status.activated,
        !ticket_status.used,
        now - ticket_status.activation_timestamp <= 300,
    ensures
        spec_validate_ticket(event, event_key, ticket_status, validator, now) == (
            TicketStatus { used: true, ..ticket_status },
            Ok::<TicketValidated, ErrorCode>(
                TicketValidated { event: event_key, validator: validator, timestamp: now },
            ),
        ),
{
}

/// The door refuses callers not listed as validators, tickets not activated, and
/// activations older than five minutes, which it switches off; none of these uses the ticket.
pub proof fn door_refusals(
    event: EventNFT,
    event_key: Pubkey,
    ticket_status: TicketStatus,
    validator: Pubkey,
    now: i64,
)
    ensures
        !event.validators@.contains(validator) ==> spec_validate_ticket(
            event,
            event_key,
            ticket_status,
            validator,
            now,
        ) == (ticket_status, Err::<TicketValidated, ErrorCode>(ErrorCode::NotValidator)),
        event.validators@.contains(validator) && !ticket_status.activated ==> spec_validate_ticket(
            event,
            event_key,
            ticket_status,
            validator,
            now,
        ) == (ticket_status, Err::<TicketValidated, ErrorCode>(ErrorCode::TicketNotActivated)),
        event.validators@.contains(validator) && ticket_status.activated && now
            - ticket_status.activation_timestamp > 300 ==> spec_validate_ticket(
            event,
            event_key,
            ticket_status,
            validator,
            now,
        ) == (
            TicketStatus { activated: false, ..ticket_status },
            Err::<TicketValidated, ErrorCode>(ErrorCode::TicketActivationExpired),
        ),
        spec_validate_ticket(event, event_key, ticket_status, validator, now).1 is Err ==> spec_validate_ticket(
            event,
            event_key,
            ticket_status,
            validator,
            now,
        ).0.used == ticket_status.used,
{
}

} // verus!
