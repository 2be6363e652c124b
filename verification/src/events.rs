use vstd::prelude::*;
use vstd::utf8::encode_utf8;

use crate::error::ErrorCode;
use crate::ids::{generate_event_id, max_event_name_bytes, spec_event_id};
use crate::pubkey::{contains_key, find_key, Pubkey};
use crate::state::{EventNFT, EventRegistry, OrganizersPool, SeatingMap};

verus! {

impl EventRegistry {
    /// The count of live events never exceeds the length of the list.
    pub open spec fn wf(self) -> bool {
        self.event_count <= self.events@.len()
    }
}

/// Empties the registry of events.
pub fn initialize_event_registry(registry: &mut EventRegistry) -> (result: Result<(), ErrorCode>)
    ensures
        result is Ok,
        final(registry).event_count == 0,
        final(registry).events@ == Seq::<Pubkey>::empty(),
{
    registry.event_count = 0;
    registry.events = Vec::new();
    Ok(())
}

/// Whether a new event passes the checks before its identifier is derived.
pub open spec fn create_event_prechecks_pass(
    pool: OrganizersPool,
    organizer: Pubkey,
    now: i64,
    event_date: i64,
    available_tickets: u64,
) -> bool {
    &&& pool.organizers@.contains(organizer)
    &&& event_date > now
    &&& available_tickets > 0
}

/// Why `create_event_seating` refuses, if it does: the creator must be a registered
/// organizer, the date must lie after `now`, some tickets must be on offer, and the
/// identifier must be the one derived from the name, the date and the organizer.
pub open spec fn create_event_error(
    pool: OrganizersPool,
    organizer: Pubkey,
    now: i64,
    event_id: Seq<char>,
    name: Seq<char>,
    event_date: i64,
    available_tickets: u64,
) -> Option<ErrorCode> {
    if !pool.organizers@.contains(organizer) {
        Some(ErrorCode::Unauthorized)
    } else if !(event_date > now) {
        Some(ErrorCode::InvalidEventDate)
    } else if available_tickets == 0 {
        Some(ErrorCode::InvalidTicketQuantity)
    } else if event_id != spec_event_id(encode_utf8(name), event_date, organizer) {
        Some(ErrorCode::InvalidEventId)
    } else {
        None
    }
}

/// Creates an event, not yet active, with an empty seating map, and appends its
/// address `event_key` to the registry, whose count becomes the list's length.
/// `now` is the current time.
pub fn create_event_seating(
    event: &mut EventNFT,
    seating_map: &mut SeatingMap,
    organizers_pool: &OrganizersPool,
    registry: &mut EventRegistry,
    organizer: Pubkey,
    event_key: Pubkey,
    now: i64,
    event_id: String,
    name: String,
    event_date: i64,
    available_tickets: u64,
) -> (result: Result<(), ErrorCode>)
    requires
        create_event_prechecks_pass(*organizers_pool, organizer, now, event_date, available_tickets)
            ==> encode_utf8(name@).len() <= max_event_name_bytes(),
    ensures
        match create_event_error(
            *organizers_pool,
            organizer,
            now,
            event_id@,
            name@,
            event_date,
            available_tickets,
        ) {
            Some(e) => {
                &&& result == Err::<(), ErrorCode>(e)
                &&& *final(event) == *old(event)
                &&& *final(seating_map) == *old(seating_map)
                &&& *final(registry) == *old(registry)
            },
            None => {
                &&& result is Ok
                &&& *final(event) == (EventNFT {
                    event_id: event_id,
                    organizer: organizer,
                    name: name,
                    event_date: event_date,
                    ticket_price: old(event).ticket_price,
                    available_tickets: available_tickets,
                    sold_tickets: 0,
                    seating_type: 1,
                    active: false,
                    validators: final(event).validators,
                })
                &&& final(event).validators@ == Seq::<Pubkey>::empty()
                &&& *final(seating_map) == (SeatingMap {
                    event_id: event_id,
                    organizer: organizer,
                    active: old(seating_map).active,
                    sections: final(seating_map).sections,
                    total_seats: 0,
                })
                &&& final(seating_map).sections@ == Seq::<Pubkey>::empty()
                &&& final(registry).events@ == old(registry).events@.push(event_key)
                &&& final(registry).event_count == (old(registry).events@.len() + 1) as u32
            },
        },
{
    if !contains_key(&organizers_pool.organizers, &organizer) {
        return Err(ErrorCode::Unauthorized);
    }
    if !(event_date > now) {
        return Err(ErrorCode::InvalidEventDate);
    }
    if !(available_tickets > 0) {
        return Err(ErrorCode::InvalidTicketQuantity);
    }
    let expected_event_id = generate_event_id(name.as_str(), event_date, &organizer);
    if !(event_id == expected_event_id) {
        return Err(ErrorCode::InvalidEventId);
    }
    event.event_id = event_id.clone();
    event.organizer = organizer;
    event.name = name.clone();
    event.event_date = event_date;
    event.available_tickets = available_tickets;
    event.sold_tickets = 0;
    event.seating_type = 1;
    event.active = false;
    event.validators = Vec::new();

    seating_map.event_id = event.event_id.clone();
    seating_map.organizer = event.organizer;
    seating_map.sections = Vec::new();
    seating_map.total_seats = 0;

    registry.events.push(event_key);
    registry.event_count = registry.events.len() as u32;
    Ok(())
}

/// What `update_event` leaves in the event and returns: after the organizer and
/// inactivity checks, the new name is set, then the new date (which must lie after
/// `now`), then the new ticket supply (which may not fall below the tickets sold);
/// a refused date or supply leaves the earlier changes in place.
pub open spec fn spec_update_event(
    event: EventNFT,
    organizer: Pubkey,
    now: i64,
    new_name: Option<String>,
    new_date: Option<i64>,
    new_available_tickets: Option<u64>,
) -> (EventNFT, Result<(), ErrorCode>) {
    if organizer != event.organizer {
        (event, Err(ErrorCode::Unauthorized))
    } else if event.active {
        (event, Err(ErrorCode::EventIsActive))
    } else {
        let named = match new_name {
            Some(n) => EventNFT { name: n, ..event },
            None => event,
        };
        if new_date matches Some(d) && !(d > now) {
            (named, Err(ErrorCode::InvalidEventDate))
        } else {
            let dated = match new_date {
                Some(d) => EventNFT { event_date: d, ..named },
                None => named,
            };
            match new_available_tickets {
                Some(a) => if a < dated.sold_tickets {
                    (dated, Err(ErrorCode::InvalidTicketQuantity))
                } else {
                    (EventNFT { available_tickets: a, ..dated }, Ok(()))
                },
                None => (dated, Ok(())),
            }
        }
    }
}

/// Changes the name, the date or the ticket supply of an inactive event.
pub fn update_event(
    event: &mut EventNFT,
    organizer: Pubkey,
    now: i64,
    new_name: Option<String>,
    new_date: Option<i64>,
    new_available_tickets: Option<u64>,
) -> (result: Result<(), ErrorCode>)
    ensures
        (*final(event), result) == spec_update_event(
            *old(event),
            organizer,
            now,
            new_name,
            new_date,
            new_available_tickets,
        ),
{
    if !event.organizer.same_as(&organizer) {
        return Err(ErrorCode::Unauthorized);
    }
    if event.active {
        return Err(ErrorCode::EventIsActive);
    }
    if let Some(name) = new_name {
        event.name = name;
    }
    if let Some(date) = new_date {
        if !(date > now) {
            return Err(ErrorCode::InvalidEventDate);
        }
        event.event_date = date;
    }
    if let Some(available) = new_available_tickets {
        if !(available >= event.sold_tickets) {
            return Err(ErrorCode::InvalidTicketQuantity);
        }
        event.available_tickets = available;
    }
    Ok(())
}

/// Sets the seating type to numbered (1). Once tickets are sold, the only change
/// accepted is from numbered to numbered.
pub fn update_event_seating_type(event: &mut EventNFT, new_seating_type: u8) -> (result: Result<(), ErrorCode>)
    ensures
        if old(event).sold_tickets > 0 && !(old(event).seating_type == 1 && new_seating_type == 1) {
            result == Err::<(), ErrorCode>(ErrorCode::CannotChangeSeatingType) && *final(event) == *old(event)
        } else {
            result is Ok && *final(event) == (EventNFT { seating_type: 1, ..*old(event) })
        },
{
    if event.sold_tickets > 0 {
        if event.seating_type == 1 && new_seating_type == 1 {
        } else {
            return Err(ErrorCode::CannotChangeSeatingType);
        }
    }
    event.seating_type = 1;
    Ok(())
}

/// Why `activate_event` refuses, if it does.
pub open spec fn activate_event_error(event: EventNFT, organizer: Pubkey) -> Option<ErrorCode> {
    if organizer != event.organizer {
        Some(ErrorCode::Unauthorized)
    } else if event.active {
        Some(ErrorCode::EventIsActive)
    } else {
        None
    }
}

/// Opens an inactive event to ticket sales, at its organizer's request.
pub fn activate_event(event: &mut EventNFT, organizer: Pubkey) -> (result: Result<(), ErrorCode>)
    ensures
        match activate_event_error(*old(event), organizer) {
            Some(e) => result == Err::<(), ErrorCode>(e) && *final(event) == *old(event),
            None => result is Ok && *final(event) == (EventNFT { active: true, ..*old(event) }),
        },
{
    if !event.organizer.same_as(&organizer) {
        return Err(ErrorCode::Unauthorized);
    }
    if event.active {
        return Err(ErrorCode::EventIsActive);
    }
    event.active = true;
    Ok(())
}

/// Why `deactivate_event` refuses, if it does: an event with tickets sold stays active.
pub open spec fn deactivate_event_error(event: EventNFT, organizer: Pubkey) -> Option<ErrorCode> {
    if organizer != event.organizer {
        Some(ErrorCode::Unauthorized)
    } else if !event.active {
        Some(ErrorCode::EventNotActive)
    } else if event.sold_tickets != 0 {
        Some(ErrorCode::EventCannotDeactivate)
    } else {
        None
    }
}

/// Closes an active event that has sold no ticket, at its organizer's request.
pub fn deactivate_event(event: &mut EventNFT, organizer: Pubkey) -> (result: Result<(), ErrorCode>)
    ensures
        match deactivate_event_error(*old(event), organizer) {
            Some(e) => result == Err::<(), ErrorCode>(e) && *final(event) == *old(event),
            None => result is Ok && *final(event) == (EventNFT { active: false, ..*old(event) }),
        },
{
    if !event.organizer.same_as(&organizer) {
        return Err(ErrorCode::Unauthorized);
    }
    if !event.active {
        return Err(ErrorCode::EventNotActive);
    }
    if !(event.sold_tickets == 0) {
        return Err(ErrorCode::EventCannotDeactivate);
    }
    event.active = false;
    Ok(())
}

/// Why `add_validator` refuses, if it does.
pub open spec fn add_validator_error(event: EventNFT, organizer: Pubkey, validator: Pubkey) -> Option<ErrorCode> {
    if organizer != event.organizer {
        Some(ErrorCode::Unauthorized)
    } else if event.validators@.contains(validator) {
        Some(ErrorCode::ValidatorAlreadyAdded)
    } else {
        None
    }
}

/// Lets `validator` check tickets of the event, at the organizer's request.
pub fn add_validator(event: &mut EventNFT, organizer: Pubkey, validator: Pubkey) -> (result: Result<(), ErrorCode>)
    ensures
        match add_validator_error(*old(event), organizer, validator) {
            Some(e) => result == Err::<(), ErrorCode>(e) && *final(event) == *old(event),
            None => {
                &&& result is Ok
                &&& *final(event) == (EventNFT { validators: final(event).validators, ..*old(event) })
                &&& final(event).validators@ == old(event).validators@.push(validator)
            },
        },
{
    if !event.organizer.same_as(&organizer) {
        return Err(ErrorCode::Unauthorized);
    }
    if contains_key(&event.validators, &validator) {
        return Err(ErrorCode::ValidatorAlreadyAdded);
    }
    event.validators.push(validator);
    Ok(())
}

/// The registry's list after the event at `pos` is taken out of the first `count`
/// entries: the later live entries move down one place, the last live place gets the
/// zero address, and the entries past the count stay as they were.
pub open spec fn spec_events_after_delete(events: Seq<Pubkey>, pos: int, count: int) -> Seq<Pubkey> {
    Seq::new(
        events.len(),
        |i: int|
            if pos <= i < count - 1 {
                events[i + 1]
            } else if i == count - 1 {
                Pubkey::spec_zeroed()
            } else {
                events[i]
            },
    )
}

/// Why `delete_event` refuses, if it does.
pub open spec fn delete_event_error(
    event: EventNFT,
    registry: EventRegistry,
    organizer: Pubkey,
    event_key: Pubkey,
) -> Option<ErrorCode> {
    if organizer != event.organizer {
        Some(ErrorCode::Unauthorized)
    } else if !registry.events@.contains(event_key) {
        Some(ErrorCode::InvalidTicket)
    } else {
        None
    }
}

/// Takes the event at address `event_key` out of the registry, at its organizer's request.
pub fn delete_event(
    event: &EventNFT,
    registry: &mut EventRegistry,
    organizer: Pubkey,
    event_key: Pubkey,
) -> (result: Result<(), ErrorCode>)
    requires
        delete_event_error(*event, *old(registry), organizer, event_key) is None ==> {
            &&& 1 <= old(registry).event_count
            &&& old(registry).event_count <= old(registry).events@.len()
        },
    ensures
        match delete_event_error(*event, *old(registry), organizer, event_key) {
            Some(e) => result == Err::<(), ErrorCode>(e) && *final(registry) == *old(registry),
            None => {
                &&& result is Ok
                &&& final(registry).event_count == old(registry).event_count - 1
                &&& final(registry).events@ == spec_events_after_delete(
                    old(registry).events@,
                    old(registry).events@.index_of_first(event_key).unwrap(),
                    old(registry).event_count as int,
                )
            },
        },
{
    if !event.organizer.same_as(&organizer) {
        return Err(ErrorCode::Unauthorized);
    }
    let pos = match find_key(&registry.events, &event_key) {
        Some(p) => p,
        None => {
            return Err(ErrorCode::InvalidTicket);
        },
    };
    let count = registry.event_count as usize;
    let ghost old_events = registry.events@;
    let mut i: usize = pos;
    while i < count - 1
        invariant
            count == old(registry).event_count,
            registry.event_count == old(registry).event_count,
            1 <= count <= old_events.len(),
            registry.events@.len() == old_events.len(),
            pos <= i,
            i <= count - 1 || i == pos,
            forall|j: int|
                0 <= j < registry.events@.len() ==> #[trigger] registry.events@[j] == if pos <= j < i {
                    old_events[j + 1]
                } else {
                    old_events[j]
                },
        decreases count - 1 - i,
    {
        let next = registry.events[i + 1];
        assert(next == old_events[i + 1]);
        registry.events.set(i, next);
        i = i + 1;
    }
    registry.events.set(count - 1, Pubkey::zeroed());
    registry.event_count = registry.event_count - 1;
    assert(registry.events@ =~= spec_events_after_delete(old_events, pos as int, count as int));
    Ok(())
}

} // verus!
