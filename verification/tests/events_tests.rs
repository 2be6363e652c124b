use invilink::error::ErrorCode;
use invilink::events::{
    activate_event, add_validator, create_event_seating, deactivate_event, delete_event,
    initialize_event_registry, update_event, update_event_seating_type,
};
use invilink::ids::generate_event_id;
use invilink::organizers::add_organizer;
use invilink::pubkey::{master_account, Pubkey};
use invilink::state::{EventNFT, EventRegistry, OrganizersPool, SeatingMap};

fn ev_key(n: u8) -> Pubkey {
    Pubkey::new_from_array([n; 32])
}

fn blank_event() -> EventNFT {
    EventNFT {
        event_id: String::new(),
        organizer: Pubkey::zeroed(),
        name: String::new(),
        event_date: 0,
        ticket_price: 0,
        available_tickets: 0,
        sold_tickets: 0,
        seating_type: 0,
        active: false,
        validators: vec![],
    }
}

fn blank_map() -> SeatingMap {
    SeatingMap { event_id: String::new(), organizer: Pubkey::zeroed(), active: false, sections: vec![], total_seats: 0 }
}

fn pool_with(organizer: Pubkey) -> OrganizersPool {
    let mut pool = OrganizersPool { organizers: vec![] };
    add_organizer(&mut pool, master_account(), organizer).unwrap();
    pool
}

fn empty_registry() -> EventRegistry {
    let mut registry = EventRegistry { event_count: 7, events: vec![ev_key(1)] };
    initialize_event_registry(&mut registry).unwrap();
    registry
}

fn created(organizer: Pubkey, key: Pubkey, registry: &mut EventRegistry) -> EventNFT {
    let pool = pool_with(organizer);
    let mut event = blank_event();
    let mut map = blank_map();
    let id = generate_event_id("Gala", 2_000, &organizer);
    create_event_seating(&mut event, &mut map, &pool, registry, organizer, key, 1_000, id, "Gala".to_string(), 2_000, 100)
        .unwrap();
    event
}

#[test]
fn initialize_registry_empties_it() {
    let registry = empty_registry();
    assert_eq!(registry.event_count, 0);
    assert!(registry.events.is_empty());
}

#[test]
fn create_event_sets_up_event_map_and_registry() {
    let organizer = ev_key(3);
    let pool = pool_with(organizer);
    let mut event = blank_event();
    event.ticket_price = 42;
    let mut map = blank_map();
    let mut registry = empty_registry();
    let id = generate_event_id("Gala", 2_000, &organizer);
    let result = create_event_seating(
        &mut event, &mut map, &pool, &mut registry, organizer, ev_key(50), 1_000, id.clone(), "Gala".to_string(), 2_000, 100,
    );
    assert_eq!(result, Ok(()));
    assert_eq!(event.event_id, id);
    assert_eq!(event.organizer, organizer);
    assert_eq!(event.name, "Gala");
    assert_eq!(event.event_date, 2_000);
    assert_eq!(event.ticket_price, 42);
    assert_eq!(event.available_tickets, 100);
    assert_eq!(event.sold_tickets, 0);
    assert_eq!(event.seating_type, 1);
    assert!(!event.active);
    assert!(event.validators.is_empty());
    assert_eq!(map.event_id, id);
    assert_eq!(map.organizer, organizer);
    assert!(map.sections.is_empty());
    assert_eq!(map.total_seats, 0);
    assert_eq!(registry.events, vec![ev_key(50)]);
    assert_eq!(registry.event_count, 1);
}

#[test]
fn create_event_refusals_in_order() {
    let organizer = ev_key(3);
    let pool = pool_with(organizer);
    let id = generate_event_id("Gala", 2_000, &organizer);
    let cases = vec![
        (ev_key(4), 2_000, 100, id.clone(), ErrorCode::Unauthorized),
        (organizer, 1_000, 100, id.clone(), ErrorCode::InvalidEventDate),
        (organizer, 2_000, 0, id.clone(), ErrorCode::InvalidTicketQuantity),
        (organizer, 2_000, 100, "wrong-id".to_string(), ErrorCode::InvalidEventId),
    ];
    for (who, date, tickets, event_id, expected) in cases {
        let mut event = blank_event();
        let mut map = blank_map();
        let mut registry = empty_registry();
        let result = create_event_seating(
            &mut event, &mut map, &pool, &mut registry, who, ev_key(50), 1_000, event_id, "Gala".to_string(), date, tickets,
        );
        assert_eq!(result, Err(expected));
        assert_eq!(event, blank_event());
        assert_eq!(map, blank_map());
        assert_eq!(registry, empty_registry());
    }
}

#[test]
fn registry_count_follows_list_length() {
    let organizer = ev_key(3);
    let mut registry = EventRegistry { event_count: 1, events: vec![ev_key(20), Pubkey::zeroed()] };
    created(organizer, ev_key(21), &mut registry);
    assert_eq!(registry.events, vec![ev_key(20), Pubkey::zeroed(), ev_key(21)]);
    assert_eq!(registry.event_count, 3);
}

#[test]
fn update_event_changes_fields() {
    let organizer = ev_key(3);
    let mut registry = empty_registry();
    let mut event = created(organizer, ev_key(50), &mut registry);
    event.sold_tickets = 10;
    assert_eq!(update_event(&mut event, organizer, 1_500, Some("Bal".to_string()), Some(3_000), Some(10)), Ok(()));
    assert_eq!(event.name, "Bal");
    assert_eq!(event.event_date, 3_000);
    assert_eq!(event.available_tickets, 10);
    assert_eq!(update_event(&mut event, organizer, 1_500, None, None, None), Ok(()));
    assert_eq!(event.name, "Bal");
}

#[test]
fn update_event_refusals() {
    let organizer = ev_key(3);
    let mut registry = empty_registry();
    let mut event = created(organizer, ev_key(50), &mut registry);
    event.sold_tickets = 10;
    assert_eq!(update_event(&mut event, ev_key(4), 0, None, None, None), Err(ErrorCode::Unauthorized));
    let before = event.clone();
    assert_eq!(update_event(&mut event, organizer, 5_000, None, Some(5_000), None), Err(ErrorCode::InvalidEventDate));
    assert_eq!(event, before);
    assert_eq!(update_event(&mut event, organizer, 0, None, None, Some(9)), Err(ErrorCode::InvalidTicketQuantity));
    assert_eq!(event, before);
    // a refused date leaves the new name in place
    assert_eq!(
        update_event(&mut event, organizer, 5_000, Some("Later".to_string()), Some(4_000), None),
        Err(ErrorCode::InvalidEventDate)
    );
    assert_eq!(event.name, "Later");
    assert_eq!(event.event_date, before.event_date);
    event.active = true;
    assert_eq!(update_event(&mut event, organizer, 0, None, None, None), Err(ErrorCode::EventIsActive));
}

#[test]
fn seating_type_changes() {
    let mut event = blank_event();
    event.seating_type = 0;
    assert_eq!(update_event_seating_type(&mut event, 7), Ok(()));
    assert_eq!(event.seating_type, 1);
    event.sold_tickets = 1;
    assert_eq!(update_event_seating_type(&mut event, 1), Ok(()));
    assert_eq!(update_event_seating_type(&mut event, 2), Err(ErrorCode::CannotChangeSeatingType));
    event.seating_type = 2;
    assert_eq!(update_event_seating_type(&mut event, 1), Err(ErrorCode::CannotChangeSeatingType));
    assert_eq!(event.seating_type, 2);
}

#[test]
fn activate_and_deactivate() {
    let organizer = ev_key(3);
    let mut registry = empty_registry();
    let mut event = created(organizer, ev_key(50), &mut registry);
    let before = event.clone();
    assert_eq!(deactivate_event(&mut event, organizer), Err(ErrorCode::EventNotActive));
    assert_eq!(activate_event(&mut event, ev_key(4)), Err(ErrorCode::Unauthorized));
    assert_eq!(activate_event(&mut event, organizer), Ok(()));
    assert!(event.active);
    assert_eq!(activate_event(&mut event, organizer), Err(ErrorCode::EventIsActive));
    assert_eq!(deactivate_event(&mut event, ev_key(4)), Err(ErrorCode::Unauthorized));
    assert_eq!(deactivate_event(&mut event, organizer), Ok(()));
    assert_eq!(event, before);
}

#[test]
fn event_with_sales_cannot_be_deactivated() {
    let organizer = ev_key(3);
    let mut registry = empty_registry();
    let mut event = created(organizer, ev_key(50), &mut registry);
    activate_event(&mut event, organizer).unwrap();
    event.sold_tickets = 1;
    assert_eq!(deactivate_event(&mut event, organizer), Err(ErrorCode::EventCannotDeactivate));
    assert!(event.active);
}

#[test]
fn validators_are_added_once() {
    let organizer = ev_key(3);
    let mut event = blank_event();
    event.organizer = organizer;
    assert_eq!(add_validator(&mut event, organizer, ev_key(8)), Ok(()));
    assert_eq!(add_validator(&mut event, organizer, ev_key(8)), Err(ErrorCode::ValidatorAlreadyAdded));
    assert_eq!(add_validator(&mut event, ev_key(4), ev_key(9)), Err(ErrorCode::Unauthorized));
    assert_eq!(event.validators, vec![ev_key(8)]);
}

#[test]
fn delete_event_shifts_live_entries() {
    let organizer = ev_key(3);
    let mut event = blank_event();
    event.organizer = organizer;
    let mut registry = EventRegistry { event_count: 3, events: vec![ev_key(10), ev_key(11), ev_key(12), ev_key(13)] };
    assert_eq!(delete_event(&event, &mut registry, organizer, ev_key(10)), Ok(()));
    assert_eq!(registry.events, vec![ev_key(11), ev_key(12), Pubkey::zeroed(), ev_key(13)]);
    assert_eq!(registry.event_count, 2);
    assert_eq!(delete_event(&event, &mut registry, organizer, ev_key(12)), Ok(()));
    assert_eq!(registry.events, vec![ev_key(11), Pubkey::zeroed(), Pubkey::zeroed(), ev_key(13)]);
    assert_eq!(registry.event_count, 1);
}

#[test]
fn delete_event_refusals() {
    let organizer = ev_key(3);
    let mut event = blank_event();
    event.organizer = organizer;
    let mut registry = EventRegistry { event_count: 1, events: vec![ev_key(10)] };
    assert_eq!(delete_event(&event, &mut registry, ev_key(4), ev_key(10)), Err(ErrorCode::Unauthorized));
    assert_eq!(delete_event(&event, &mut registry, organizer, ev_key(11)), Err(ErrorCode::InvalidTicket));
    assert_eq!(registry, EventRegistry { event_count: 1, events: vec![ev_key(10)] });
}

#[test]
fn delete_of_entry_past_count_clears_last_live_place() {
    let organizer = ev_key(3);
    let mut event = blank_event();
    event.organizer = organizer;
    let mut registry = EventRegistry { event_count: 2, events: vec![ev_key(10), ev_key(11), ev_key(12)] };
    assert_eq!(delete_event(&event, &mut registry, organizer, ev_key(12)), Ok(()));
    assert_eq!(registry.events, vec![ev_key(10), Pubkey::zeroed(), ev_key(12)]);
    assert_eq!(registry.event_count, 1);
}
