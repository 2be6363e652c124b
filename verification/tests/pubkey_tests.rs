use invilink::pubkey::{contains_key, copy_keys, find_key, Pubkey};
use invilink::tickets::check_ticket_purchase;
use invilink::state::{EventNFT, SeatingMap, SeatingSectionAccount};
use invilink::error::ErrorCode;

fn pk(n: u8) -> Pubkey {
    Pubkey::new_from_array([n; 32])
}

#[test]
fn same_as_compares_every_byte() {
    let mut bytes = [4u8; 32];
    assert!(pk(4).same_as(&Pubkey::new_from_array(bytes)));
    bytes[31] = 5;
    assert!(!pk(4).same_as(&Pubkey::new_from_array(bytes)));
    bytes[31] = 4;
    bytes[0] = 0;
    assert!(!pk(4).same_as(&Pubkey::new_from_array(bytes)));
}

#[test]
fn zeroed_key_is_all_zero() {
    assert_eq!(Pubkey::zeroed().to_bytes(), [0u8; 32]);
    assert_eq!(pk(6).to_bytes(), [6u8; 32]);
}

#[test]
fn find_key_gives_first_occurrence() {
    let keys = vec![pk(1), pk(2), pk(3), pk(2)];
    assert_eq!(find_key(&keys, &pk(2)), Some(1));
    assert_eq!(find_key(&keys, &pk(1)), Some(0));
    assert_eq!(find_key(&keys, &pk(9)), None);
    assert_eq!(find_key(&vec![], &pk(9)), None);
    assert!(contains_key(&keys, &pk(3)));
    assert!(!contains_key(&keys, &pk(4)));
}

#[test]
fn copy_keys_keeps_order() {
    let keys = vec![pk(3), pk(1), pk(3)];
    assert_eq!(copy_keys(&keys), keys);
}

#[test]
fn purchase_check_gives_seat_place() {
    let event = EventNFT {
        event_id: "e".to_string(),
        organizer: pk(3),
        name: "n".to_string(),
        event_date: 10,
        ticket_price: 0,
        available_tickets: 4,
        sold_tickets: 0,
        seating_type: 1,
        active: true,
        validators: vec![],
    };
    let map = SeatingMap { event_id: "e".to_string(), organizer: pk(3), active: false, sections: vec![], total_seats: 4 };
    let section = SeatingSectionAccount {
        event_id: "e".to_string(),
        section_name: "s".to_string(),
        section_type: 0,
        rows: 2,
        seats_per_row: 2,
        ticket_price: 7,
        seat_status: vec![0, 0, 1, 0],
    };
    let id = "e".to_string();
    assert_eq!(check_ticket_purchase(&event, &map, &section, 7, 0, &id, 1, 1), Ok(3));
    assert_eq!(check_ticket_purchase(&event, &map, &section, 7, 0, &id, 1, 0), Err(ErrorCode::SeatAlreadyTaken));
    assert_eq!(check_ticket_purchase(&event, &map, &section, 6, 0, &id, 0, 1), Err(ErrorCode::InsufficientFunds));
}
