use invilink::error::ErrorCode;
use invilink::ids::generate_ticket_id;
use invilink::pubkey::{master_account, Pubkey};
use invilink::state::{EventNFT, SeatingMap, SeatingSectionAccount, TicketStatus, TicketValidated};
use invilink::tickets::{
    activate_ticket, initialize_ticket_status, mint_ticket_nft, record_ticket_sale, validate_ticket, FEE_PERCENTAGE,
};

fn t_key(n: u8) -> Pubkey {
    Pubkey::new_from_array([n; 32])
}

fn live_event() -> EventNFT {
    EventNFT {
        event_id: "abcdefghijkl".to_string(),
        organizer: t_key(3),
        name: "Concert".to_string(),
        event_date: 100_000,
        ticket_price: 0,
        available_tickets: 100,
        sold_tickets: 0,
        seating_type: 1,
        active: true,
        validators: vec![t_key(8)],
    }
}

fn live_map() -> SeatingMap {
    SeatingMap {
        event_id: "abcdefghijkl".to_string(),
        organizer: t_key(3),
        active: false,
        sections: vec![t_key(40)],
        total_seats: 6,
    }
}

fn live_section() -> SeatingSectionAccount {
    SeatingSectionAccount {
        event_id: "abcdefghijkl".to_string(),
        section_name: "VIP".to_string(),
        section_type: 0,
        rows: 2,
        seats_per_row: 3,
        ticket_price: 1_000,
        seat_status: vec![0; 6],
    }
}

fn buy(
    event: &EventNFT,
    section: &SeatingSectionAccount,
    lamports: u64,
    now: i64,
    event_id: &str,
    row: u8,
    seat: u8,
) -> Result<invilink::tickets::TicketPurchase, ErrorCode> {
    mint_ticket_nft(
        event,
        &live_map(),
        section,
        t_key(9),
        lamports,
        now,
        event_id.to_string(),
        "Concert".to_string(),
        "VIP".to_string(),
        row,
        seat,
        "ipfs://ticket".to_string(),
    )
}

#[test]
fn purchase_plan_splits_price_and_names_ticket() {
    let plan = buy(&live_event(), &live_section(), 5_000, 50_000, "abcdefghijkl", 1, 2).unwrap();
    assert_eq!(plan.seat_index, 5);
    assert_eq!(plan.price, 1_000);
    assert_eq!(plan.fee, 50);
    assert_eq!(plan.organizer_amount, 950);
    assert_eq!(plan.organizer_wallet, t_key(3));
    assert_eq!(plan.fee_account, master_account());
    assert_eq!(plan.ticket_id, generate_ticket_id(&t_key(9), "abcdefghijkl", "Concert", "VIP", 1, 2));
    assert_eq!(plan.metadata.name, "Invilink Ticket");
    assert_eq!(plan.metadata.symbol, "INVI");
    assert_eq!(plan.metadata.uri, "ipfs://ticket");
    assert_eq!(plan.metadata.seller_fee_basis_points, 500);
    assert_eq!(plan.metadata.creator, t_key(9));
    assert!(plan.metadata.creator_verified);
    assert_eq!(plan.metadata.creator_share, 100);
    assert_eq!(FEE_PERCENTAGE, 5);
}

#[test]
fn fee_rounds_down() {
    let mut section = live_section();
    section.ticket_price = 39;
    let plan = buy(&live_event(), &section, 39, 0, "abcdefghijkl", 0, 0).unwrap();
    assert_eq!(plan.fee, 1);
    assert_eq!(plan.organizer_amount, 38);
    section.ticket_price = 0;
    let plan = buy(&live_event(), &section, 0, 0, "abcdefghijkl", 0, 0).unwrap();
    assert_eq!((plan.fee, plan.organizer_amount), (0, 0));
}

#[test]
fn purchase_refusals() {
    let event = live_event();
    let section = live_section();
    assert_eq!(buy(&event, &section, 5_000, 0, "other", 0, 0), Err(ErrorCode::InvalidEventId));
    let mut inactive = live_event();
    inactive.active = false;
    assert_eq!(buy(&inactive, &section, 5_000, 0, "abcdefghijkl", 0, 0), Err(ErrorCode::EventNotActive));
    assert_eq!(buy(&event, &section, 5_000, 186_400, "abcdefghijkl", 0, 0), Err(ErrorCode::EventAlreadyOccurred));
    assert_eq!(buy(&event, &section, 5_000, 186_399, "abcdefghijkl", 0, 0).map(|p| p.seat_index), Ok(0));
    assert_eq!(buy(&event, &section, 5_000, 0, "abcdefghijkl", 2, 0), Err(ErrorCode::InvalidSeating));
    assert_eq!(buy(&event, &section, 5_000, 0, "abcdefghijkl", 0, 3), Err(ErrorCode::InvalidSeating));
    let mut short = live_section();
    short.seat_status = vec![0; 4];
    assert_eq!(buy(&event, &short, 5_000, 0, "abcdefghijkl", 1, 1), Err(ErrorCode::InvalidSeating));
    assert_eq!(buy(&event, &section, 999, 0, "abcdefghijkl", 0, 0), Err(ErrorCode::InsufficientFunds));
}

#[test]
fn seat_is_sold_once() {
    let mut event = live_event();
    let mut section = live_section();
    let plan = buy(&event, &section, 5_000, 0, "abcdefghijkl", 1, 0).unwrap();
    assert_eq!(record_ticket_sale(&mut section, &mut event, plan.seat_index), Ok(()));
    assert_eq!(section.seat_status, vec![0, 0, 0, 1, 0, 0]);
    assert_eq!(event.sold_tickets, 1);
    assert_eq!(buy(&event, &section, 5_000, 0, "abcdefghijkl", 1, 0), Err(ErrorCode::SeatAlreadyTaken));
    assert!(buy(&event, &section, 5_000, 0, "abcdefghijkl", 1, 1).is_ok());
}

#[test]
fn sale_count_overflow_is_refused_after_marking_seat() {
    let mut event = live_event();
    event.sold_tickets = u64::MAX;
    let mut section = live_section();
    assert_eq!(record_ticket_sale(&mut section, &mut event, 2), Err(ErrorCode::InvalidTicket));
    assert_eq!(section.seat_status[2], 1);
    assert_eq!(event.sold_tickets, u64::MAX);
}

#[test]
fn ticket_status_lifecycle() {
    let mut status = TicketStatus { event: t_key(1), used: true, activated: true, activation_timestamp: 5 };
    assert_eq!(initialize_ticket_status(&mut status, t_key(50)), Ok(()));
    assert_eq!(status, TicketStatus { event: t_key(50), used: false, activated: false, activation_timestamp: 0 });
    assert_eq!(activate_ticket(&mut status, 1_000), Ok(()));
    assert!(status.activated);
    assert_eq!(status.activation_timestamp, 1_000);
    let event = live_event();
    let validated = validate_ticket(&event, t_key(50), &mut status, t_key(8), 1_300);
    assert_eq!(validated, Ok(TicketValidated { event: t_key(50), validator: t_key(8), timestamp: 1_300 }));
    assert!(status.used);
    assert_eq!(validate_ticket(&event, t_key(50), &mut status, t_key(8), 1_300), Err(ErrorCode::TicketAlreadyUsed));
    assert_eq!(activate_ticket(&mut status, 2_000), Err(ErrorCode::TicketAlreadyUsed));
    assert_eq!(status.activation_timestamp, 1_000);
}

#[test]
fn validation_refusals() {
    let event = live_event();
    let mut status = TicketStatus { event: t_key(50), used: false, activated: false, activation_timestamp: 0 };
    assert_eq!(validate_ticket(&event, t_key(50), &mut status, t_key(7), 0), Err(ErrorCode::NotValidator));
    assert_eq!(validate_ticket(&event, t_key(50), &mut status, t_key(8), 0), Err(ErrorCode::TicketNotActivated));
    activate_ticket(&mut status, 1_000).unwrap();
    assert_eq!(validate_ticket(&event, t_key(50), &mut status, t_key(8), 1_301), Err(ErrorCode::TicketActivationExpired));
    assert!(!status.activated);
    assert!(!status.used);
}
