use vstd::prelude::*;
use vstd::string::*;
use vstd::utf8::encode_utf8;

use crate::error::ErrorCode;
use crate::ids::{generate_ticket_id, max_ticket_names_bytes, spec_ticket_id};
use crate::pubkey::{contains_key, master_account, spec_master_account, Pubkey};
use crate::state::{EventNFT, SeatingMap, SeatingSectionAccount, TicketStatus, TicketValidated};

verus! {

/// The platform's share of a ticket's price, in percent.
pub const FEE_PERCENTAGE: u64 = 5;

/// How long after the event's date tickets stay on sale, in seconds.
pub const SALE_GRACE_SECONDS: i64 = 86400;

/// How long an activated ticket may wait at the door, in seconds.
pub const ACTIVATION_WINDOW_SECONDS: i64 = 300;

/// The metadata given to the token that stands for a ticket.
#[derive(Clone, Debug, PartialEq, Eq)]
pub struct TicketMetadata {
    pub name: String,
    pub symbol: String,
    pub uri: String,
    pub seller_fee_basis_points: u16,
    pub creator: Pubkey,
    pub creator_verified: bool,
    pub creator_share: u8,
}

/// A sale that has passed every check: the seat it takes, how the price is split
/// between the organizer and the platform, the ticket's identifier and its token metadata.
#[derive(Clone, Debug, PartialEq, Eq)]
pub struct TicketPurchase {
    pub seat_index: usize,
    pub price: u64,
    pub organizer_amount: u64,
    pub organizer_wallet: Pubkey,
    pub fee: u64,
    pub fee_account: Pubkey,
    pub ticket_id: String,
    pub metadata: TicketMetadata,
}

/// The platform's fee on a price.
pub open spec fn spec_fee(price: u64) -> int {
    price * FEE_PERCENTAGE / 100
}

/// The place of a seat in its section's list.
pub open spec fn spec_seat_index(section: SeatingSectionAccount, row: u8, seat: u8) -> int {
    row * section.seats_per_row + seat
}

/// Whether a sale passes the checks before the sale time is compared with the event's date.
pub open spec fn sale_opens(event: EventNFT, seating_map: SeatingMap, event_id: Seq<char>) -> bool {
    seating_map.event_id@ == event_id && event.active
}

/// Why `mint_ticket_nft` refuses a sale, if it does: the seating map must belong to
/// `event_id`, the event must be active, the sale must come less than a day after the
/// event's date, the seat must exist and be free, and the buyer must afford its price.
pub open spec fn purchase_error(
    event: EventNFT,
    seating_map: SeatingMap,
    section: SeatingSectionAccount,
    buyer_lamports: u64,
    now: i64,
    event_id: Seq<char>,
    row: u8,
    seat: u8,
) -> Option<ErrorCode> {
    if seating_map.event_id@ != event_id {
        Some(ErrorCode::InvalidEventId)
    } else if !event.active {
        Some(ErrorCode::EventNotActive)
    } else if !(now - SALE_GRACE_SECONDS < event.event_date) {
        Some(ErrorCode::EventAlreadyOccurred)
    } else if !(row < section.rows) || !(seat < section.seats_per_row) {
        Some(ErrorCode::InvalidSeating)
    } else if !(spec_seat_index(section, row, seat) < section.seat_status@.len()) {
        Some(ErrorCode::InvalidSeating)
    } else if section.seat_status@[spec_seat_index(section, row, seat)] != 0u8 {
        Some(ErrorCode::SeatAlreadyTaken)
    } else if buyer_lamports < section.ticket_price {
        Some(ErrorCode::InsufficientFunds)
    } else {
        None
    }
}

/// Runs the checks of a ticket sale for seat `seat` of row `row` at time `now`, in the
/// order the sale makes them; gives the seat's place in its section's list when all pass.
pub fn check_ticket_purchase(
    event: &EventNFT,
    seating_map: &SeatingMap,
    seating_section: &SeatingSectionAccount,
    buyer_lamports: u64,
    now: i64,
    event_id: &String,
    row: u8,
    seat: u8,
) -> (result: Result<usize, ErrorCode>)
    requires
        sale_opens(*event, *seating_map, event_id@) ==> now >= i64::MIN + SALE_GRACE_SECONDS,
    ensures
        match purchase_error(*event, *seating_map, *seating_section, buyer_lamports, now, event_id@, row, seat) {
            Some(e) => result == Err::<usize, ErrorCode>(e),
            None => result matches Ok(index) && index == spec_seat_index(*seating_section, row, seat),
        },
{
    if !(seating_map.event_id == *event_id) {
        return Err(ErrorCode::InvalidEventId);
    }
    if !event.active {
        return Err(ErrorCode::EventNotActive);
    }
    let adjusted_timestamp = now - SALE_GRACE_SECONDS;
    if !(adjusted_timestamp < event.event_date) {
        return Err(ErrorCode::EventAlreadyOccurred);
    }
    if !((row as usize) < (seating_section.rows as usize)) {
        return Err(ErrorCode::InvalidSeating);
    }
    if !((seat as usize) < (seating_section.seats_per_row as usize)) {
        return Err(ErrorCode::InvalidSeating);
    }
    proof {
        assert(row * seating_section.seats_per_row <= 255 * 255) by (nonlinear_arith)
            requires
                row <= 255,
                seating_section.seats_per_row <= 255,
                0 <= row,
                0 <= seating_section.seats_per_row,
        ;
    }
    let seat_index = (row as usize) * (seating_section.seats_per_row as usize) + (seat as usize);
    if !(seat_index < seating_section.seat_status.len()) {
        return Err(ErrorCode::InvalidSeating);
    }
    if !(seating_section.seat_status[seat_index] == 0) {
        return Err(ErrorCode::SeatAlreadyTaken);
    }
    if buyer_lamports < seating_section.ticket_price {
        return Err(ErrorCode::InsufficientFunds);
    }
    Ok(seat_index)
}

/// Decides a ticket sale for seat `seat` of row `row`: runs every check of the sale and,
/// when all pass, says which seat is taken, what the organizer and the platform are paid,
/// and what identifier and metadata the ticket gets. `now` is the current time and
/// `buyer_lamports` the buyer's balance. Nothing is changed: the payments and the minting
/// happen outside, and `record_ticket_sale` then marks the seat.
pub fn mint_ticket_nft(
    event: &EventNFT,
    seating_map: &SeatingMap,
    seating_section: &SeatingSectionAccount,
    buyer: Pubkey,
    buyer_lamports: u64,
    now: i64,
    event_id: String,
    event_name: String,
    section_name: String,
    row: u8,
    seat: u8,
    ipfs_uri: String,
) -> (result: Result<TicketPurchase, ErrorCode>)
    requires
        sale_opens(*event, *seating_map, event_id@) ==> now >= i64::MIN + SALE_GRACE_SECONDS,
        purchase_error(*event, *seating_map, *seating_section, buyer_lamports, now, event_id@, row, seat) is None
            ==> {
            &&& seating_section.ticket_price * FEE_PERCENTAGE <= u64::MAX
            &&& encode_utf8(event_id@).len() + encode_utf8(event_name@).len() + encode_utf8(section_name@).len()
                <= max_ticket_names_bytes()
        },
    ensures
        match purchase_error(*event, *seating_map, *seating_section, buyer_lamports, now, event_id@, row, seat) {
            Some(e) => result == Err::<TicketPurchase, ErrorCode>(e),
            None => match result {
                Ok(purchase) => {
                    &&& purchase.seat_index == spec_seat_index(*seating_section, row, seat)
                    &&& purchase.price == seating_section.ticket_price
                    &&& purchase.fee == spec_fee(seating_section.ticket_price)
                    &&& purchase.organizer_amount == seating_section.ticket_price - spec_fee(seating_section.ticket_price)
                    &&& purchase.organizer_wallet == event.organizer
                    &&& purchase.fee_account == spec_master_account()
                    &&& purchase.ticket_id@ == spec_ticket_id(
                        buyer,
                        encode_utf8(event_id@),
                        encode_utf8(event_name@),
                        encode_utf8(section_name@),
                        row,
                        seat,
                    )
                    &&& purchase.metadata.name@ == "Invilink Ticket"@
                    &&& purchase.metadata.symbol@ == "INVI"@
                    &&& purchase.metadata.uri == ipfs_uri
                    &&& purchase.metadata.seller_fee_basis_points == 500
                    &&& purchase.metadata.creator == buyer
                    &&& purchase.metadata.creator_verified
                    &&& purchase.metadata.creator_share == 100
                },
                Err(_) => false,
            },
        },
{
    let seat_index = match check_ticket_purchase(
        event,
        seating_map,
        seating_section,
        buyer_lamports,
        now,
        &event_id,
        row,
        seat,
    ) {
        Ok(index) => index,
        Err(e) => {
            return Err(e);
        },
    };
    let price = seating_section.ticket_price;
    let fee = price * FEE_PERCENTAGE / 100;
    let organizer_amount = price - fee;
    let ticket_id = generate_ticket_id(
        &buyer,
        event_id.as_str(),
        event_name.as_str(),
        section_name.as_str(),
        row,
        seat,
    );
    let metadata = TicketMetadata {
        name: String::from_str("Invilink Ticket"),
        symbol: String::from_str("INVI"),
        uri: ipfs_uri,
        seller_fee_basis_points: 500,
        creator: buyer,
        creator_verified: true,
        creator_share: 100,
    };
    Ok(
        TicketPurchase {
            seat_index,
            price,
            organizer_amount,
            organizer_wallet: event.organizer,
            fee,
            fee_account: master_account(),
            ticket_id,
            metadata,
        },
    )
}

/// Marks seat `seat_index` as sold and counts the sale in the event. A count that
/// would overflow is refused once the seat is marked.
pub fn record_ticket_sale(
    seating_section: &mut SeatingSectionAccount,
    event: &mut EventNFT,
    seat_index: usize,
) -> (result: Result<(), ErrorCode>)
    requires
        seat_index < old(seating_section).seat_status@.len(),
    ensures
        *final(seating_section) == (SeatingSectionAccount {
            seat_status: final(seating_section).seat_status,
            ..*old(seating_section)
        }),
        final(seating_section).seat_status@ == old(seating_section).seat_status@.update(seat_index as int, 1u8),
        old(event).sold_tickets < u64::MAX ==> {
            &&& result is Ok
            &&& *final(event) == (EventNFT { sold_tickets: (old(event).sold_tickets + 1) as u64, ..*old(event) })
        },
        old(event).sold_tickets == u64::MAX ==> {
            &&& result == Err::<(), ErrorCode>(ErrorCode::InvalidTicket)
            &&& *final(event) == *old(event)
        },
{
    seating_section.seat_status.set(seat_index, 1u8);
    match event.sold_tickets.checked_add(1) {
        Some(sold) => {
            event.sold_tickets = sold;
            Ok(())
        },
        None => Err(ErrorCode::InvalidTicket),
    }
}

/// Sets up the status of a new ticket of `event`: not activated, not used.
pub fn initialize_ticket_status(ticket_status: &mut TicketStatus, event: Pubkey) -> (result: Result<(), ErrorCode>)
    ensures
        result is Ok,
        *final(ticket_status) == (TicketStatus {
            event: event,
            used: false,
            activated: false,
            activation_timestamp: 0,
        }),
{
    ticket_status.event = event;
    ticket_status.used = false;
    ticket_status.activated = false;
    ticket_status.activation_timestamp = 0;
    Ok(())
}

/// Activates a ticket that has not been used, stamping it with the time `now`.
pub fn activate_ticket(ticket_status: &mut TicketStatus, now: i64) -> (result: Result<(), ErrorCode>)
    ensures
        old(ticket_status).used ==> {
            &&& result == Err::<(), ErrorCode>(ErrorCode::TicketAlreadyUsed)
            &&& *final(ticket_status) == *old(ticket_status)
        },
        !old(ticket_status).used ==> {
            &&& result is Ok
            &&& *final(ticket_status) == (TicketStatus {
                activated: true,
                activation_timestamp: now,
                ..*old(ticket_status)
            })
        },
{
    if ticket_status.used {
        return Err(ErrorCode::TicketAlreadyUsed);
    }
    ticket_status.activated = true;
    ticket_status.activation_timestamp = now;
    Ok(())
}

/// What `validate_ticket` leaves in the ticket's status and returns. The caller must
/// be one of the event's validators and the ticket must be activated; an activation
/// older than the window is turned off and refused; a used ticket is refused;
/// otherwise the ticket becomes used and the validation is announced.
pub open spec fn spec_validate_ticket(
    event: EventNFT,
    event_key: Pubkey,
    ticket_status: TicketStatus,
    validator: Pubkey,
    now: i64,
) -> (TicketStatus, Result<TicketValidated, ErrorCode>) {
    if !event.validators@.contains(validator) {
        (ticket_status, Err(ErrorCode::NotValidator))
    } else if !ticket_status.activated {
        (ticket_status, Err(ErrorCode::TicketNotActivated))
    } else if now - ticket_status.activation_timestamp > ACTIVATION_WINDOW_SECONDS {
        (TicketStatus { activated: false, ..ticket_status }, Err(ErrorCode::TicketActivationExpired))
    } else if ticket_status.used {
        (ticket_status, Err(ErrorCode::TicketAlreadyUsed))
    } else {
        (
            TicketStatus { used: true, ..ticket_status },
            Ok(TicketValidated { event: event_key, validator: validator, timestamp: now }),
        )
    }
}

/// Lets a ticket in at time `now`, at the request of `validator`.
pub fn validate_ticket(
    event: &EventNFT,
    event_key: Pubkey,
    ticket_status: &mut TicketStatus,
    validator: Pubkey,
    now: i64,
) -> (result: Result<TicketValidated, ErrorCode>)
    requires
        event.validators@.contains(validator) && old(ticket_status).activated ==> i64::MIN <= now
            - old(ticket_status).activation_timestamp <= i64::MAX,
    ensures
        (*final(ticket_status), result) == spec_validate_ticket(
            *event,
            event_key,
            *old(ticket_status),
            validator,
            now,
        ),
{
    if !contains_key(&event.validators, &validator) {
        return Err(ErrorCode::NotValidator);
    }
    if !ticket_status.activated {
        return Err(ErrorCode::TicketNotActivated);
    }
    if now - ticket_status.activation_timestamp > ACTIVATION_WINDOW_SECONDS {
        ticket_status.activated = false;
        return Err(ErrorCode::TicketActivationExpired);
    }
    if ticket_status.used {
        return Err(ErrorCode::TicketAlreadyUsed);
    }
    ticket_status.used = true;
    Ok(TicketValidated { event: event_key, validator, timestamp: now })
}

} // verus!
