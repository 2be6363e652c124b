use vstd::prelude::*;

verus! {

/// Why an instruction was refused.
#[derive(Clone, Copy, Debug, PartialEq, Eq, Structural)]
pub enum ErrorCode {
    Unauthorized,
    AlreadyRegistered,
    OrganizerNotFound,
    InvalidSeatingType,
    SeatNotReserved,
    InsufficientFunds,
    InvalidTicket,
    TicketAlreadyUsed,
    AdminOnly,
    InvalidSeating,
    SeatAlreadyTaken,
    EventNotActive,
    EventIsActive,
    InvalidTicketQuantity,
    CannotUpdateSeatingAfterSales,
    RegistryFull,
    CannotRemoveSectionWithTickets,
    CannotChangeSeatingType,
    InvalidEventId,
    EventCannotDeactivate,
    EventAlreadyOccurred,
    ValidatorAlreadyAdded,
    NotValidator,
    TicketNotActivated,
    TicketActivationExpired,
    InvalidEventDate,
}

} // verus!
