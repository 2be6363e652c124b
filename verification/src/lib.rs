//! Ticketing logic of an event-management program: organizer pools, event
//! registries, seating maps, seat sales and ticket validation, with the
//! identifiers that tie them together.

pub mod encoding;
pub mod error;
pub mod events;
pub mod guarantees;
pub mod ids;
pub mod laws;
pub mod organizers;
pub mod pubkey;
pub mod seating;
pub mod state;
pub mod tickets;

pub use pubkey::Pubkey;
