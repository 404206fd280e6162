//! An in-memory raffle: tickets made of random lines, kept in a registry under
//! unique ids, extended on request and redeemed once for a score.

pub mod entropy;
pub mod error;
pub mod evaluation;
pub mod line;
pub mod raffle;
pub mod text;
pub mod ticket;

pub use error::ErrorKind;
pub use evaluation::{Evaluation, Tier};
pub use line::Line;
pub use raffle::{Raffle, TicketEntry};
pub use ticket::Ticket;
