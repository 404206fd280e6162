//! The errors the registry reports.

use crate::text::{decimal, push_decimal};
use vstd::prelude::*;

verus! {

/// Why a registry operation failed.
#[derive(Debug, Clone, Copy, PartialEq, Eq, Structural)]
pub enum ErrorKind {
    /// No live ticket has this id.
    TicketNotFound(u64),
    /// The ticket with this id has no lines, so it has no average score.
    EmptyTicket(u64),
    /// The lock around the shared registry is poisoned; only a restart clears it.
    LockPoisoned,
}

/// The message of `e`.
pub open spec fn error_text(e: ErrorKind) -> Seq<char> {
    match e {
        ErrorKind::TicketNotFound(id) => "Ticket id: "@ + decimal(id as nat) + " doesn't exist"@,
        ErrorKind::EmptyTicket(id) => "Ticket id: "@ + decimal(id as nat) + " has no lines"@,
        ErrorKind::LockPoisoned => "Unrecoverable error: Internal state poisoned, restart the server"@,
    }
}

impl ErrorKind {
    /// The message of this error, as in `Ticket id: 42 doesn't exist`.
    pub fn message(&self) -> (s: String)
        ensures
            s@ == error_text(*self),
    {
        match self {
            ErrorKind::TicketNotFound(id) => {
                let mut s = String::from_str("Ticket id: ");
                push_decimal(&mut s, *id);
                s.append(" doesn't exist");
                s
            },
            ErrorKind::EmptyTicket(id) => {
                let mut s = String::from_str("Ticket id: ");
                push_decimal(&mut s, *id);
                s.append(" has no lines");
                s
            },
            ErrorKind::LockPoisoned => String::from_str(
                "Unrecoverable error: Internal state poisoned, restart the server",
            ),
        }
    }
}

} // verus!
