//! Shared record types.

pub mod types;
