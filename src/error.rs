//! What can go wrong while a session is being established.

use vstd::prelude::*;

verus! {

/// An artifact that the handshake expected is missing from a response.
#[derive(Debug, Clone, Copy, PartialEq, Eq)]
pub enum ProtocolError {
    /// The login page set no cookie.
    MissingCookie,
    /// The login page has no `execution` form field.
    MissingExecutionToken,
    /// The redirect target carries no `ticket` query parameter.
    MissingTicket,
    /// The landing page did not set the session-identifier cookie.
    MissingSessionCookie,
}

/// The remote side refused or answered out of turn.
#[derive(Debug, PartialEq, Eq)]
pub enum AuthError {
    /// The credential submission was answered with 401.
    InvalidCredentials,
    /// A step expected another status code; the observed one is kept.
    UnexpectedStatus(u16),
    /// The token endpoint answered with a non-success status.
    TokenExchangeFailed(u16),
    /// The portal answered with a failure code and this message.
    Rejected(String),
}

/// Why a login call yielded no session.
#[derive(Debug, PartialEq, Eq)]
pub enum LoginError {
    /// The HTTP layer failed; its message is passed on as it is.
    Transport(String),
    Protocol(ProtocolError),
    Auth(AuthError),
    /// A response body does not have the expected shape.
    Deserialization(String),
}

} // verus!
