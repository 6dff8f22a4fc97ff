//! Error codes of the transport and what the receive loop does with them.

use vstd::prelude::*;

verus! {

/// Why the transport turned a packet or a request down.
#[derive(Clone, Copy, Debug, PartialEq, Eq, Structural)]
pub enum ErrorCode {
    /// The message counter was already processed on this session.
    Duplicate,
    /// The session table is full.
    NoSpaceSessions,
    /// The exchange table is full.
    NoSpaceExchanges,
    /// The packet belongs to no exchange and may not open one.
    NoExchange,
    /// The packet contradicts the reliability state of its exchange, or
    /// acknowledges on an exchange that it only just opened.
    Invalid,
    /// The exchange is in a state in which this packet or request has no
    /// defined handling.
    InvalidState,
    /// A payload does not fit the buffer it is meant for, or a slot index
    /// lies outside its pool.
    NoSpace,
    /// The service discovery responder failed.
    MdnsError,
}

impl ErrorCode {
    /// Whether the receive loop ends on this error. On every other error it
    /// drops the packet and goes on.
    pub open spec fn spec_is_fatal_to_rx(self) -> bool {
        self is Invalid || self is InvalidState || self is NoSpace || self is MdnsError
    }

    /// Whether the receive loop ends on this error.
    #[verifier::when_used_as_spec(spec_is_fatal_to_rx)]
    pub fn is_fatal_to_rx(self) -> (fatal: bool)
        ensures
            fatal == self.spec_is_fatal_to_rx(),
    {
        match self {
            ErrorCode::Invalid | ErrorCode::InvalidState | ErrorCode::NoSpace | ErrorCode::MdnsError => true,
            ErrorCode::Duplicate | ErrorCode::NoSpaceSessions | ErrorCode::NoSpaceExchanges | ErrorCode::NoExchange => false,
        }
    }
}

} // verus!
