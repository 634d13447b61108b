//! The ways an operation of the bridge can fail.

use vstd::prelude::*;

verus! {

/// Why an operation failed.
///
/// The first two arise in this crate's own functions. The others are for the
/// code that owns the socket and the channels, so that every layer reports
/// failures in one vocabulary.
#[derive(Debug, Clone, Copy, PartialEq, Eq, Structural)]
pub enum BridgeError {
    /// An outbound payload is longer than the length prefix can announce.
    FrameTooLarge,
    /// An inbound payload is not JSON, is not one of the known message
    /// shapes, or has an unknown `type`.
    MalformedFrame,
    /// Reading from or writing to the connection failed.
    IoFailure,
    /// The connection ended before a reply arrived.
    Cancelled,
    /// The connection actor is gone.
    ChannelClosed,
}

impl BridgeError {
    /// Whether the connection cannot go on after this failure. A frame that
    /// is too large is refused and nothing is written, so the connection
    /// stays usable; a caller that gave up waiting does not affect it either.
    pub open spec fn is_fatal(self) -> bool {
        self is MalformedFrame || self is IoFailure || self is ChannelClosed
    }

    /// The failure in words.
    pub open spec fn message_text(self) -> Seq<char> {
        match self {
            BridgeError::FrameTooLarge => "len is too long (> u32::MAX)"@,
            BridgeError::MalformedFrame => "frame is not a known message"@,
            BridgeError::IoFailure => "connection failed"@,
            BridgeError::Cancelled => "canceled"@,
            BridgeError::ChannelClosed => "connection actor is gone"@,
        }
    }

    /// The failure in words, for logs and for error types built on this one.
    pub fn message(&self) -> (text: &'static str)
        ensures
            text@ == self.message_text(),
    {
        match self {
            BridgeError::FrameTooLarge => "len is too long (> u32::MAX)",
            BridgeError::MalformedFrame => "frame is not a known message",
            BridgeError::IoFailure => "connection failed",
            BridgeError::Cancelled => "canceled",
            BridgeError::ChannelClosed => "connection actor is gone",
        }
    }

    /// Whether the connection cannot go on after this failure.
    pub fn fatal(&self) -> (fatal: bool)
        ensures
            fatal == self.is_fatal(),
    {
        match self {
            BridgeError::MalformedFrame
            | BridgeError::IoFailure
            | BridgeError::ChannelClosed => true,
            BridgeError::FrameTooLarge | BridgeError::Cancelled => false,
        }
    }
}

} // verus!
