//! The errors that the relay core reports.

use vstd::prelude::*;
use vstd::string::StringExecFns;
use crate::text::{decimal, to_decimal};

verus! {

/// What can go wrong in the relay core.
///
/// A failed write to one peer and a failed attempt to store a message are
/// not among them: both are skipped by whoever performs the effects and never
/// reach a caller.
#[derive(Clone, Copy, Debug, PartialEq, Eq, Structural)]
pub enum RelayError {
    /// The listening socket could not be bound; the server did not start.
    BindError,
    /// A frame declared a payload longer than the codec accepts. The field
    /// holds the declared length.
    FrameTooLarge(u32),
    /// A payload arrived in full but is no message.
    MalformedFrame,
    /// The stream ended, or failed, before a whole frame was read.
    ConnectionClosed,
    /// A message was to be sent, but the session has no outbound connection.
    NotConnected,
}

impl RelayError {
    /// The text of an error, as it is shown to a user.
    pub open spec fn text(self) -> Seq<char> {
        match self {
            RelayError::BindError => "Failed to bind the listening socket"@,
            RelayError::FrameTooLarge(n) => "Message too large: "@ + decimal(n as nat) + " bytes"@,
            RelayError::MalformedFrame => "Malformed message"@,
            RelayError::ConnectionClosed => "Connection closed"@,
            RelayError::NotConnected => "Not connected to server"@,
        }
    }

    /// Renders the error for a user.
    pub fn describe(&self) -> (s: String)
        ensures
            s@ == self.text(),
    {
        match self {
            RelayError::BindError => String::from_str("Failed to bind the listening socket"),
            RelayError::FrameTooLarge(n) => {
                let s = String::from_str("Message too large: ");
                let digits = to_decimal(*n as u64);
                let s = s.concat(digits.as_str());
                s.concat(" bytes")
            },
            RelayError::MalformedFrame => String::from_str("Malformed message"),
            RelayError::ConnectionClosed => String::from_str("Connection closed"),
            RelayError::NotConnected => String::from_str("Not connected to server"),
        }
    }
}

} // verus!
