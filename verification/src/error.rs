//! The ways in which rendering and publishing a ticket can fail.

use vstd::prelude::*;
use vstd::string::StringExecFns;

verus! {

/// Why a request could not be served. Every failure ends the request.
#[derive(Clone, Copy, Debug, PartialEq, Eq, Structural)]
pub enum TicketError {
    /// A logo could not be downloaded.
    Fetch,
    /// The bytes of a logo are not a valid image.
    Decode,
    /// The match date lies outside the calendar's range.
    InvalidTimestamp,
    /// The font could not be loaded or the canvas could not be drawn.
    Render,
    /// The token document could not be serialized.
    Serialization,
    /// The storage network refused a file or could not be reached.
    Publish,
    /// A temporary file could not be read or written.
    Filesystem,
}

impl TicketError {
    /// The text shown to a client for this failure. It names no path and no
    /// credential.
    pub open spec fn message_text(self) -> Seq<char> {
        match self {
            TicketError::Fetch => "could not download a team logo"@,
            TicketError::Decode => "a team logo is not a valid image"@,
            TicketError::InvalidTimestamp => "the match date is out of range"@,
            TicketError::Render => "could not draw the ticket image"@,
            TicketError::Serialization => "could not serialize the token document"@,
            TicketError::Publish => "could not publish to the storage network"@,
            TicketError::Filesystem => "could not access a temporary file"@,
        }
    }

    /// The text shown to a client for this failure.
    pub fn message(&self) -> (text: String)
        ensures
            text@ == self.message_text(),
    {
        match self {
            TicketError::Fetch => String::from_str("could not download a team logo"),
            TicketError::Decode => String::from_str("a team logo is not a valid image"),
            TicketError::InvalidTimestamp => String::from_str("the match date is out of range"),
            TicketError::Render => String::from_str("could not draw the ticket image"),
            TicketError::Serialization => String::from_str(
                "could not serialize the token document",
            ),
            TicketError::Publish => String::from_str("could not publish to the storage network"),
            TicketError::Filesystem => String::from_str("could not access a temporary file"),
        }
    }
}

} // verus!
