//! What can go wrong on the bridge socket.

use vstd::prelude::*;

verus! {

/// Why a handshake or a frame exchange failed.
#[derive(Clone, Copy, Debug, PartialEq, Eq, Structural)]
pub enum BridgeError {
    /// The operating system refused a call, with this error number.
    Os(i32),
    /// The socket path is empty, or does not fit a socket address.
    PathLength,
    /// The answer to a hello has no readable header.
    InvalidReady,
    /// The answer to a hello is no ready packet for it.
    NotAcknowledged,
    /// A ready packet ends in front of its modifier count.
    NoModifierCount,
    /// A ready packet does not hold the modifiers that it counts.
    MalformedModifiers,
    /// A ready packet offers a format other than XR24, or uses a reserved word.
    UnsupportedFormat,
    /// The descriptors of a frame are not those that its metadata announces.
    DescriptorCount,
    /// The metadata of a frame cannot be encoded.
    InvalidFrame,
    /// The answer to a frame has no readable header.
    InvalidRelease,
    /// The answer to a frame is no release of it.
    WrongRelease,
}

/// The class of a failure.
#[derive(Clone, Copy, Debug, PartialEq, Eq, Structural)]
pub enum FailureClass {
    /// The operating system refused a call, with this error number.
    Os(i32),
    /// The caller handed over something that cannot be sent.
    InvalidInput,
    /// The other side sent something that cannot be accepted.
    InvalidData,
}

impl BridgeError {
    /// The class of a failure.
    pub open spec fn spec_class(self) -> FailureClass {
        match self {
            BridgeError::Os(errno) => FailureClass::Os(errno),
            BridgeError::PathLength | BridgeError::DescriptorCount
            | BridgeError::InvalidFrame => FailureClass::InvalidInput,
            _ => FailureClass::InvalidData,
        }
    }

    /// The class of this failure.
    pub fn class(&self) -> (class: FailureClass)
        ensures
            class == self.spec_class(),
    {
        match *self {
            BridgeError::Os(errno) => FailureClass::Os(errno),
            BridgeError::PathLength => FailureClass::InvalidInput,
            BridgeError::DescriptorCount => FailureClass::InvalidInput,
            BridgeError::InvalidFrame => FailureClass::InvalidInput,
            _ => FailureClass::InvalidData,
        }
    }

    /// The text of a failure that the bridge itself found; the operating system words its own.
    pub open spec fn text(self) -> Option<Seq<char>> {
        match self {
            BridgeError::Os(_) => None,
            BridgeError::PathLength => Some("frame bridge socket path is empty or too long"@),
            BridgeError::InvalidReady => Some("invalid bridge Ready packet"@),
            BridgeError::NotAcknowledged => Some("bridge did not acknowledge Hello"@),
            BridgeError::NoModifierCount => Some("bridge Ready packet has no modifier count"@),
            BridgeError::MalformedModifiers => Some("bridge Ready modifier list is malformed"@),
            BridgeError::UnsupportedFormat => Some(
                "bridge Ready contains an unsupported format entry"@,
            ),
            BridgeError::DescriptorCount => Some("frame metadata and descriptor count disagree"@),
            BridgeError::InvalidFrame => Some("invalid frame metadata"@),
            BridgeError::InvalidRelease => Some("invalid bridge Release packet"@),
            BridgeError::WrongRelease => Some("bridge released the wrong frame"@),
        }
    }

    /// The text of this failure, unless the operating system has to word it.
    pub fn message(&self) -> (message: Option<&'static str>)
        ensures
            match message {
                Some(message) => self.text() == Some(message@),
                None => self.text() is None,
            },
    {
        match *self {
            BridgeError::Os(_) => None,
            BridgeError::PathLength => Some("frame bridge socket path is empty or too long"),
            BridgeError::InvalidReady => Some("invalid bridge Ready packet"),
            BridgeError::NotAcknowledged => Some("bridge did not acknowledge Hello"),
            BridgeError::NoModifierCount => Some("bridge Ready packet has no modifier count"),
            BridgeError::MalformedModifiers => Some("bridge Ready modifier list is malformed"),
            BridgeError::UnsupportedFormat => Some(
                "bridge Ready contains an unsupported format entry",
            ),
            BridgeError::DescriptorCount => Some("frame metadata and descriptor count disagree"),
            BridgeError::InvalidFrame => Some("invalid frame metadata"),
            BridgeError::InvalidRelease => Some("invalid bridge Release packet"),
            BridgeError::WrongRelease => Some("bridge released the wrong frame"),
        }
    }

    /// The text of a failure, where `os` is how the operating system words it.
    pub open spec fn text_with(self, os: Seq<char>) -> Seq<char> {
        match self.text() {
            Some(text) => text,
            None => os,
        }
    }

    /// The text of this failure, where `os` is how the operating system words it.
    pub fn message_with<'a>(&self, os: &'a str) -> (message: &'a str)
        ensures
            message@ == self.text_with(os@),
    {
        match self.message() {
            Some(message) => message,
            None => os,
        }
    }

    /// The report of a connection that this failure has ended, where `os` is how the operating
    /// system words the failure.
    pub fn disconnect_report(&self, os: &str) -> (report: String)
        ensures
            report@ == "frame_bridge state=disconnected error="@ + self.text_with(os@),
    {
        let mut report = "frame_bridge state=disconnected error=".to_owned();
        report.append(self.message_with(os));
        report
    }
}

} // verus!
