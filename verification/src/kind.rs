//! The closed set of failure categories.

use vstd::prelude::*;

verus! {

/// The category of a network failure.
///
/// Every [`crate::NetworkError`] carries exactly one of these, chosen when the
/// failure is first wrapped and never changed afterwards.
#[derive(Copy, Clone, Eq, PartialEq, Debug, Structural)]
pub enum NetworkErrorKind {
    IoError,
    ProtobufParseError,
    SignatureError,
    MultiaddrError,
    ChannelSendError,
    ChannelCanceled,
    TimerError,
    TimedOut,
    UnknownTimerError,
    PeerManagerError,
    ParsingError,
    NotConnected,
}

impl NetworkErrorKind {
    /// The text that describes the category to a reader.
    pub open spec fn description(self) -> Seq<char> {
        match self {
            NetworkErrorKind::IoError => "IO error"@,
            NetworkErrorKind::ProtobufParseError => "Error parsing protobuf message"@,
            NetworkErrorKind::SignatureError => "Invalid signature error"@,
            NetworkErrorKind::MultiaddrError => "Failed to parse multiaddrs"@,
            NetworkErrorKind::ChannelSendError => "Error sending on mpsc channel"@,
            NetworkErrorKind::ChannelCanceled => "Oneshot channel unexpectedly dropped"@,
            NetworkErrorKind::TimerError => "Error setting timeout"@,
            NetworkErrorKind::TimedOut => "Operation timed out"@,
            NetworkErrorKind::UnknownTimerError => "Unknown tokio::time Error variant"@,
            NetworkErrorKind::PeerManagerError => "PeerManager error"@,
            NetworkErrorKind::ParsingError => "Parsing error"@,
            NetworkErrorKind::NotConnected => "Peer not connected"@,
        }
    }

    /// The category's description as an owned string.
    pub fn to_string(&self) -> (text: String)
        ensures
            text@ == self.description(),
    {
        let text: &str = match self {
            NetworkErrorKind::IoError => "IO error",
            NetworkErrorKind::ProtobufParseError => "Error parsing protobuf message",
            NetworkErrorKind::SignatureError => "Invalid signature error",
            NetworkErrorKind::MultiaddrError => "Failed to parse multiaddrs",
            NetworkErrorKind::ChannelSendError => "Error sending on mpsc channel",
            NetworkErrorKind::ChannelCanceled => "Oneshot channel unexpectedly dropped",
            NetworkErrorKind::TimerError => "Error setting timeout",
            NetworkErrorKind::TimedOut => "Operation timed out",
            NetworkErrorKind::UnknownTimerError => "Unknown tokio::time Error variant",
            NetworkErrorKind::PeerManagerError => "PeerManager error",
            NetworkErrorKind::ParsingError => "Parsing error",
            NetworkErrorKind::NotConnected => "Peer not connected",
        };
        text.to_owned()
    }
}

} // verus!
