//! One conversion for each kind of failure that the network layer meets.
//!
//! Each files the failure under its category and keeps it as the cause, so
//! that `?` and `into()` turn a collaborator's error into a
//! [`NetworkError`]. What the conversions produce is stated on each of them;
//! none is described by a spec function of its own, because the chain they
//! build is held by an outside type.

use vstd::prelude::*;
use vstd::std_specs::convert::FromSpecImpl;
use crate::chain::chain_from_message;
use crate::error::NetworkError;
use crate::kind::NetworkErrorKind;
use crate::native::{
    canceled_wording, chain_from_canceled, chain_from_decode_error, chain_from_elapsed,
    chain_from_encode_error, chain_from_io_error, chain_from_multiaddr_error,
    chain_from_send_error, decode_wording, elapsed_wording, encode_wording, io_wording,
    multiaddr_wording, send_wording, PeerManagerError, VerifyError,
};

verus! {

impl FromSpecImpl<NetworkErrorKind> for NetworkError {
    open spec fn obeys_from_spec() -> bool {
        false
    }

    open spec fn from_spec(kind: NetworkErrorKind) -> NetworkError {
        arbitrary()
    }
}

impl From<NetworkErrorKind> for NetworkError {
    /// An error of the given category with nothing behind it.
    fn from(kind: NetworkErrorKind) -> (error: NetworkError)
        ensures
            error@.kind == kind,
            error@.messages == seq![kind.description()],
            error@.opaque_causes == 0,
            error@.cause_wording is None,
    {
        NetworkError::from_kind(kind)
    }
}

impl FromSpecImpl<std::io::Error> for NetworkError {
    open spec fn obeys_from_spec() -> bool {
        false
    }

    open spec fn from_spec(err: std::io::Error) -> NetworkError {
        arbitrary()
    }
}

impl From<std::io::Error> for NetworkError {
    /// A failed read or write is an I/O error.
    fn from(err: std::io::Error) -> (error: NetworkError)
        ensures
            error@.kind == NetworkErrorKind::IoError,
            error@.messages == seq![NetworkErrorKind::IoError.description()],
            error@.opaque_causes >= 1,
            error@.cause_wording == io_wording(err),
    {
        NetworkError::new(NetworkErrorKind::IoError, chain_from_io_error(err))
    }
}

impl FromSpecImpl<VerifyError> for NetworkError {
    open spec fn obeys_from_spec() -> bool {
        false
    }

    open spec fn from_spec(err: VerifyError) -> NetworkError {
        arbitrary()
    }
}

impl From<VerifyError> for NetworkError {
    /// A failed cryptographic check is a signature error; the verifier's
    /// reason is its cause.
    fn from(err: VerifyError) -> (error: NetworkError)
        ensures
            error@.kind == NetworkErrorKind::SignatureError,
            error@.messages == seq![NetworkErrorKind::SignatureError.description(), err.reason@],
            error@.opaque_causes == 0,
            error@.cause_wording is None,
    {
        NetworkError::new(NetworkErrorKind::SignatureError, chain_from_message(err.reason))
    }
}

impl FromSpecImpl<prost::EncodeError> for NetworkError {
    open spec fn obeys_from_spec() -> bool {
        false
    }

    open spec fn from_spec(err: prost::EncodeError) -> NetworkError {
        arbitrary()
    }
}

impl From<prost::EncodeError> for NetworkError {
    /// A message that could not be encoded is a protobuf error.
    fn from(err: prost::EncodeError) -> (error: NetworkError)
        ensures
            error@.kind == NetworkErrorKind::ProtobufParseError,
            error@.messages == seq![NetworkErrorKind::ProtobufParseError.description()],
            error@.opaque_causes == 1,
            error@.cause_wording == Some(encode_wording(err)),
    {
        NetworkError::new(NetworkErrorKind::ProtobufParseError, chain_from_encode_error(err))
    }
}

impl FromSpecImpl<prost::DecodeError> for NetworkError {
    open spec fn obeys_from_spec() -> bool {
        false
    }

    open spec fn from_spec(err: prost::DecodeError) -> NetworkError {
        arbitrary()
    }
}

impl From<prost::DecodeError> for NetworkError {
    /// A message that could not be decoded is a protobuf error.
    fn from(err: prost::DecodeError) -> (error: NetworkError)
        ensures
            error@.kind == NetworkErrorKind::ProtobufParseError,
            error@.messages == seq![NetworkErrorKind::ProtobufParseError.description()],
            error@.opaque_causes == 1,
            error@.cause_wording == Some(decode_wording(err)),
    {
        NetworkError::new(NetworkErrorKind::ProtobufParseError, chain_from_decode_error(err))
    }
}

impl FromSpecImpl<parity_multiaddr::Error> for NetworkError {
    open spec fn obeys_from_spec() -> bool {
        false
    }

    open spec fn from_spec(err: parity_multiaddr::Error) -> NetworkError {
        arbitrary()
    }
}

impl From<parity_multiaddr::Error> for NetworkError {
    /// An address that could not be parsed is a multiaddr error.
    fn from(err: parity_multiaddr::Error) -> (error: NetworkError)
        ensures
            error@.kind == NetworkErrorKind::MultiaddrError,
            error@.messages == seq![NetworkErrorKind::MultiaddrError.description()],
            error@.opaque_causes == 1,
            error@.cause_wording == multiaddr_wording(err),
    {
        NetworkError::new(NetworkErrorKind::MultiaddrError, chain_from_multiaddr_error(err))
    }
}

impl FromSpecImpl<futures::channel::mpsc::SendError> for NetworkError {
    open spec fn obeys_from_spec() -> bool {
        false
    }

    open spec fn from_spec(err: futures::channel::mpsc::SendError) -> NetworkError {
        arbitrary()
    }
}

impl From<futures::channel::mpsc::SendError> for NetworkError {
    /// A message that could not be sent on a channel is a send error.
    fn from(err: futures::channel::mpsc::SendError) -> (error: NetworkError)
        ensures
            error@.kind == NetworkErrorKind::ChannelSendError,
            error@.messages == seq![NetworkErrorKind::ChannelSendError.description()],
            error@.opaque_causes == 1,
            error@.cause_wording == Some(send_wording(err)),
    {
        NetworkError::new(NetworkErrorKind::ChannelSendError, chain_from_send_error(err))
    }
}

impl FromSpecImpl<futures::channel::oneshot::Canceled> for NetworkError {
    open spec fn obeys_from_spec() -> bool {
        false
    }

    open spec fn from_spec(err: futures::channel::oneshot::Canceled) -> NetworkError {
        arbitrary()
    }
}

impl From<futures::channel::oneshot::Canceled> for NetworkError {
    /// A one-shot channel whose sender went away was canceled.
    fn from(err: futures::channel::oneshot::Canceled) -> (error: NetworkError)
        ensures
            error@.kind == NetworkErrorKind::ChannelCanceled,
            error@.messages == seq![NetworkErrorKind::ChannelCanceled.description()],
            error@.opaque_causes == 1,
            error@.cause_wording == Some(canceled_wording()),
    {
        NetworkError::new(NetworkErrorKind::ChannelCanceled, chain_from_canceled(err))
    }
}

impl FromSpecImpl<PeerManagerError> for NetworkError {
    open spec fn obeys_from_spec() -> bool {
        false
    }

    open spec fn from_spec(err: PeerManagerError) -> NetworkError {
        arbitrary()
    }
}

impl From<PeerManagerError> for NetworkError {
    /// A failure of the connection manager is filed by what went wrong: a
    /// failed stream as an I/O error, a missing connection as such, and
    /// anything else under the connection manager's own category.
    fn from(err: PeerManagerError) -> (error: NetworkError)
        ensures
            error@.kind == err.kind(),
            error@.messages == seq![err.kind().description()] + err.texts(),
            err.admits_causes(error@.opaque_causes),
            error@.cause_wording == err.wording(),
    {
        match err {
            PeerManagerError::IoError(failure) => {
                NetworkError::new(NetworkErrorKind::IoError, chain_from_io_error(failure))
            },
            PeerManagerError::NotConnected(peer) => {
                NetworkError::new(NetworkErrorKind::NotConnected, chain_from_message(peer))
            },
            PeerManagerError::Other(cause) => {
                NetworkError::new(NetworkErrorKind::PeerManagerError, cause)
            },
        }
    }
}

impl FromSpecImpl<tokio::time::Elapsed> for NetworkError {
    open spec fn obeys_from_spec() -> bool {
        false
    }

    open spec fn from_spec(err: tokio::time::Elapsed) -> NetworkError {
        arbitrary()
    }
}

impl From<tokio::time::Elapsed> for NetworkError {
    /// A deadline that passed is a timeout; the timer's signal is kept as
    /// its cause.
    fn from(err: tokio::time::Elapsed) -> (error: NetworkError)
        ensures
            error@.kind == NetworkErrorKind::TimedOut,
            error@.messages == seq![NetworkErrorKind::TimedOut.description()],
            error@.opaque_causes == 1,
            error@.cause_wording == Some(elapsed_wording()),
    {
        NetworkError::new(NetworkErrorKind::TimedOut, chain_from_elapsed(err))
    }
}

} // verus!
