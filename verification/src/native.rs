//! The failures of the collaborating subsystems, as they arrive, and how
//! each is taken into a causal chain.

use vstd::prelude::*;
use crate::chain::{cause_wording, opaque_causes, text_layers};
use crate::kind::NetworkErrorKind;

verus! {

/// The error of std's streams and files.
#[verifier::external_type_specification]
#[verifier::external_body]
pub struct ExIoError(std::io::Error);

/// prost's error for a message that does not fit where it should be written.
#[verifier::external_type_specification]
#[verifier::external_body]
pub struct ExEncodeError(prost::EncodeError);

/// prost's error for bytes that are no valid message.
#[verifier::external_type_specification]
#[verifier::external_body]
pub struct ExDecodeError(prost::DecodeError);

/// parity_multiaddr's error for an address that cannot be read.
#[verifier::external_type_specification]
#[verifier::external_body]
pub struct ExMultiaddrError(parity_multiaddr::Error);

/// The error of a futures channel that takes no more messages.
#[verifier::external_type_specification]
#[verifier::external_body]
pub struct ExSendError(futures::channel::mpsc::SendError);

/// The error of a futures one-shot channel whose sender is gone.
#[verifier::external_type_specification]
#[verifier::external_body]
pub struct ExCanceled(futures::channel::oneshot::Canceled);

/// tokio's signal that a deadline passed.
#[verifier::external_type_specification]
#[verifier::external_body]
pub struct ExElapsed(tokio::time::Elapsed);

/// What std writes an I/O error out as, with the causes beneath it, where
/// the error itself settles that. It is `None` for an error that holds a
/// code of the operating system, whose words the C library picks by the
/// locale of the process.
pub uninterp spec fn io_wording(failure: std::io::Error) -> Option<Seq<char>>;

/// What prost writes an encoding error out as.
pub uninterp spec fn encode_wording(failure: prost::EncodeError) -> Seq<char>;

/// What prost writes a decoding error out as.
pub uninterp spec fn decode_wording(failure: prost::DecodeError) -> Seq<char>;

/// What parity_multiaddr writes an address error out as, where the error
/// itself settles that. It is `None` for an error that wraps one whose
/// wording is not settled, as it may wrap an I/O error.
pub uninterp spec fn multiaddr_wording(failure: parity_multiaddr::Error) -> Option<Seq<char>>;

/// What futures writes a failed send out as.
pub uninterp spec fn send_wording(failure: futures::channel::mpsc::SendError) -> Seq<char>;

/// What futures writes a canceled one-shot channel out as.
pub open spec fn canceled_wording() -> Seq<char> {
    "oneshot canceled"@
}

/// What tokio writes a passed deadline out as.
pub open spec fn elapsed_wording() -> Seq<char> {
    "deadline has elapsed"@
}

/// Calls `anyhow::Error::new` on an I/O error. The chain starts with the
/// error, which is no text link, and goes on with the causes that the error
/// names; it is written out as std writes the error and those causes.
#[verifier::external_body]
pub(crate) fn chain_from_io_error(failure: std::io::Error) -> (chain: anyhow::Error)
    ensures
        text_layers(chain) == Seq::<Seq<char>>::empty(),
        opaque_causes(chain) >= 1,
        cause_wording(chain) == io_wording(failure),
{
    anyhow::Error::new(failure)
}

/// Calls `anyhow::Error::new` on prost's encoding error, which names no
/// cause of its own. The chain is that one link, written out as prost
/// writes the error.
#[verifier::external_body]
pub(crate) fn chain_from_encode_error(failure: prost::EncodeError) -> (chain: anyhow::Error)
    ensures
        text_layers(chain) == Seq::<Seq<char>>::empty(),
        opaque_causes(chain) == 1,
        cause_wording(chain) == Some(encode_wording(failure)),
{
    anyhow::Error::new(failure)
}

/// Calls `anyhow::Error::new` on prost's decoding error, which names no
/// cause of its own. The chain is that one link, written out as prost
/// writes the error.
#[verifier::external_body]
pub(crate) fn chain_from_decode_error(failure: prost::DecodeError) -> (chain: anyhow::Error)
    ensures
        text_layers(chain) == Seq::<Seq<char>>::empty(),
        opaque_causes(chain) == 1,
        cause_wording(chain) == Some(decode_wording(failure)),
{
    anyhow::Error::new(failure)
}

/// Calls `anyhow::Error::new` on parity_multiaddr's error, which gives no
/// `source` (what it wraps is part of its own text). The chain is that one
/// link, written out as parity_multiaddr writes the error.
#[verifier::external_body]
pub(crate) fn chain_from_multiaddr_error(failure: parity_multiaddr::Error) -> (chain:
    anyhow::Error)
    ensures
        text_layers(chain) == Seq::<Seq<char>>::empty(),
        opaque_causes(chain) == 1,
        cause_wording(chain) == multiaddr_wording(failure),
{
    anyhow::Error::new(failure)
}

/// Calls `anyhow::Error::new` on a channel's send error, which names no
/// cause of its own. The chain is that one link, written out as futures
/// writes the error.
#[verifier::external_body]
pub(crate) fn chain_from_send_error(failure: futures::channel::mpsc::SendError) -> (chain:
    anyhow::Error)
    ensures
        text_layers(chain) == Seq::<Seq<char>>::empty(),
        opaque_causes(chain) == 1,
        cause_wording(chain) == Some(send_wording(failure)),
{
    anyhow::Error::new(failure)
}

/// Calls `anyhow::Error::new` on a canceled one-shot channel, which names no
/// cause of its own and is always written as `oneshot canceled`. The chain
/// is that one link.
#[verifier::external_body]
pub(crate) fn chain_from_canceled(failure: futures::channel::oneshot::Canceled) -> (chain:
    anyhow::Error)
    ensures
        text_layers(chain) == Seq::<Seq<char>>::empty(),
        opaque_causes(chain) == 1,
        cause_wording(chain) == Some(canceled_wording()),
{
    anyhow::Error::new(failure)
}

/// Calls `anyhow::Error::new` on tokio's elapsed signal, which names no
/// cause of its own and is always written as `deadline has elapsed`. The
/// chain is that one link.
#[verifier::external_body]
pub(crate) fn chain_from_elapsed(failure: tokio::time::Elapsed) -> (chain: anyhow::Error)
    ensures
        text_layers(chain) == Seq::<Seq<char>>::empty(),
        opaque_causes(chain) == 1,
        cause_wording(chain) == Some(elapsed_wording()),
{
    anyhow::Error::new(failure)
}

/// A signature or other cryptographic check that did not hold.
#[derive(Debug)]
pub struct VerifyError {
    /// What the verifier found wrong.
    pub reason: String,
}

/// A failure reported by the connection manager.
#[derive(Debug)]
pub enum PeerManagerError {
    /// Reading from or writing to a peer's byte stream failed.
    IoError(std::io::Error),
    /// The peer named here is not connected.
    NotConnected(String),
    /// Anything else that went wrong while managing connections.
    Other(anyhow::Error),
}

impl PeerManagerError {
    /// The category under which a connection-manager failure is filed:
    /// its own for a failed stream and for a missing connection, the
    /// general one for everything else.
    pub open spec fn kind(self) -> NetworkErrorKind {
        match self {
            PeerManagerError::IoError(_) => NetworkErrorKind::IoError,
            PeerManagerError::NotConnected(_) => NetworkErrorKind::NotConnected,
            PeerManagerError::Other(_) => NetworkErrorKind::PeerManagerError,
        }
    }

    /// The text that the failure brings into a causal chain: the peer's
    /// name, or the text links of the cause it came with. A failed stream
    /// brings its error and no text.
    pub open spec fn texts(self) -> Seq<Seq<char>> {
        match self {
            PeerManagerError::IoError(_) => Seq::empty(),
            PeerManagerError::NotConnected(peer) => seq![peer@],
            PeerManagerError::Other(cause) => text_layers(cause),
        }
    }

    /// Whether a chain made from the failure may have `causes` links behind
    /// its text.
    pub open spec fn admits_causes(self, causes: nat) -> bool {
        match self {
            PeerManagerError::IoError(_) => causes >= 1,
            PeerManagerError::NotConnected(_) => causes == 0,
            PeerManagerError::Other(cause) => causes == opaque_causes(cause),
        }
    }

    /// What the links behind the text are written out as in a chain made
    /// from the failure.
    pub open spec fn wording(self) -> Option<Seq<char>> {
        match self {
            PeerManagerError::IoError(failure) => io_wording(failure),
            PeerManagerError::NotConnected(_) => None,
            PeerManagerError::Other(cause) => cause_wording(cause),
        }
    }
}

/// A failure of one of the collaborating subsystems.
#[derive(Debug)]
pub enum NativeError {
    /// A byte stream could not be read or written.
    Io(std::io::Error),
    /// A signature or other cryptographic check did not hold.
    Signature(VerifyError),
    /// A message could not be encoded.
    Encode(prost::EncodeError),
    /// A message could not be decoded.
    Decode(prost::DecodeError),
    /// A network address could not be parsed.
    Multiaddr(parity_multiaddr::Error),
    /// A message could not be sent on a channel.
    ChannelSend(futures::channel::mpsc::SendError),
    /// The sending half of a one-shot channel went away.
    ChannelCanceled(futures::channel::oneshot::Canceled),
    /// An asynchronous operation did not finish in time.
    Elapsed(tokio::time::Elapsed),
    /// The connection manager failed.
    PeerManager(PeerManagerError),
}

impl NativeError {
    /// The category that each kind of failure is filed under.
    pub open spec fn kind(self) -> NetworkErrorKind {
        match self {
            NativeError::Io(_) => NetworkErrorKind::IoError,
            NativeError::Signature(_) => NetworkErrorKind::SignatureError,
            NativeError::Encode(_) => NetworkErrorKind::ProtobufParseError,
            NativeError::Decode(_) => NetworkErrorKind::ProtobufParseError,
            NativeError::Multiaddr(_) => NetworkErrorKind::MultiaddrError,
            NativeError::ChannelSend(_) => NetworkErrorKind::ChannelSendError,
            NativeError::ChannelCanceled(_) => NetworkErrorKind::ChannelCanceled,
            NativeError::Elapsed(_) => NetworkErrorKind::TimedOut,
            NativeError::PeerManager(failure) => failure.kind(),
        }
    }

    /// The text that the failure brings into a causal chain. Most failures
    /// are errors of other libraries and bring themselves, not text.
    pub open spec fn texts(self) -> Seq<Seq<char>> {
        match self {
            NativeError::Signature(failure) => seq![failure.reason@],
            NativeError::PeerManager(failure) => failure.texts(),
            _ => Seq::empty(),
        }
    }

    /// Whether a chain made from the failure may have `causes` links behind
    /// its text: none where the failure is text, one where it is an error
    /// that names no cause of its own, at least one for an I/O error.
    pub open spec fn admits_causes(self, causes: nat) -> bool {
        match self {
            NativeError::Io(_) => causes >= 1,
            NativeError::Signature(_) => causes == 0,
            NativeError::PeerManager(failure) => failure.admits_causes(causes),
            _ => causes == 1,
        }
    }

    /// What the links behind the text are written out as in a chain made
    /// from the failure: the failure's own wording where it is an error of
    /// another library, nothing where it is text.
    pub open spec fn wording(self) -> Option<Seq<char>> {
        match self {
            NativeError::Io(failure) => io_wording(failure),
            NativeError::Signature(_) => None,
            NativeError::Encode(failure) => Some(encode_wording(failure)),
            NativeError::Decode(failure) => Some(decode_wording(failure)),
            NativeError::Multiaddr(failure) => multiaddr_wording(failure),
            NativeError::ChannelSend(failure) => Some(send_wording(failure)),
            NativeError::ChannelCanceled(_) => Some(canceled_wording()),
            NativeError::Elapsed(_) => Some(elapsed_wording()),
            NativeError::PeerManager(failure) => failure.wording(),
        }
    }
}

/// A connection-manager failure is filed under the I/O category exactly when
/// a stream failed, under the not-connected category exactly when a peer was
/// missing, and under the connection manager's own category exactly when it
/// is anything else.
pub proof fn lemma_peer_manager_kinds_are_exclusive(failure: PeerManagerError)
    ensures
        failure.kind() == NetworkErrorKind::IoError <==> failure is IoError,
        failure.kind() == NetworkErrorKind::NotConnected <==> failure is NotConnected,
        failure.kind() == NetworkErrorKind::PeerManagerError <==> failure is Other,
{
}

/// No failure of a collaborator is filed under the timer categories or the
/// parsing category: those are given only by hand. A deadline that passed is
/// always a timeout.
pub proof fn lemma_kinds_never_classified(native: NativeError)
    ensures
        native.kind() != NetworkErrorKind::TimerError,
        native.kind() != NetworkErrorKind::UnknownTimerError,
        native.kind() != NetworkErrorKind::ParsingError,
        native is Elapsed ==> native.kind() == NetworkErrorKind::TimedOut,
{
}

} // verus!
