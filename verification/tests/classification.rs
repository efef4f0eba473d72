use std::time::Duration;

use futures::channel::{mpsc, oneshot};
use network::native::{NativeError, PeerManagerError, VerifyError};
use network::{NetworkError, NetworkErrorKind};
use prost::Message;

fn io_failure() -> std::io::Error {
    std::io::Error::new(std::io::ErrorKind::UnexpectedEof, "stream closed early")
}

fn encode_failure() -> prost::EncodeError {
    let mut space = [0u8; 1];
    let mut buf: &mut [u8] = &mut space;
    String::from("a message that needs more than one byte")
        .encode(&mut buf)
        .unwrap_err()
}

fn send_failure() -> mpsc::SendError {
    let (mut tx, rx) = mpsc::channel::<u8>(1);
    drop(rx);
    tx.try_send(7).unwrap_err().into_send_error()
}

fn elapsed() -> tokio::time::Elapsed {
    let mut runtime = tokio::runtime::Builder::new()
        .basic_scheduler()
        .enable_time()
        .build()
        .unwrap();
    runtime
        .block_on(async {
            tokio::time::timeout(Duration::from_millis(1), futures::future::pending::<()>()).await
        })
        .unwrap_err()
}

#[test]
fn io_failure_is_io_error() {
    let error = NetworkError::classify(NativeError::Io(io_failure()));
    assert_eq!(error.kind(), NetworkErrorKind::IoError);
}

#[test]
fn verify_failure_is_signature_error() {
    let failure = VerifyError { reason: String::from("signature does not match") };
    let error = NetworkError::classify(NativeError::Signature(failure));
    assert_eq!(error.kind(), NetworkErrorKind::SignatureError);
}

#[test]
fn encode_failure_is_protobuf_error() {
    let error = NetworkError::classify(NativeError::Encode(encode_failure()));
    assert_eq!(error.kind(), NetworkErrorKind::ProtobufParseError);
}

#[test]
fn decode_failure_is_protobuf_error() {
    let failure = prost::DecodeError::new("truncated");
    let error = NetworkError::classify(NativeError::Decode(failure));
    assert_eq!(error.kind(), NetworkErrorKind::ProtobufParseError);
}

#[test]
fn decoding_garbage_is_protobuf_error() {
    let failure = String::decode(&[0xffu8, 0xff, 0xff][..]).unwrap_err();
    let error: NetworkError = failure.into();
    assert_eq!(error.kind(), NetworkErrorKind::ProtobufParseError);
}

#[test]
fn address_failure_is_multiaddr_error() {
    let failure = "no address".parse::<parity_multiaddr::Multiaddr>().unwrap_err();
    let error = NetworkError::classify(NativeError::Multiaddr(failure));
    assert_eq!(error.kind(), NetworkErrorKind::MultiaddrError);
}

#[test]
fn send_failure_is_channel_send_error() {
    let error = NetworkError::classify(NativeError::ChannelSend(send_failure()));
    assert_eq!(error.kind(), NetworkErrorKind::ChannelSendError);
}

#[test]
fn canceled_oneshot_is_channel_canceled() {
    let error = NetworkError::classify(NativeError::ChannelCanceled(oneshot::Canceled));
    assert_eq!(error.kind(), NetworkErrorKind::ChannelCanceled);
}

#[test]
fn elapsed_timer_is_timed_out() {
    let error = NetworkError::classify(NativeError::Elapsed(elapsed()));
    assert_eq!(error.kind(), NetworkErrorKind::TimedOut);
    assert_ne!(error.kind(), NetworkErrorKind::TimerError);
    assert_ne!(error.kind(), NetworkErrorKind::UnknownTimerError);
}

#[test]
fn elapsed_timer_is_kept_as_the_cause() {
    let error: NetworkError = elapsed().into();
    assert_eq!(error.kind(), NetworkErrorKind::TimedOut);
    assert_eq!(error.to_string(), "Operation timed out: deadline has elapsed");
}

#[test]
fn classified_elapsed_timer_is_written_with_its_cause() {
    let signal = elapsed();
    let wording = signal.to_string();
    let error = NetworkError::classify(NativeError::Elapsed(signal));
    assert_eq!(error.to_string(), format!("Operation timed out: {}", wording));
    assert_ne!(
        error.to_string(),
        NetworkError::from_kind(NetworkErrorKind::TimedOut).to_string()
    );
}

#[test]
fn encode_failure_is_written_with_its_cause() {
    let wording = encode_failure().to_string();
    let error: NetworkError = encode_failure().into();
    assert_eq!(
        error.to_string(),
        format!("Error parsing protobuf message: {}", wording)
    );
    assert!(error.to_string().contains("insufficient buffer capacity"));
}

#[test]
fn decode_failure_is_written_with_its_cause() {
    let failure = String::decode(&[0xffu8, 0xff, 0xff][..]).unwrap_err();
    let wording = failure.to_string();
    let error = NetworkError::classify(NativeError::Decode(failure));
    assert_eq!(
        error.to_string(),
        format!("Error parsing protobuf message: {}", wording)
    );
    assert!(error.to_string().contains("failed to decode Protobuf message"));
}

#[test]
fn send_failure_is_written_with_its_cause() {
    let error: NetworkError = send_failure().into();
    assert_eq!(
        error.to_string(),
        "Error sending on mpsc channel: send failed because receiver is gone"
    );
}

#[test]
fn different_io_failures_are_written_differently() {
    let first: NetworkError =
        std::io::Error::new(std::io::ErrorKind::Other, "first failure").into();
    let second: NetworkError =
        std::io::Error::new(std::io::ErrorKind::Other, "second failure").into();
    assert_eq!(first.to_string(), "IO error: first failure");
    assert_eq!(second.to_string(), "IO error: second failure");
}

#[test]
fn io_failure_with_a_cause_beneath_is_written_to_the_root() {
    let root = std::io::Error::new(std::io::ErrorKind::Other, "boom");
    let error: NetworkError = root.into();
    assert!(error.to_string().contains("IO error"));
    assert!(error.to_string().contains("boom"));
}

#[test]
fn peer_manager_io_failure_is_io_error() {
    let failure = PeerManagerError::IoError(io_failure());
    let error = NetworkError::classify(NativeError::PeerManager(failure));
    assert_eq!(error.kind(), NetworkErrorKind::IoError);
}

#[test]
fn peer_manager_not_connected_is_not_connected() {
    let failure = PeerManagerError::NotConnected(String::from("peer-7"));
    let error = NetworkError::classify(NativeError::PeerManager(failure));
    assert_eq!(error.kind(), NetworkErrorKind::NotConnected);
    assert_ne!(error.kind(), NetworkErrorKind::PeerManagerError);
}

#[test]
fn peer_manager_other_failure_is_peer_manager_error() {
    let failure = PeerManagerError::Other(anyhow::Error::msg(String::from("shutting down")));
    let error = NetworkError::classify(NativeError::PeerManager(failure));
    assert_eq!(error.kind(), NetworkErrorKind::PeerManagerError);
}

#[test]
fn peer_manager_kinds_do_not_mix() {
    let io: NetworkError = PeerManagerError::IoError(io_failure()).into();
    let missing: NetworkError = PeerManagerError::NotConnected(String::from("peer-7")).into();
    let other: NetworkError =
        PeerManagerError::Other(anyhow::Error::new(oneshot::Canceled)).into();
    assert_eq!(io.kind(), NetworkErrorKind::IoError);
    assert_eq!(missing.kind(), NetworkErrorKind::NotConnected);
    assert_eq!(other.kind(), NetworkErrorKind::PeerManagerError);
}

#[test]
fn classifying_twice_gives_the_same_kind() {
    let first = NetworkError::classify(NativeError::Io(io_failure()));
    let second = NetworkError::classify(NativeError::Io(io_failure()));
    assert_eq!(first.kind(), second.kind());
    assert_eq!(first.to_string(), second.to_string());
}

#[test]
fn conversions_agree_with_classify() {
    let converted: NetworkError = io_failure().into();
    let classified = NetworkError::classify(NativeError::Io(io_failure()));
    assert_eq!(converted.kind(), classified.kind());
    assert_eq!(converted.to_string(), classified.to_string());

    let converted: NetworkError = send_failure().into();
    assert_eq!(converted.kind(), NetworkErrorKind::ChannelSendError);
    let converted: NetworkError = oneshot::Canceled.into();
    assert_eq!(converted.kind(), NetworkErrorKind::ChannelCanceled);
    let converted: NetworkError = encode_failure().into();
    assert_eq!(converted.kind(), NetworkErrorKind::ProtobufParseError);
    let converted: NetworkError = parity_multiaddr::Error::InvalidMultiaddr.into();
    assert_eq!(converted.kind(), NetworkErrorKind::MultiaddrError);
    let converted: NetworkError =
        VerifyError { reason: String::from("unknown author") }.into();
    assert_eq!(converted.kind(), NetworkErrorKind::SignatureError);
}

#[test]
fn kind_converts_to_error_of_that_kind() {
    let error: NetworkError = NetworkErrorKind::ParsingError.into();
    assert_eq!(error.kind(), NetworkErrorKind::ParsingError);
    assert_eq!(error.to_string(), "Parsing error");
}

#[test]
fn question_mark_converts_io_failures() {
    fn read() -> Result<u8, NetworkError> {
        let byte: Result<u8, std::io::Error> = Err(io_failure());
        Ok(byte?)
    }
    let error = read().unwrap_err();
    assert_eq!(error.kind(), NetworkErrorKind::IoError);
}
