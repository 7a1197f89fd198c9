use radius_client::error::{ClientError, ErrorKind};

fn text(s: &str) -> String {
    s.to_string()
}

#[test]
fn bind_failure_message() {
    let error = ClientError::FailedUdpSocketBindingError(text("address in use"));
    assert_eq!(error.kind(), ErrorKind::Bind);
    assert_eq!(error.to_string(), "failed to bind a UDP socket; address in use");
}

#[test]
fn connect_failure_message() {
    let error = ClientError::FailedEstablishingUdpConnectionError(
        text("10.0.0.1:1812"),
        text("network is unreachable"),
    );
    assert_eq!(error.kind(), ErrorKind::Connect);
    assert_eq!(
        error.to_string(),
        "failed to establish a UDP connection to 10.0.0.1:1812; network is unreachable"
    );
}

#[test]
fn encoding_failure_message() {
    let error = ClientError::FailedRadiusPacketEncodingError(text("attribute is too long"));
    assert_eq!(error.kind(), ErrorKind::EncodePacket);
    assert_eq!(
        error.to_string(),
        "failed to encode a RADIUS request; attribute is too long"
    );
}

#[test]
fn send_failure_message() {
    let error =
        ClientError::FailedSendingRadiusPacketError(text("[::1]:1812"), text("broken pipe"));
    assert_eq!(error.kind(), ErrorKind::Send);
    assert_eq!(
        error.to_string(),
        "failed to send a UDP datagram to [::1]:1812; broken pipe"
    );
}

#[test]
fn receive_failure_message() {
    let error = ClientError::FailedReceivingResponseError(
        text("127.0.0.1:1812"),
        text("connection refused"),
    );
    assert_eq!(error.kind(), ErrorKind::Receive);
    assert_eq!(
        error.to_string(),
        "failed to receive the UDP response from 127.0.0.1:1812; connection refused"
    );
}

#[test]
fn decoding_failure_message() {
    let error = ClientError::FailedDecodingRadiusResponseError(text("packet is too short"));
    assert_eq!(error.kind(), ErrorKind::DecodePacket);
    assert_eq!(
        error.to_string(),
        "failed to decode a RADIUS response packet; packet is too short"
    );
}

#[test]
fn connection_timeout_message() {
    let error = ClientError::ConnectionTimeoutError();
    assert_eq!(error.kind(), ErrorKind::ConnectionTimeout);
    assert_eq!(error.to_string(), "connection timeout");
}

#[test]
fn socket_timeout_message() {
    let error = ClientError::SocketTimeoutError();
    assert_eq!(error.kind(), ErrorKind::SocketTimeout);
    assert_eq!(error.to_string(), "socket timeout");
}

#[test]
fn empty_cause_leaves_the_head_of_the_message() {
    let error = ClientError::FailedUdpSocketBindingError(String::new());
    assert_eq!(error.to_string(), "failed to bind a UDP socket; ");
    let error = ClientError::FailedSendingRadiusPacketError(String::new(), String::new());
    assert_eq!(error.to_string(), "failed to send a UDP datagram to ; ");
}

#[test]
fn only_the_two_timeouts_are_timeouts() {
    assert!(ClientError::ConnectionTimeoutError().is_timeout());
    assert!(ClientError::SocketTimeoutError().is_timeout());
    assert!(!ClientError::FailedUdpSocketBindingError(text("x")).is_timeout());
    assert!(!ClientError::FailedEstablishingUdpConnectionError(text("a"), text("x")).is_timeout());
    assert!(!ClientError::FailedRadiusPacketEncodingError(text("x")).is_timeout());
    assert!(!ClientError::FailedSendingRadiusPacketError(text("a"), text("x")).is_timeout());
    assert!(!ClientError::FailedReceivingResponseError(text("a"), text("x")).is_timeout());
    assert!(!ClientError::FailedDecodingRadiusResponseError(text("x")).is_timeout());
}

#[test]
fn every_kind_belongs_to_one_error() {
    let errors = vec![
        ClientError::FailedUdpSocketBindingError(text("x")),
        ClientError::FailedEstablishingUdpConnectionError(text("a"), text("x")),
        ClientError::ConnectionTimeoutError(),
        ClientError::FailedRadiusPacketEncodingError(text("x")),
        ClientError::FailedSendingRadiusPacketError(text("a"), text("x")),
        ClientError::FailedReceivingResponseError(text("a"), text("x")),
        ClientError::SocketTimeoutError(),
        ClientError::FailedDecodingRadiusResponseError(text("x")),
    ];
    let kinds = vec![
        ErrorKind::Bind,
        ErrorKind::Connect,
        ErrorKind::ConnectionTimeout,
        ErrorKind::EncodePacket,
        ErrorKind::Send,
        ErrorKind::Receive,
        ErrorKind::SocketTimeout,
        ErrorKind::DecodePacket,
    ];
    for (i, error) in errors.iter().enumerate() {
        for (j, kind) in kinds.iter().enumerate() {
            assert_eq!(error.kind() == *kind, i == j);
        }
    }
}
