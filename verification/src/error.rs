//! The ways in which an exchange can fail.

use vstd::prelude::*;
use vstd::string::StringExecFns;

verus! {

/// The kind of a failure, without its cause.
#[derive(Clone, Copy, Debug, PartialEq, Eq, Structural)]
pub enum ErrorKind {
    /// The local socket could not be bound.
    Bind,
    /// The socket could not be associated with the remote endpoint.
    Connect,
    /// The association did not complete within the connection timeout.
    ConnectionTimeout,
    /// The request packet could not be serialised.
    EncodePacket,
    /// The datagram could not be transmitted.
    Send,
    /// The reply could not be received.
    Receive,
    /// No reply arrived within the socket timeout.
    SocketTimeout,
    /// The reply could not be deserialised or validated.
    DecodePacket,
}

/// The failure of an exchange. Every failure is final: the client never
/// retries, and reports the failure as it is.
///
/// A cause is the text that the failing collaborator gave for its error; a
/// remote endpoint is given in its display form.
#[derive(Clone, Debug, PartialEq, Eq)]
pub enum ClientError {
    /// Binding the local UDP socket failed; holds the cause.
    FailedUdpSocketBindingError(String),
    /// Associating the socket with the remote endpoint failed; holds the
    /// remote endpoint and the cause.
    FailedEstablishingUdpConnectionError(String, String),
    /// Encoding the request packet failed; holds the cause.
    FailedRadiusPacketEncodingError(String),
    /// Sending the request datagram failed; holds the remote endpoint and the
    /// cause.
    FailedSendingRadiusPacketError(String, String),
    /// Receiving the response datagram failed; holds the remote endpoint and
    /// the cause.
    FailedReceivingResponseError(String, String),
    /// Decoding the response packet failed; holds the cause.
    FailedDecodingRadiusResponseError(String),
    /// The association was not established within the connection timeout.
    ConnectionTimeoutError(),
    /// No response arrived within the socket timeout.
    SocketTimeoutError(),
}

/// The mathematical model of a [`ClientError`]: its kind together with the
/// texts it carries.
pub enum Failure {
    /// The local socket could not be bound.
    Bind { cause: Seq<char> },
    /// The socket could not be associated with `remote`.
    Connect { remote: Seq<char>, cause: Seq<char> },
    /// The association did not complete within the connection timeout.
    ConnectionTimeout,
    /// The request packet could not be serialised.
    EncodePacket { cause: Seq<char> },
    /// The datagram could not be transmitted to `remote`.
    Send { remote: Seq<char>, cause: Seq<char> },
    /// The reply of `remote` could not be received.
    Receive { remote: Seq<char>, cause: Seq<char> },
    /// No reply arrived within the socket timeout.
    SocketTimeout,
    /// The reply could not be deserialised or validated.
    DecodePacket { cause: Seq<char> },
}

impl Failure {
    /// The kind of the failure.
    pub open spec fn kind(self) -> ErrorKind {
        match self {
            Failure::Bind { .. } => ErrorKind::Bind,
            Failure::Connect { .. } => ErrorKind::Connect,
            Failure::ConnectionTimeout => ErrorKind::ConnectionTimeout,
            Failure::EncodePacket { .. } => ErrorKind::EncodePacket,
            Failure::Send { .. } => ErrorKind::Send,
            Failure::Receive { .. } => ErrorKind::Receive,
            Failure::SocketTimeout => ErrorKind::SocketTimeout,
            Failure::DecodePacket { .. } => ErrorKind::DecodePacket,
        }
    }

    /// The message that describes the failure to a person.
    pub open spec fn message(self) -> Seq<char> {
        match self {
            Failure::Bind { cause } => "failed to bind a UDP socket; "@ + cause,
            Failure::Connect { remote, cause } => {
                "failed to establish a UDP connection to "@ + remote + "; "@ + cause
            },
            Failure::ConnectionTimeout => "connection timeout"@,
            Failure::EncodePacket { cause } => "failed to encode a RADIUS request; "@ + cause,
            Failure::Send { remote, cause } => {
                "failed to send a UDP datagram to "@ + remote + "; "@ + cause
            },
            Failure::Receive { remote, cause } => {
                "failed to receive the UDP response from "@ + remote + "; "@ + cause
            },
            Failure::SocketTimeout => "socket timeout"@,
            Failure::DecodePacket { cause } => {
                "failed to decode a RADIUS response packet; "@ + cause
            },
        }
    }
}

impl View for ClientError {
    type V = Failure;

    open spec fn view(&self) -> Failure {
        match self {
            ClientError::FailedUdpSocketBindingError(cause) => Failure::Bind { cause: cause@ },
            ClientError::FailedEstablishingUdpConnectionError(remote, cause) => Failure::Connect {
                remote: remote@,
                cause: cause@,
            },
            ClientError::FailedRadiusPacketEncodingError(cause) => Failure::EncodePacket {
                cause: cause@,
            },
            ClientError::FailedSendingRadiusPacketError(remote, cause) => Failure::Send {
                remote: remote@,
                cause: cause@,
            },
            ClientError::FailedReceivingResponseError(remote, cause) => Failure::Receive {
                remote: remote@,
                cause: cause@,
            },
            ClientError::FailedDecodingRadiusResponseError(cause) => Failure::DecodePacket {
                cause: cause@,
            },
            ClientError::ConnectionTimeoutError() => Failure::ConnectionTimeout,
            ClientError::SocketTimeoutError() => Failure::SocketTimeout,
        }
    }
}

/// `head`, then `remote`, then `"; "`, then `cause`.
fn describe_with_remote(head: &str, remote: &String, cause: &String) -> (text: String)
    ensures
        text@ == head@ + remote@ + "; "@ + cause@,
{
    let mut text = String::from_str(head);
    text.append(remote.as_str());
    text.append("; ");
    text.append(cause.as_str());
    text
}

/// `head`, then `cause`.
fn describe(head: &str, cause: &String) -> (text: String)
    ensures
        text@ == head@ + cause@,
{
    let mut text = String::from_str(head);
    text.append(cause.as_str());
    text
}

impl ClientError {
    /// The kind of this failure.
    pub fn kind(&self) -> (kind: ErrorKind)
        ensures
            kind == self@.kind(),
    {
        match self {
            ClientError::FailedUdpSocketBindingError(_) => ErrorKind::Bind,
            ClientError::FailedEstablishingUdpConnectionError(_, _) => ErrorKind::Connect,
            ClientError::FailedRadiusPacketEncodingError(_) => ErrorKind::EncodePacket,
            ClientError::FailedSendingRadiusPacketError(_, _) => ErrorKind::Send,
            ClientError::FailedReceivingResponseError(_, _) => ErrorKind::Receive,
            ClientError::FailedDecodingRadiusResponseError(_) => ErrorKind::DecodePacket,
            ClientError::ConnectionTimeoutError() => ErrorKind::ConnectionTimeout,
            ClientError::SocketTimeoutError() => ErrorKind::SocketTimeout,
        }
    }

    /// Whether this failure is one of the two timeouts, as opposed to a
    /// failure of the operation itself.
    pub fn is_timeout(&self) -> (timeout: bool)
        ensures
            timeout <==> (self@.kind() == ErrorKind::ConnectionTimeout || self@.kind()
                == ErrorKind::SocketTimeout),
    {
        match self {
            ClientError::ConnectionTimeoutError() => true,
            ClientError::SocketTimeoutError() => true,
            _ => false,
        }
    }

    /// The message that describes this failure to a person.
    pub fn to_string(&self) -> (text: String)
        ensures
            text@ == self@.message(),
    {
        match self {
            ClientError::FailedUdpSocketBindingError(cause) => {
                describe("failed to bind a UDP socket; ", cause)
            },
            ClientError::FailedEstablishingUdpConnectionError(remote, cause) => {
                describe_with_remote("failed to establish a UDP connection to ", remote, cause)
            },
            ClientError::FailedRadiusPacketEncodingError(cause) => {
                describe("failed to encode a RADIUS request; ", cause)
            },
            ClientError::FailedSendingRadiusPacketError(remote, cause) => {
                describe_with_remote("failed to send a UDP datagram to ", remote, cause)
            },
            ClientError::FailedReceivingResponseError(remote, cause) => {
                describe_with_remote("failed to receive the UDP response from ", remote, cause)
            },
            ClientError::FailedDecodingRadiusResponseError(cause) => {
                describe("failed to decode a RADIUS response packet; ", cause)
            },
            ClientError::ConnectionTimeoutError() => String::from_str("connection timeout"),
            ClientError::SocketTimeoutError() => String::from_str("socket timeout"),
        }
    }
}

} // verus!
