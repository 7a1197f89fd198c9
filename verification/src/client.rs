//! The client's configuration.

use std::time::Duration;
use vstd::prelude::*;

verus! {

/// The largest payload that a UDP datagram can carry, in bytes. A reply is
/// cut to this size before it is decoded.
pub const MAX_DATAGRAM_SIZE: usize = 65507;

/// A RADIUS client: the two timeouts that every exchange it starts will honour.
///
/// A client holds nothing else and never changes, so one client serves any
/// number of exchanges, one after another or at once. It never retries: a
/// caller that wants retransmission starts another exchange.
#[derive(Clone, Copy, Debug)]
pub struct Client {
    connection_timeout: Option<Duration>,
    socket_timeout: Option<Duration>,
}

impl Client {
    /// A client with the given timeouts.
    ///
    /// `connection_timeout` bounds the association of the socket with the
    /// remote endpoint; `socket_timeout` bounds the transmission of the request
    /// and the wait for the reply, taken together. `None` means to wait without
    /// bound. Any duration is accepted and kept as it is.
    pub fn new(connection_timeout: Option<Duration>, socket_timeout: Option<Duration>) -> (client:
        Client)
        ensures
            client.connection_timeout() == connection_timeout,
            client.socket_timeout() == socket_timeout,
    {
        Client { connection_timeout, socket_timeout }
    }

    /// The bound on the association step, if there is one.
    pub closed spec fn spec_connection_timeout(&self) -> Option<Duration> {
        self.connection_timeout
    }

    /// The bound on the transmission and reception steps together, if there
    /// is one.
    pub closed spec fn spec_socket_timeout(&self) -> Option<Duration> {
        self.socket_timeout
    }

    /// The bound on the association step, if there is one.
    #[verifier::when_used_as_spec(spec_connection_timeout)]
    pub fn connection_timeout(&self) -> (timeout: Option<Duration>)
        ensures
            timeout == self.connection_timeout(),
    {
        self.connection_timeout
    }

    /// The bound on the transmission and reception steps together, if there
    /// is one.
    #[verifier::when_used_as_spec(spec_socket_timeout)]
    pub fn socket_timeout(&self) -> (timeout: Option<Duration>)
        ensures
            timeout == self.socket_timeout(),
    {
        self.socket_timeout
    }
}

} // verus!
