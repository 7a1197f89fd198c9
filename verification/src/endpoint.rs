//! The remote endpoint of an exchange, as far as the client reads it.

use vstd::prelude::*;

verus! {

/// The server that an exchange talks to: an IP address and a port.
///
/// The client reads two things of it: the address family, which decides the
/// local address to bind, and the display form, which goes into the report of
/// a failed association, transmission or reception.
#[derive(Clone, Debug, PartialEq, Eq)]
pub struct RemoteEndpoint {
    ipv4: bool,
    text: String,
}

/// The mathematical model of a [`RemoteEndpoint`].
pub struct RemoteEndpointView {
    /// Whether the address is an IPv4 address; otherwise it is an IPv6 address.
    pub ipv4: bool,
    /// The display form of address and port.
    pub text: Seq<char>,
}

impl View for RemoteEndpoint {
    type V = RemoteEndpointView;

    closed spec fn view(&self) -> RemoteEndpointView {
        RemoteEndpointView { ipv4: self.ipv4, text: self.text@ }
    }
}

impl RemoteEndpoint {
    /// An endpoint of the IPv4 family if `ipv4` holds, of the IPv6 family
    /// otherwise, with `text` as its display form.
    pub fn new(ipv4: bool, text: String) -> (endpoint: RemoteEndpoint)
        ensures
            endpoint@ == (RemoteEndpointView { ipv4, text: text@ }),
    {
        RemoteEndpoint { ipv4, text }
    }

    /// Whether the endpoint's address is an IPv4 address.
    pub fn is_ipv4(&self) -> (ipv4: bool)
        ensures
            ipv4 == self@.ipv4,
    {
        self.ipv4
    }

    /// The display form of the endpoint.
    pub fn to_string(&self) -> (text: String)
        ensures
            text@ == self@.text,
    {
        self.text.clone()
    }
}

} // verus!
