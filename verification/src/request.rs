//! Requests as the transport layer hands them over.

use vstd::prelude::*;

verus! {

/// A socket address, held as plain numbers.
#[derive(Clone, Copy, Debug, PartialEq, Eq)]
pub enum SocketAddress {
    V4 { octets: [u8; 4], port: u16 },
    V6 { segments: [u16; 8], port: u16, flowinfo: u32, scope_id: u32 },
}

/// One request: the path it asks for and the peer it came from. The peer's
/// address is carried for logging only and never decides the response.
#[derive(Clone, Debug, PartialEq, Eq)]
pub struct IncomingRequest {
    pub path: String,
    pub client_address: SocketAddress,
}

/// What a request means.
pub struct RequestView {
    pub path: Seq<char>,
    pub client_address: SocketAddress,
}

impl View for IncomingRequest {
    type V = RequestView;

    open spec fn view(&self) -> RequestView {
        RequestView { path: self.path@, client_address: self.client_address }
    }
}

impl IncomingRequest {
    /// A request for `path` from the peer at `client_address`.
    pub fn new(path: String, client_address: SocketAddress) -> (request: IncomingRequest)
        ensures
            request@ == (RequestView { path: path@, client_address }),
    {
        IncomingRequest { path, client_address }
    }
}

} // verus!
