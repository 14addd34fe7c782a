//! The connectors: how a transport for one connection is established. The
//! plain connector opens TCP alone; the TLS connector also performs a TLS
//! handshake to a server name, offering the protocol strategy's ALPN tokens.
//! Here a connector is the plan for that work — the data that fixes what the
//! transport layer is to do.
use vstd::prelude::*;

verus! {

/// A connector: something that can establish a transport.
pub trait Connect: Sized {
    /// Whether the transport is wrapped in TLS.
    spec fn spec_uses_tls(&self) -> bool;

    fn uses_tls(&self) -> (r: bool)
        ensures
            r == self.spec_uses_tls(),
    ;
}

/// The plain TCP connector.
pub struct HttpConnector;

impl HttpConnector {
    pub fn new() -> (r: Self) {
        HttpConnector
    }
}

impl Connect for HttpConnector {
    /// Plain TCP carries no TLS.
    open spec fn spec_uses_tls(&self) -> bool {
        false
    }

    fn uses_tls(&self) -> (r: bool) {
        false
    }
}

/// The TLS connector's plan: the server name the handshake certifies and the
/// ALPN tokens it offers, in order. The negotiated token must be one of
/// these; a mismatch is a connection failure.
pub struct HttpsConnector {
    pub server_name: Vec<u8>,
    pub alpn: Vec<Vec<u8>>,
}

impl HttpsConnector {
    /// Plans a TLS connection to `domain` offering exactly `alpn`.
    pub fn new(domain: &Vec<u8>, alpn: Vec<Vec<u8>>) -> (r: Self)
        ensures
            r.server_name@ == domain@,
            r.alpn == alpn,
    {
        let server_name = domain.clone();
        proof {
            assert(server_name@ =~= domain@);
        }
        HttpsConnector { server_name, alpn }
    }
}

impl Connect for HttpsConnector {
    /// The TLS connector always wraps the stream in TLS.
    open spec fn spec_uses_tls(&self) -> bool {
        true
    }

    fn uses_tls(&self) -> (r: bool) {
        true
    }
}

/// One of the two connectors, chosen by the target's scheme.
pub enum ConnectorKind {
    Plain(HttpConnector),
    Tls(HttpsConnector),
}

impl Connect for ConnectorKind {
    /// TLS is used exactly for the TLS connector.
    open spec fn spec_uses_tls(&self) -> bool {
        self is Tls
    }

    fn uses_tls(&self) -> (r: bool) {
        match self {
            ConnectorKind::Plain(_) => false,
            ConnectorKind::Tls(_) => true,
        }
    }
}

} // verus!
