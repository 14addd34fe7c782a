//! Building clients from the run's settings: the builder carries the
//! deadline, the capacity hint, the parsed target and the user headers, and
//! the scheme of the target decides the connector — plain TCP for HTTP, a
//! TLS plan to the target's host offering the strategy's ALPN tokens for
//! HTTPS.
use crate::client::BenchmarkClient;
use crate::connector::{ConnectorKind, HttpConnector, HttpsConnector};
use crate::protocol::{alpn_view, Http1, Http2, HttpProtocol};
use crate::uri::{ParsedUri, Scheme};
use vstd::prelude::*;

verus! {

/// Everything a client needs besides its connector and protocol.
pub struct ClientBuilder {
    pub time_for: u64,
    pub predicted_size: usize,
    pub parsed_uri: ParsedUri,
    pub headers: Vec<(Vec<u8>, Vec<u8>)>,
}

impl ClientBuilder {
    /// Collects the parts a client is built from.
    pub fn new(
        time_for: u64,
        predicted_size: usize,
        parsed_uri: ParsedUri,
        headers: Vec<(Vec<u8>, Vec<u8>)>,
    ) -> (r: Self)
        ensures
            r.time_for == time_for,
            r.predicted_size == predicted_size,
            r.parsed_uri == parsed_uri,
            r.headers == headers,
    {
        ClientBuilder { time_for, predicted_size, parsed_uri, headers }
    }

    /// The host of the target.
    pub fn uri_host(&self) -> (r: &Vec<u8>)
        ensures
            r@ == self.parsed_uri.host@,
    {
        &self.parsed_uri.host
    }

    /// The scheme of the target.
    pub fn uri_scheme(&self) -> (r: Scheme)
        ensures
            r == self.parsed_uri.scheme,
    {
        self.parsed_uri.scheme
    }

    /// Finishes the client with the given connector and protocol.
    pub fn build<C, P>(self, connector: C, protocol: P) -> (r: BenchmarkClient<C, P>) where
        C: crate::connector::Connect,
        P: HttpProtocol,

        ensures
            r.connector == connector,
            r.protocol == protocol,
            r.time_for == self.time_for,
            r.predicted_size == self.predicted_size,
            r.parsed_uri == self.parsed_uri,
            r.headers == self.headers,
    {
        BenchmarkClient::new(
            connector,
            protocol,
            self.time_for,
            self.predicted_size,
            self.parsed_uri,
            self.headers,
        )
    }
}

/// What the connector of a finished client must be for its target: plain for
/// HTTP; for HTTPS, a TLS plan to the target's host offering exactly the
/// protocol strategy's ALPN tokens.
pub open spec fn connector_matches(c: ConnectorKind, uri: ParsedUri, alpn: Seq<Seq<u8>>) -> bool {
    match c {
        ConnectorKind::Plain(_) => uri.scheme == Scheme::HTTP,
        ConnectorKind::Tls(tls) => uri.scheme == Scheme::HTTPS && tls.server_name@ == uri.host@
            && alpn_view(tls.alpn@) == alpn,
    }
}

/// Builds the HTTP/1 client for the builder's target: the scheme picks the
/// connector, and a TLS connector offers `http/1.1` to the target's host.
pub fn build_http1(builder: ClientBuilder) -> (r: BenchmarkClient<ConnectorKind, Http1>)
    ensures
        connector_matches(r.connector, builder.parsed_uri, Http1.spec_alpn()),
        r.time_for == builder.time_for,
        r.predicted_size == builder.predicted_size,
        r.parsed_uri == builder.parsed_uri,
        r.headers == builder.headers,
{
    let protocol = Http1;
    match builder.uri_scheme() {
        Scheme::HTTP => build_http(builder, protocol),
        Scheme::HTTPS => build_https(builder, protocol),
    }
}

/// Builds the HTTP/2 client for the builder's target: the scheme picks the
/// connector, and a TLS connector offers `h2` to the target's host.
pub fn build_http2(builder: ClientBuilder) -> (r: BenchmarkClient<ConnectorKind, Http2>)
    ensures
        connector_matches(r.connector, builder.parsed_uri, Http2.spec_alpn()),
        r.time_for == builder.time_for,
        r.predicted_size == builder.predicted_size,
        r.parsed_uri == builder.parsed_uri,
        r.headers == builder.headers,
{
    let protocol = Http2;
    match builder.uri_scheme() {
        Scheme::HTTP => build_http(builder, protocol),
        Scheme::HTTPS => build_https(builder, protocol),
    }
}

/// Pairs the builder with the plain connector.
fn build_http<P>(builder: ClientBuilder, protocol: P) -> (r: BenchmarkClient<ConnectorKind, P>) where
    P: HttpProtocol + Copy,

    requires
        builder.parsed_uri.scheme == Scheme::HTTP,
    ensures
        connector_matches(r.connector, builder.parsed_uri, protocol.spec_alpn()),
        r.protocol == protocol,
        r.time_for == builder.time_for,
        r.predicted_size == builder.predicted_size,
        r.parsed_uri == builder.parsed_uri,
        r.headers == builder.headers,
{
    builder.build(ConnectorKind::Plain(HttpConnector::new()), protocol)
}

/// Pairs the builder with a TLS plan to the builder's host, offering the
/// protocol strategy's ALPN tokens.
fn build_https<P>(builder: ClientBuilder, protocol: P) -> (r: BenchmarkClient<ConnectorKind, P>) where
    P: HttpProtocol + Copy,

    requires
        builder.parsed_uri.scheme == Scheme::HTTPS,
    ensures
        connector_matches(r.connector, builder.parsed_uri, protocol.spec_alpn()),
        r.protocol == protocol,
        r.time_for == builder.time_for,
        r.predicted_size == builder.predicted_size,
        r.parsed_uri == builder.parsed_uri,
        r.headers == builder.headers,
{
    let host = builder.uri_host().clone();
    proof {
        assert(host@ =~= builder.parsed_uri.host@);
    }
    let tls = HttpsConnector::new(&host, protocol.alpn_protocols());
    builder.build(ConnectorKind::Tls(tls), protocol)
}

} // verus!
