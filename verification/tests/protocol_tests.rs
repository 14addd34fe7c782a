use rewrk::bench::{BenchType, BenchmarkSettings};
use rewrk::builder::{build_http1, build_http2, ClientBuilder};
use rewrk::connector::{Connect, ConnectorKind, HttpsConnector};
use rewrk::headers::parse_header_line;
use rewrk::protocol::{Http1, Http2, HttpProtocol};
use rewrk::runtime::partition_connections;
use rewrk::uri::{ParsedUri, Scheme};

fn http_uri() -> ParsedUri {
    ParsedUri {
        scheme: Scheme::HTTP,
        host: b"127.0.0.1".to_vec(),
        explicit_port: Some(5050),
        path: b"/".to_vec(),
    }
}

fn https_uri() -> ParsedUri {
    ParsedUri {
        scheme: Scheme::HTTPS,
        host: b"example.com".to_vec(),
        explicit_port: None,
        path: b"/bench".to_vec(),
    }
}

#[test]
fn scheme_default_ports() {
    assert_eq!(Scheme::HTTP.default_port(), 80);
    assert_eq!(Scheme::HTTPS.default_port(), 443);
    assert_eq!(http_uri().port(), 5050);
    assert_eq!(https_uri().port(), 443);
}

#[test]
fn host_header_carries_explicit_port_only() {
    assert_eq!(http_uri().host_header(), b"127.0.0.1:5050".to_vec());
    assert_eq!(https_uri().host_header(), b"example.com".to_vec());
}

#[test]
fn full_target_rebuilds_the_url() {
    assert_eq!(http_uri().full_target(), b"http://127.0.0.1:5050/".to_vec());
    assert_eq!(https_uri().full_target(), b"https://example.com/bench".to_vec());
}

#[test]
fn alpn_tokens() {
    let h1: Vec<Vec<u8>> = Http1.alpn_protocols();
    assert_eq!(h1, vec![b"http/1.1".to_vec()]);
    let h2: Vec<Vec<u8>> = Http2.alpn_protocols();
    assert_eq!(h2, vec![b"h2".to_vec()]);
    assert!(!Http1.is_http2());
    assert!(Http2.is_http2());
}

#[test]
fn http1_request_targets_path_with_host_header() {
    let user = vec![(b"User-Agent".to_vec(), b"wrk".to_vec())];
    let plan = Http1.get_request(&http_uri(), &user);
    assert_eq!(plan.target, b"/".to_vec());
    assert_eq!(plan.headers.len(), 2);
    assert_eq!(plan.headers[0].0, b"Host".to_vec());
    assert_eq!(plan.headers[0].1, b"127.0.0.1:5050".to_vec());
    assert_eq!(plan.headers[1].0, b"User-Agent".to_vec());
    assert_eq!(plan.headers[1].1, b"wrk".to_vec());
}

#[test]
fn http2_request_targets_full_url_without_host_header() {
    let user = vec![(b"Accept".to_vec(), b"*/*".to_vec())];
    let plan = Http2.get_request(&https_uri(), &user);
    assert_eq!(plan.target, b"https://example.com/bench".to_vec());
    assert_eq!(plan.headers.len(), 1);
    assert_eq!(plan.headers[0].0, b"Accept".to_vec());
}

#[test]
fn builder_picks_plain_for_http() {
    let b = ClientBuilder::new(1_000_000_000, 16, http_uri(), Vec::new());
    assert_eq!(b.uri_scheme(), Scheme::HTTP);
    assert_eq!(b.uri_host(), &b"127.0.0.1".to_vec());
    let client = build_http1(b);
    assert!(!client.connector.uses_tls());
    assert!(matches!(client.connector, ConnectorKind::Plain(_)));
    assert_eq!(client.time_for, 1_000_000_000);
}

#[test]
fn builder_picks_tls_with_h2_alpn_for_https() {
    let b = ClientBuilder::new(2_000_000_000, 16, https_uri(), Vec::new());
    let client = build_http2(b);
    assert!(client.connector.uses_tls());
    match &client.connector {
        ConnectorKind::Tls(tls) => {
            assert_eq!(tls.server_name, b"example.com".to_vec());
            assert_eq!(tls.alpn, vec![b"h2".to_vec()]);
        }
        ConnectorKind::Plain(_) => panic!("expected a TLS connector"),
    }
}

#[test]
fn builder_picks_tls_with_http11_alpn_for_https() {
    let b = ClientBuilder::new(2_000_000_000, 16, https_uri(), Vec::new());
    let client = build_http1(b);
    match &client.connector {
        ConnectorKind::Tls(tls) => {
            assert_eq!(tls.alpn, vec![b"http/1.1".to_vec()]);
        }
        ConnectorKind::Plain(_) => panic!("expected a TLS connector"),
    }
}

#[test]
fn https_connector_keeps_its_plan() {
    let c = HttpsConnector::new(&b"example.com".to_vec(), vec![b"h2".to_vec()]);
    assert_eq!(c.server_name, b"example.com".to_vec());
    assert_eq!(c.alpn, vec![b"h2".to_vec()]);
    assert!(c.uses_tls());
}

#[test]
fn header_line_splits_on_first_colon_and_trims_value() {
    assert_eq!(
        parse_header_line(b"User-Agent: wrk"),
        Some((b"User-Agent".to_vec(), b"wrk".to_vec()))
    );
    assert_eq!(
        parse_header_line(b"X-Time: 12:30:00 "),
        Some((b"X-Time".to_vec(), b"12:30:00".to_vec()))
    );
    assert_eq!(
        parse_header_line(b"Name :\t padded value \t"),
        Some((b"Name ".to_vec(), b"padded value".to_vec()))
    );
    assert_eq!(parse_header_line(b"Empty:   "), Some((b"Empty".to_vec(), b"".to_vec())));
    assert_eq!(parse_header_line(b":leading"), Some((b"".to_vec(), b"leading".to_vec())));
}

#[test]
fn header_line_without_colon_is_malformed() {
    assert_eq!(parse_header_line(b"no colon here"), None);
    assert_eq!(parse_header_line(b""), None);
}

#[test]
fn partition_spreads_connections_evenly() {
    assert_eq!(partition_connections(4, 2), vec![2, 2]);
    assert_eq!(partition_connections(10, 3), vec![4, 3, 3]);
    assert_eq!(partition_connections(1, 1), vec![1]);
    assert_eq!(partition_connections(0, 3), vec![0, 0, 0]);
}

#[test]
fn more_threads_than_connections_leaves_idle_contexts() {
    let parts = partition_connections(3, 5);
    assert_eq!(parts, vec![1, 1, 1, 0, 0]);
    let idle = parts.iter().filter(|&&c| c == 0).count();
    assert_eq!(idle, 2);
    let total: usize = parts.iter().sum();
    assert_eq!(total, 3);
}

#[test]
fn settings_reject_zero_bounds() {
    let ok = BenchmarkSettings::new(
        2,
        4,
        b"http://localhost:5050".to_vec(),
        BenchType::HTTP2,
        2,
        false,
        false,
        1,
        Vec::new(),
    );
    assert!(ok.is_some());
    let s = ok.unwrap();
    assert_eq!(s.threads, 2);
    assert_eq!(s.connections, 4);
    assert_eq!(s.bench_type, BenchType::HTTP2);

    let zero_duration = BenchmarkSettings::new(
        1,
        1,
        b"http://localhost".to_vec(),
        BenchType::HTTP1,
        0,
        false,
        false,
        1,
        Vec::new(),
    );
    assert!(zero_duration.is_none());
    assert!(BenchmarkSettings::new(0, 1, Vec::new(), BenchType::HTTP1, 1, false, false, 1, Vec::new())
        .is_none());
    assert!(BenchmarkSettings::new(1, 0, Vec::new(), BenchType::HTTP1, 1, false, false, 1, Vec::new())
        .is_none());
    assert!(BenchmarkSettings::new(1, 1, Vec::new(), BenchType::HTTP1, 1, false, false, 0, Vec::new())
        .is_none());
}
