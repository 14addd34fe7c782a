use rewrk::client::{
    BenchmarkClient, ByteCounter, Client, ClientState, RETRY_BACKOFF_NANOS,
};
use rewrk::connector::{Connect, ConnectorKind, HttpConnector};
use rewrk::protocol::Http1;
use rewrk::uri::{ParsedUri, Scheme};

fn uri() -> ParsedUri {
    ParsedUri {
        scheme: Scheme::HTTP,
        host: b"localhost".to_vec(),
        explicit_port: Some(5050),
        path: b"/".to_vec(),
    }
}

fn accounting_holds(s: &ClientState) {
    assert_eq!(
        s.success + s.dropped_on_deadline + s.error + s.never_issued,
        s.attempted
    );
    assert_eq!(s.latencies.len() as u64, s.success);
}

#[test]
fn steady_successes_within_deadline() {
    // One connection against a server that answers 200 OK with an empty body.
    let mut s = ClientState::begin(1_000_000_000, 16);
    s.on_connected(0);
    let mut now = 0u64;
    let mut issued = 0u64;
    while s.should_continue(now) && issued < 5 {
        s.begin_request();
        now += 100_000_000;
        s.complete_request(true, 90_000_000, now);
        issued += 1;
        accounting_holds(&s);
    }
    s.on_deadline(1_000_000_000);
    accounting_holds(&s);
    s.record_bytes(5 * 128);
    let r = s.finish(1_000_000_000);
    assert!(r.success > 0);
    assert_eq!(r.error, 0);
    assert_eq!(r.request_times.len() as u64, r.success);
    assert_eq!(r.buffer_sizes, vec![5 * 128]);
    assert_eq!(r.total_times, vec![1_000_000_000]);
    for d in &r.request_times {
        assert!(*d <= r.total_times[0]);
    }
}

#[test]
fn all_errors_yield_no_latencies() {
    // A server answering 503 on every request: errors counted, no samples.
    let mut s = ClientState::begin(1_000_000_000, 16);
    s.on_connected(0);
    let mut now = 0u64;
    for _ in 0..7 {
        s.begin_request();
        now += 50_000_000;
        s.complete_request(false, 40_000_000, now);
    }
    accounting_holds(&s);
    s.on_deadline(1_000_000_000);
    let r = s.finish(1_000_000_000);
    assert_eq!(r.success, 0);
    assert_eq!(r.error, 7);
    assert_eq!(r.request_times.len(), 0);
}

#[test]
fn reconnects_interleave_with_successes() {
    // The server drops the connection after each answered request.
    let mut s = ClientState::begin(2_000_000_000, 16);
    s.on_connected(0);
    let mut now = 0u64;
    for _ in 0..4 {
        s.begin_request();
        now += 100_000_000;
        s.complete_request(true, 100_000_000, now);
        s.begin_request();
        now += 10_000_000;
        s.on_connection_died(now);
        now += RETRY_BACKOFF_NANOS;
        s.on_connected(now);
        accounting_holds(&s);
    }
    s.on_deadline(2_000_000_000);
    let r = s.finish(2_000_000_000);
    assert_eq!(r.success, 4);
    assert_eq!(r.error, 0);
    assert_eq!(r.request_times.len(), 4);
}

#[test]
fn deadline_drops_in_flight_request() {
    let mut s = ClientState::begin(500, 4);
    s.on_connected(0);
    s.begin_request();
    s.on_deadline(600);
    assert_eq!(s.dropped_on_deadline, 1);
    assert_eq!(s.attempted, 1);
    accounting_holds(&s);
    let r = s.finish(600);
    assert_eq!(r.success, 0);
    assert_eq!(r.error, 0);
}

#[test]
fn never_connected_worker_is_empty() {
    // Every connection attempt fails for the whole deadline: the client
    // contributes an empty result rather than an error.
    let s = ClientState::begin(1_000, 4);
    let mut now = 0u64;
    while s.should_continue(now) {
        now += RETRY_BACKOFF_NANOS;
    }
    let r = rewrk::results::WorkerResult::default();
    assert_eq!(r.success, 0);
    assert_eq!(r.error, 0);
    assert!(r.total_times.is_empty());
    assert!(r.request_times.is_empty());
    assert!(r.buffer_sizes.is_empty());
}

#[test]
fn should_continue_is_strict() {
    let s = ClientState::begin(1_000, 4);
    assert!(s.should_continue(999));
    assert!(!s.should_continue(1_000));
    assert!(!s.should_continue(1_001));
}

#[test]
fn byte_counter_grows_monotonically() {
    let mut c = ByteCounter::new();
    assert_eq!(c.load(), 0);
    let mut last = 0u64;
    for n in [100u64, 0, 4096, 1] {
        c.add(n);
        assert!(c.load() >= last);
        last = c.load();
    }
    assert_eq!(c.load(), 4197);
    c.add(u64::MAX);
    assert_eq!(c.load(), u64::MAX);
    c.add(1);
    assert_eq!(c.load(), u64::MAX);
}

#[test]
fn bytes_accumulate_across_reconnects() {
    let mut s = ClientState::begin(1_000_000, 4);
    s.on_connected(0);
    s.record_bytes(100);
    s.begin_request();
    s.on_connection_died(10);
    s.on_connected(20);
    s.record_bytes(250);
    assert_eq!(s.bytes, 250);
    s.on_deadline(1_000_000);
    let r = s.finish(1_000_000);
    assert_eq!(r.buffer_sizes, vec![250]);
}

#[test]
fn client_carries_its_parts() {
    let client = BenchmarkClient::new(
        ConnectorKind::Plain(HttpConnector::new()),
        Http1,
        10_000_000_000,
        128,
        uri(),
        vec![(b"User-Agent".to_vec(), b"wrk".to_vec())],
    );
    assert_eq!(client.deadline_nanos(), 10_000_000_000);
    assert!(!client.connector.uses_tls());
    let s = client.start_state();
    assert_eq!(s.deadline, 10_000_000_000);
    assert_eq!(s.attempted, 0);
    assert!(!s.connected);
    accounting_holds(&s);
}
