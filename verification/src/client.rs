//! The per-connection benchmark client. The hot loop holds one connection
//! and races, for each iteration, the completion of one serially issued
//! request against the death of the connection's driver; on connection loss
//! it reconnects with a fixed backoff while the deadline permits. The
//! decisions of that loop — what each observed event does to the counters,
//! the latency samples and the byte tally, and when the loop is over — are
//! the state machine here; the transport work around them reports its events
//! into it. All times are nanoseconds relative to the client's start.
use crate::connector::Connect;
use crate::protocol::HttpProtocol;
use crate::results::WorkerResult;
use crate::uri::ParsedUri;
use vstd::prelude::*;

verus! {

/// How long a client sleeps after a failed connection attempt before the
/// next one, in nanoseconds.
pub const RETRY_BACKOFF_NANOS: u64 = 200000000;

/// The observable state of one benchmark client between events.
pub struct ClientState {
    /// The deadline: how long the client generates load.
    pub deadline: u64,
    /// The largest time observed so far.
    pub elapsed: u64,
    /// How many requests were built and issued.
    pub attempted: u64,
    /// Requests answered 200 OK with the body drained.
    pub success: u64,
    /// Requests that failed or were answered with another status.
    pub error: u64,
    /// Requests in flight when the deadline cut the run off.
    pub dropped_on_deadline: u64,
    /// Requests abandoned because the connection died under them.
    pub never_issued: u64,
    /// Whether a request is in flight right now.
    pub in_flight: bool,
    /// Whether the client holds a live connection.
    pub connected: bool,
    /// Whether the run is over.
    pub done: bool,
    /// The latency of each successful request, in submission order.
    pub latencies: Vec<u64>,
    /// Bytes received over all of this client's connections.
    pub bytes: u64,
}

impl ClientState {
    /// The client's invariant: every issued request is accounted for exactly
    /// once, each success contributed exactly one latency sample, no sample
    /// exceeds the time observed when it was taken, and a request can be in
    /// flight only on a live connection of an unfinished run.
    pub open spec fn wf(self) -> bool {
        &&& self.attempted == self.success + self.error + self.dropped_on_deadline
            + self.never_issued + (if self.in_flight {
            1int
        } else {
            0int
        })
        &&& self.latencies@.len() == self.success
        &&& forall|k: int| 0 <= k < self.latencies@.len() ==> #[trigger] self.latencies@[k]
            <= self.elapsed
        &&& self.in_flight ==> self.connected && !self.done
    }

    /// A client that has just started: nothing counted, nothing connected.
    pub fn begin(deadline: u64, capacity_hint: usize) -> (s: ClientState)
        ensures
            s.wf(),
            s.deadline == deadline,
            s.elapsed == 0,
            s.attempted == 0,
            s.success == 0,
            s.error == 0,
            s.dropped_on_deadline == 0,
            s.never_issued == 0,
            !s.in_flight,
            !s.connected,
            !s.done,
            s.latencies@.len() == 0,
            s.bytes == 0,
    {
        ClientState {
            deadline,
            elapsed: 0,
            attempted: 0,
            success: 0,
            error: 0,
            dropped_on_deadline: 0,
            never_issued: 0,
            in_flight: false,
            connected: false,
            done: false,
            latencies: Vec::with_capacity(capacity_hint),
            bytes: 0,
        }
    }

    /// Whether another loop iteration may start: the observed time is still
    /// short of the deadline and the run was not ended.
    pub fn should_continue(&self, now: u64) -> (r: bool)
        ensures
            r == (now < self.deadline && !self.done),
    {
        now < self.deadline && !self.done
    }

    /// A connection was established (first connect or reconnect).
    pub fn on_connected(&mut self, now: u64)
        requires
            old(self).wf(),
            !old(self).in_flight,
            !old(self).done,
            old(self).elapsed <= now,
        ensures
            final(self).wf(),
            *final(self) == (ClientState { connected: true, elapsed: now, ..*old(self) }),
    {
        self.connected = true;
        self.elapsed = now;
    }

    /// A request was built and handed to the connection: one more attempt,
    /// now in flight.
    pub fn begin_request(&mut self)
        requires
            old(self).wf(),
            old(self).connected,
            !old(self).in_flight,
            !old(self).done,
            old(self).attempted < u64::MAX,
        ensures
            final(self).wf(),
            *final(self) == (ClientState {
                attempted: (old(self).attempted + 1) as u64,
                in_flight: true,
                ..*old(self)
            }),
    {
        self.attempted = self.attempted + 1;
        self.in_flight = true;
    }

    /// The in-flight request resolved at time `now`. It succeeded — status
    /// 200 OK, body drained — exactly when `ok`; then its latency is
    /// recorded, else only the error is. A latency never exceeds the time at
    /// which it was observed.
    pub fn complete_request(&mut self, ok: bool, latency: u64, now: u64)
        requires
            old(self).wf(),
            old(self).in_flight,
            old(self).elapsed <= now,
            latency <= now,
        ensures
            final(self).wf(),
            final(self).latencies@ == if ok {
                old(self).latencies@.push(latency)
            } else {
                old(self).latencies@
            },
            *final(self) == (ClientState {
                success: if ok {
                    (old(self).success + 1) as u64
                } else {
                    old(self).success
                },
                error: if ok {
                    old(self).error
                } else {
                    (old(self).error + 1) as u64
                },
                in_flight: false,
                elapsed: now,
                latencies: final(self).latencies,
                ..*old(self)
            }),
    {
        if ok {
            self.success = self.success + 1;
            self.latencies.push(latency);
        } else {
            self.error = self.error + 1;
        }
        self.in_flight = false;
        self.elapsed = now;
    }

    /// The connection's driver completed under the in-flight request: the
    /// request is abandoned unresolved and the connection is gone.
    pub fn on_connection_died(&mut self, now: u64)
        requires
            old(self).wf(),
            old(self).in_flight,
            old(self).elapsed <= now,
        ensures
            final(self).wf(),
            *final(self) == (ClientState {
                never_issued: (old(self).never_issued + 1) as u64,
                in_flight: false,
                connected: false,
                elapsed: now,
                ..*old(self)
            }),
    {
        self.never_issued = self.never_issued + 1;
        self.in_flight = false;
        self.connected = false;
        self.elapsed = now;
    }

    /// The run is over: the deadline passed, or reconnecting could not be
    /// done within it. A request still in flight is dropped, counted neither
    /// as success nor as error.
    pub fn on_deadline(&mut self, now: u64)
        requires
            old(self).wf(),
            old(self).elapsed <= now,
        ensures
            final(self).wf(),
            !final(self).in_flight,
            final(self).done,
            *final(self) == (ClientState {
                dropped_on_deadline: if old(self).in_flight {
                    (old(self).dropped_on_deadline + 1) as u64
                } else {
                    old(self).dropped_on_deadline
                },
                in_flight: false,
                done: true,
                elapsed: now,
                ..*old(self)
            }),
    {
        if self.in_flight {
            self.dropped_on_deadline = self.dropped_on_deadline + 1;
            self.in_flight = false;
        }
        self.done = true;
        self.elapsed = now;
    }

    /// A fresh reading of this client's shared byte counter. The counter
    /// only accumulates, so a reading never goes below the last one.
    pub fn record_bytes(&mut self, counter_value: u64)
        requires
            old(self).wf(),
            old(self).bytes <= counter_value,
        ensures
            final(self).wf(),
            *final(self) == (ClientState { bytes: counter_value, ..*old(self) }),
            final(self).bytes >= old(self).bytes,
    {
        self.bytes = counter_value;
    }

    /// Closes the run at total elapsed time `total`: one wall duration, the
    /// recorded latencies, one byte total, and the final counters. Every
    /// latency is bounded by the run's wall duration.
    pub fn finish(self, total: u64) -> (r: WorkerResult)
        requires
            self.wf(),
            !self.in_flight,
            self.elapsed <= total,
        ensures
            r@.total_times == seq![total],
            r@.request_times == self.latencies@,
            r@.buffer_sizes == seq![self.bytes],
            r@.success == self.success,
            r@.error == self.error,
            r@.request_times.len() == r@.success,
            forall|k: int| 0 <= k < r@.request_times.len() ==> #[trigger] r@.request_times[k]
                <= r@.total_times[0],
            self.attempted == r@.success + r@.error + self.dropped_on_deadline + self.never_issued,
    {
        let mut total_times: Vec<u64> = Vec::new();
        total_times.push(total);
        let mut buffer_sizes: Vec<u64> = Vec::new();
        buffer_sizes.push(self.bytes);
        proof {
            assert(total_times@ =~= seq![total]);
            assert(buffer_sizes@ =~= seq![self.bytes]);
        }
        WorkerResult {
            total_times,
            request_times: self.latencies,
            buffer_sizes,
            success: self.success,
            error: self.error,
        }
    }
}

/// Request accounting: once no request is in flight, the issued requests are
/// exactly the successes, the errors, the ones dropped on the deadline and
/// the ones the connection died under.
pub proof fn lemma_request_accounting(s: ClientState)
    requires
        s.wf(),
        !s.in_flight,
    ensures
        s.success + s.dropped_on_deadline + s.error + s.never_issued == s.attempted,
{
}

/// One latency sample per success, at every point of the run.
pub proof fn lemma_latency_per_success(s: ClientState)
    requires
        s.wf(),
    ensures
        s.latencies@.len() == s.success,
{
}

/// Every recorded latency is bounded by the time observed so far, and so by
/// the total time of the worker that owns it.
pub proof fn lemma_latencies_bounded(s: ClientState)
    requires
        s.wf(),
    ensures
        forall|k: int| 0 <= k < s.latencies@.len() ==> #[trigger] s.latencies@[k] <= s.elapsed,
{
}

/// The shared byte counter a counting stream feeds: on every successful read
/// it grows by the bytes read, saturating at the top of its range; it never
/// decreases.
pub struct ByteCounter {
    pub total: u64,
}

impl ByteCounter {
    /// A counter at zero.
    pub fn new() -> (r: Self)
        ensures
            r.total == 0,
    {
        ByteCounter { total: 0 }
    }

    /// Accounts `n` bytes read off the stream. The tally grows by exactly
    /// `n` while it fits, and never shrinks.
    pub fn add(&mut self, n: u64)
        ensures
            final(self).total == if old(self).total + n <= u64::MAX {
                (old(self).total + n) as u64
            } else {
                u64::MAX
            },
            final(self).total >= old(self).total,
    {
        match self.total.checked_add(n) {
            Some(t) => {
                self.total = t;
            },
            None => {
                self.total = u64::MAX;
            },
        }
    }

    /// Reads the tally.
    pub fn load(&self) -> (r: u64)
        ensures
            r == self.total,
    {
        self.total
    }
}

/// A benchmark client: one connector, one protocol strategy, a deadline, a
/// capacity hint for the latency list, the parsed target and the user
/// headers.
pub struct BenchmarkClient<C, P> {
    pub connector: C,
    pub protocol: P,
    pub time_for: u64,
    pub predicted_size: usize,
    pub parsed_uri: ParsedUri,
    pub headers: Vec<(Vec<u8>, Vec<u8>)>,
}

/// What the worker pool asks of a client: its deadline, its capacity hint,
/// and a starting state for its run.
pub trait Client: Sized {
    /// The deadline of this client's runs, in nanoseconds.
    spec fn spec_deadline(&self) -> u64;

    /// The capacity hint for the latency list.
    spec fn spec_capacity_hint(&self) -> usize;

    fn deadline_nanos(&self) -> (r: u64)
        ensures
            r == self.spec_deadline(),
    ;

    /// Starts one run: a fresh state against this client's deadline.
    fn start_state(&self) -> (s: ClientState)
        ensures
            s.wf(),
            s.deadline == self.spec_deadline(),
            s.elapsed == 0,
            s.attempted == 0,
            s.success == 0,
            s.error == 0,
            s.dropped_on_deadline == 0,
            s.never_issued == 0,
            !s.in_flight,
            !s.connected,
            !s.done,
            s.latencies@.len() == 0,
            s.bytes == 0,
    ;
}

impl<C, P> BenchmarkClient<C, P> where C: Connect, P: HttpProtocol {
    /// Builds a client from its parts.
    pub fn new(
        connector: C,
        protocol: P,
        time_for: u64,
        predicted_size: usize,
        parsed_uri: ParsedUri,
        headers: Vec<(Vec<u8>, Vec<u8>)>,
    ) -> (r: Self)
        ensures
            r.connector == connector,
            r.protocol == protocol,
            r.time_for == time_for,
            r.predicted_size == predicted_size,
            r.parsed_uri == parsed_uri,
            r.headers == headers,
    {
        BenchmarkClient { connector, protocol, time_for, predicted_size, parsed_uri, headers }
    }
}

impl<C, P> Client for BenchmarkClient<C, P> where C: Connect, P: HttpProtocol {
    open spec fn spec_deadline(&self) -> u64 {
        self.time_for
    }

    open spec fn spec_capacity_hint(&self) -> usize {
        self.predicted_size
    }

    fn deadline_nanos(&self) -> (r: u64) {
        self.time_for
    }

    fn start_state(&self) -> (s: ClientState) {
        ClientState::begin(self.time_for, self.predicted_size)
    }
}

} // verus!
