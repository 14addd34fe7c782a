//! The settings of one benchmark run, fixed before the run starts and
//! immutable throughout it: at least one execution context, at least one
//! connection, a positive duration and at least one round.
use vstd::prelude::*;

verus! {

/// Which protocol the benchmark drives.
#[derive(Clone, Copy, PartialEq, Eq, Structural, Debug)]
pub enum BenchType {
    HTTP1,
    HTTP2,
}

/// The settings of a whole run.
pub struct BenchmarkSettings {
    /// Parallel execution contexts.
    pub threads: usize,
    /// Total concurrent connections, spread over the contexts.
    pub connections: usize,
    /// The target URL as given.
    pub host: Vec<u8>,
    /// HTTP/1 or HTTP/2.
    pub bench_type: BenchType,
    /// Run duration in seconds.
    pub duration_secs: u64,
    /// Whether to render the percentile table.
    pub display_percentile: bool,
    /// Whether to render machine-readable output.
    pub display_json: bool,
    /// How many independent rounds to run.
    pub rounds: usize,
    /// User headers, applied to every request.
    pub headers: Vec<(Vec<u8>, Vec<u8>)>,
}

impl BenchmarkSettings {
    /// The bounds a run needs: a context and a connection to drive, time to
    /// run, a round to do it in.
    pub open spec fn wf(self) -> bool {
        &&& self.threads >= 1
        &&& self.connections >= 1
        &&& self.duration_secs >= 1
        &&& self.rounds >= 1
    }

    /// Builds the settings, accepting them exactly when every bound holds:
    /// zero threads, connections, duration or rounds is a setup error.
    pub fn new(
        threads: usize,
        connections: usize,
        host: Vec<u8>,
        bench_type: BenchType,
        duration_secs: u64,
        display_percentile: bool,
        display_json: bool,
        rounds: usize,
        headers: Vec<(Vec<u8>, Vec<u8>)>,
    ) -> (r: Option<BenchmarkSettings>)
        ensures
            r is Some <==> threads >= 1 && connections >= 1 && duration_secs >= 1 && rounds >= 1,
            match r {
                Some(s) => s == (BenchmarkSettings {
                    threads,
                    connections,
                    host,
                    bench_type,
                    duration_secs,
                    display_percentile,
                    display_json,
                    rounds,
                    headers,
                }) && s.wf(),
                None => true,
            },
    {
        if threads >= 1 && connections >= 1 && duration_secs >= 1 && rounds >= 1 {
            Some(
                BenchmarkSettings {
                    threads,
                    connections,
                    host,
                    bench_type,
                    duration_secs,
                    display_percentile,
                    display_json,
                    rounds,
                    headers,
                },
            )
        } else {
            None
        }
    }
}

} // verus!
