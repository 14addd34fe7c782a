//! Core logic of an HTTP/1 and HTTP/2 load generator: duration grammar,
//! header-line parsing, URI and request-shape modelling, the per-connection
//! benchmark state machine, connection partitioning across workers, and
//! result aggregation with nearest-rank percentiles.
use vstd::prelude::*;

pub mod bench;
pub mod builder;
pub mod client;
pub mod connector;
pub mod duration;
pub mod headers;
pub mod protocol;
pub mod results;
pub mod runtime;
pub mod uri;

verus! {

} // verus!
