//! The worker pool's partitioning: the total number of connections is spread
//! over the execution contexts as evenly as possible, each context receiving
//! the floor of the quotient and the first `connections mod threads` contexts
//! one more. Every connection is assigned to exactly one context.
use vstd::prelude::*;

verus! {

/// How many connection clients context `i` of `threads` drives when `conns`
/// connections are spread over them.
pub open spec fn spec_clients_of(i: int, conns: int, threads: int) -> int
    recommends
        threads >= 1,
{
    conns / threads + if i < conns % threads {
        1int
    } else {
        0int
    }
}

/// The sum of a sequence of counts.
pub open spec fn spec_count_sum(s: Seq<usize>) -> int
    decreases s.len(),
{
    if s.len() == 0 {
        0
    } else {
        spec_count_sum(s.drop_last()) + s.last()
    }
}

/// Spreads `conns` connections over `threads` contexts: context `i` gets
/// `conns / threads`, plus one when `i < conns % threads`. The counts sum to
/// exactly `conns`, so no connection is lost and none is driven twice; when
/// there are more contexts than connections, the surplus contexts get zero.
pub fn partition_connections(conns: usize, threads: usize) -> (r: Vec<usize>)
    requires
        threads >= 1,
    ensures
        r@.len() == threads,
        forall|k: int| 0 <= k < threads ==> r@[k] == spec_clients_of(k, conns as int, threads as int),
        spec_count_sum(r@) == conns,
{
    let base = conns / threads;
    let rem = conns % threads;
    let mut out: Vec<usize> = Vec::new();
    let mut i: usize = 0;
    proof {
        assert(base == conns as int / threads as int);
        assert(rem == conns as int % threads as int);
        vstd::arithmetic::div_mod::lemma_fundamental_div_mod(conns as int, threads as int);
        assert(base * threads + rem == conns) by (nonlinear_arith)
            requires
                threads >= 1,
                base == conns as int / threads as int,
                rem == conns as int % threads as int,
        ;
        assert(base <= base * threads) by (nonlinear_arith)
            requires
                threads >= 1,
                base >= 0,
        ;
    }
    while i < threads
        invariant
            threads >= 1,
            i <= threads,
            base == conns as int / threads as int,
            rem == conns as int % threads as int,
            base * threads + rem == conns,
            0 <= rem < threads,
            rem > 0 ==> base + 1 <= usize::MAX,
            out@.len() == i,
            forall|k: int|
                0 <= k < i ==> out@[k] == spec_clients_of(k, conns as int, threads as int),
            spec_count_sum(out@) == i * base + if i <= rem {
                i as int
            } else {
                rem as int
            },
        decreases threads - i,
    {
        proof {
            assert((i + 1) * base == i * base + base) by (nonlinear_arith);
            assert(i * base + base <= base * threads) by (nonlinear_arith)
                requires
                    0 <= i < threads,
                    base >= 0,
            ;
        }
        let v: usize = if i < rem {
            base + 1
        } else {
            base
        };
        let ghost before = out@;
        out.push(v);
        proof {
            assert(out@.drop_last() =~= before);
            assert(out@.last() == v);
        }
        i = i + 1;
    }
    proof {
        assert(i * base == base * threads) by (nonlinear_arith)
            requires
                i == threads,
        ;
    }
    out
}

} // verus!
