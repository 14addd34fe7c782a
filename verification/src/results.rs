//! Per-worker benchmark results and their aggregation: merging is
//! concatenation of the sample lists and summation of the counters; derived
//! statistics are computed from the merged latency list, percentiles by
//! nearest rank over the sorted list.
use vstd::prelude::*;

verus! {

/// What one worker measured: wall durations of its runs, latencies of its
/// successful requests, received-byte totals of its clients, and how many
/// requests succeeded and failed. All times are in nanoseconds.
pub struct WorkerResult {
    pub total_times: Vec<u64>,
    pub request_times: Vec<u64>,
    pub buffer_sizes: Vec<u64>,
    pub success: u64,
    pub error: u64,
}

/// The mathematical content of a `WorkerResult`.
#[verifier::ext_equal]
pub ghost struct ResultModel {
    pub total_times: Seq<u64>,
    pub request_times: Seq<u64>,
    pub buffer_sizes: Seq<u64>,
    pub success: nat,
    pub error: nat,
}

impl View for WorkerResult {
    type V = ResultModel;

    open spec fn view(&self) -> ResultModel {
        ResultModel {
            total_times: self.total_times@,
            request_times: self.request_times@,
            buffer_sizes: self.buffer_sizes@,
            success: self.success as nat,
            error: self.error as nat,
        }
    }
}

/// The result of a worker that never got a connection: empty lists, zero
/// counts.
pub open spec fn empty_model() -> ResultModel {
    ResultModel {
        total_times: Seq::empty(),
        request_times: Seq::empty(),
        buffer_sizes: Seq::empty(),
        success: 0,
        error: 0,
    }
}

/// Merging two results: sample lists are concatenated, counters are summed.
pub open spec fn spec_merge(a: ResultModel, b: ResultModel) -> ResultModel {
    ResultModel {
        total_times: a.total_times + b.total_times,
        request_times: a.request_times + b.request_times,
        buffer_sizes: a.buffer_sizes + b.buffer_sizes,
        success: a.success + b.success,
        error: a.error + b.error,
    }
}

/// Left-to-right merge of a list of results, starting from the empty result.
pub open spec fn spec_merge_seq(s: Seq<ResultModel>) -> ResultModel
    decreases s.len(),
{
    if s.len() == 0 {
        empty_model()
    } else {
        spec_merge(spec_merge_seq(s.drop_last()), s.last())
    }
}

impl Default for WorkerResult {
    /// An empty result.
    fn default() -> (r: Self)
        ensures
            r@ == empty_model(),
    {
        WorkerResult {
            total_times: Vec::new(),
            request_times: Vec::new(),
            buffer_sizes: Vec::new(),
            success: 0,
            error: 0,
        }
    }
}

impl WorkerResult {
    /// Merges `other` into this result: lists are concatenated in order,
    /// counters summed.
    pub fn merge(&mut self, other: WorkerResult)
        requires
            old(self).success + other.success <= u64::MAX,
            old(self).error + other.error <= u64::MAX,
        ensures
            final(self)@ == spec_merge(old(self)@, other@),
    {
        let mut other = other;
        self.total_times.append(&mut other.total_times);
        self.request_times.append(&mut other.request_times);
        self.buffer_sizes.append(&mut other.buffer_sizes);
        self.success = self.success + other.success;
        self.error = self.error + other.error;
    }
}

/// The views of a list of results.
pub open spec fn models_of(rs: Seq<WorkerResult>) -> Seq<ResultModel> {
    rs.map(|i: int, r: WorkerResult| r@)
}

/// Merging a prefix never exceeds the counters of merging the whole list.
proof fn lemma_merge_seq_prefix(s: Seq<ResultModel>, i: int)
    requires
        0 <= i <= s.len(),
    ensures
        spec_merge_seq(s.take(i)).success <= spec_merge_seq(s).success,
        spec_merge_seq(s.take(i)).error <= spec_merge_seq(s).error,
    decreases s.len() - i,
{
    if i < s.len() {
        assert(s.take(i + 1).drop_last() =~= s.take(i));
        assert(s.take(i + 1).last() == s[i]);
        lemma_merge_seq_prefix(s, i + 1);
    } else {
        assert(s.take(i) =~= s);
    }
}

/// Merges every result of `results` into one, in order.
pub fn aggregate(results: Vec<WorkerResult>) -> (r: WorkerResult)
    requires
        spec_merge_seq(models_of(results@)).success <= u64::MAX,
        spec_merge_seq(models_of(results@)).error <= u64::MAX,
    ensures
        r@ == spec_merge_seq(models_of(results@)),
{
    let ghost models = models_of(results@);
    let n: usize = results.len();
    let mut acc = WorkerResult::default();
    proof {
        assert(models.take(0) =~= Seq::<ResultModel>::empty());
        assert(models_of(results@) =~= models.skip(0));
    }
    let mut rest = results;
    let mut i: usize = 0;
    while rest.len() > 0
        invariant
            models.len() == n,
            i + rest@.len() == models.len(),
            models_of(rest@) == models.skip(i as int),
            acc@ == spec_merge_seq(models.take(i as int)),
            spec_merge_seq(models).success <= u64::MAX,
            spec_merge_seq(models).error <= u64::MAX,
        decreases rest@.len(),
    {
        proof {
            assert(models.take(i + 1).drop_last() =~= models.take(i as int));
            assert(models.take(i + 1).last() == models[i as int]);
            lemma_merge_seq_prefix(models, i + 1);
            assert(models_of(rest@)[0] == rest@[0]@);
        }
        let ghost rb = rest@;
        let next = rest.remove(0);
        proof {
            assert(next@ == models.skip(i as int)[0]);
            assert forall|k: int| 0 <= k < rest@.len() implies models_of(rest@)[k] == models.skip(
                i + 1,
            )[k] by {
                assert(models_of(rest@)[k] == rest@[k]@);
                assert(rest@[k] == rb[k + 1]);
                assert(models_of(rb)[k + 1] == rb[k + 1]@);
                assert(models_of(rb) == models.skip(i as int));
            }
            assert(models_of(rest@) =~= models.skip(i + 1));
        }
        acc.merge(next);
        i = i + 1;
    }
    proof {
        assert(models.take(i as int) =~= models);
    }
    acc
}

/// Merging is associative, exactly.
pub proof fn lemma_merge_assoc(a: ResultModel, b: ResultModel, c: ResultModel)
    ensures
        spec_merge(spec_merge(a, b), c) == spec_merge(a, spec_merge(b, c)),
{
    assert(spec_merge(spec_merge(a, b), c) =~= spec_merge(a, spec_merge(b, c)));
}

/// Merging is commutative up to reordering of the samples: the counters are
/// equal outright and each sample list carries the same multiset of values,
/// so every derived statistic of the merged result is invariant under
/// reordering of the component results.
pub proof fn lemma_merge_comm(a: ResultModel, b: ResultModel)
    ensures
        spec_merge(a, b).success == spec_merge(b, a).success,
        spec_merge(a, b).error == spec_merge(b, a).error,
        spec_merge(a, b).total_times.to_multiset() == spec_merge(b, a).total_times.to_multiset(),
        spec_merge(a, b).request_times.to_multiset() == spec_merge(
            b,
            a,
        ).request_times.to_multiset(),
        spec_merge(a, b).buffer_sizes.to_multiset() == spec_merge(b, a).buffer_sizes.to_multiset(),
{
    vstd::seq_lib::lemma_multiset_commutative(a.total_times, b.total_times);
    vstd::seq_lib::lemma_multiset_commutative(b.total_times, a.total_times);
    vstd::seq_lib::lemma_multiset_commutative(a.request_times, b.request_times);
    vstd::seq_lib::lemma_multiset_commutative(b.request_times, a.request_times);
    vstd::seq_lib::lemma_multiset_commutative(a.buffer_sizes, b.buffer_sizes);
    vstd::seq_lib::lemma_multiset_commutative(b.buffer_sizes, a.buffer_sizes);
}

/// Aggregating a single result yields that result unchanged, so its derived
/// statistics are those of the result alone.
pub proof fn lemma_aggregate_single(m: ResultModel)
    ensures
        spec_merge_seq(seq![m]) == m,
{
    let s = seq![m];
    assert(s.len() == 1);
    assert(s.drop_last() =~= Seq::<ResultModel>::empty());
    assert(s.last() == m);
    assert(spec_merge_seq(s.drop_last()) == empty_model());
    assert(spec_merge_seq(s) == spec_merge(empty_model(), m));
    assert(empty_model().total_times + m.total_times =~= m.total_times);
    assert(empty_model().request_times + m.request_times =~= m.request_times);
    assert(empty_model().buffer_sizes + m.buffer_sizes =~= m.buffer_sizes);
    assert(spec_merge(empty_model(), m) =~= m);
}

/// Whether `s` is sorted in non-decreasing order.
pub open spec fn is_sorted(s: Seq<u64>) -> bool {
    forall|a: int, b: int| 0 <= a < b < s.len() ==> s[a] <= s[b]
}

/// Sorts the samples in place, in non-decreasing order, keeping exactly the
/// same multiset of values.
pub fn sort_samples(v: &mut Vec<u64>)
    ensures
        is_sorted(final(v)@),
        final(v)@.to_multiset() == old(v)@.to_multiset(),
        final(v)@.len() == old(v)@.len(),
{
    broadcast use vstd::seq_lib::group_to_multiset_ensures;
    broadcast use vstd::multiset::group_multiset_axioms;

    let n: usize = v.len();
    if n <= 1 {
        return ;
    }
    let mut i: usize = 1;
    while i < n
        invariant
            n == v@.len(),
            1 <= i <= n,
            v@.to_multiset() == old(v)@.to_multiset(),
            is_sorted(v@.take(i as int)),
        decreases n - i,
    {
        let x = v[i];
        // The first slot of the sorted prefix whose value exceeds x.
        let mut pos: usize = 0;
        while pos < i && v[pos] <= x
            invariant
                pos <= i < n,
                n == v@.len(),
                x == v@[i as int],
                forall|k: int| 0 <= k < pos ==> #[trigger] v@[k] <= x,
            decreases i - pos,
        {
            pos = pos + 1;
        }
        let ghost before = v@;
        proof {
            assert(forall|k: int| 0 <= k < i ==> #[trigger] before.take(i as int)[k] == before[k]);
            assert forall|k: int| pos <= k < i implies x <= #[trigger] before[k] by {
                assert(before[pos as int] > x);
                if k > pos {
                    assert(before.take(i as int)[pos as int] <= before.take(i as int)[k]);
                }
            }
            vstd::seq_lib::to_multiset_contains(before, x);
            assert(before[i as int] == x);
            assert(before.contains(x));
        }
        let _ = v.remove(i);
        let ghost mid = v@;
        v.insert(pos, x);
        proof {
            vstd::seq_lib::to_multiset_remove(before, i as int);
            vstd::seq_lib::to_multiset_insert(mid, pos as int, x);
            assert(v@.to_multiset() =~= before.to_multiset());
            let s = v@.take(i + 1);
            assert(v@ =~= before.subrange(0, pos as int) + seq![x] + before.subrange(
                pos as int,
                i as int,
            ) + before.subrange(i + 1, n as int));
            assert(forall|k: int| 0 <= k < i + 1 ==> #[trigger] s[k] == v@[k]);
            assert(forall|k: int| 0 <= k < pos ==> #[trigger] v@[k] == before[k]);
            assert(v@[pos as int] == x);
            assert(forall|k: int| pos < k < i + 1 ==> #[trigger] v@[k] == before[k - 1]);
            assert forall|a: int, b: int| 0 <= a < b < i + 1 implies s[a] <= s[b] by {
                if b < pos {
                    assert(before.take(i as int)[a] <= before.take(i as int)[b]);
                } else if a < pos && b == pos {
                    assert(v@[a] <= x);
                } else if a < pos && b > pos {
                    if a < b - 1 {
                        assert(before.take(i as int)[a] <= before.take(i as int)[b - 1]);
                    }
                } else if a == pos {
                    assert(x <= before[b - 1]);
                } else {
                    assert(before.take(i as int)[a - 1] <= before.take(i as int)[b - 1]);
                }
            }
            assert(is_sorted(s));
        }
        i = i + 1;
    }
    proof {
        assert(v@.take(n as int) =~= v@);
    }
}

/// The 1-indexed nearest rank of the `p`-th percentile over `n` samples,
/// as a 0-based index: the ceiling of `p * n / 100`, minus one.
pub open spec fn rank_index(p: int, n: int) -> int {
    (p * n + 99) / 100 - 1
}

/// The nearest-rank percentile: over the sorted sample list, the value at
/// 1-indexed position ceiling of `p * len / 100`.
pub fn percentile(sorted: &Vec<u64>, p: u64) -> (r: u64)
    requires
        1 <= p <= 100,
        sorted@.len() >= 1,
        is_sorted(sorted@),
        p * sorted@.len() + 99 <= u64::MAX,
    ensures
        r == sorted@[rank_index(p as int, sorted@.len() as int)],
{
    let n = sorted.len() as u64;
    let rank = (p * n + 99) / 100;
    proof {
        assert(1 <= rank <= n) by (nonlinear_arith)
            requires
                1 <= p <= 100,
                n >= 1,
                rank == (p * n + 99) / 100,
                p * n + 99 <= u64::MAX,
        ;
    }
    let idx = (rank - 1) as usize;
    sorted[idx]
}

/// The sum of a sample list.
pub open spec fn spec_sum(s: Seq<u64>) -> int
    decreases s.len(),
{
    if s.len() == 0 {
        0
    } else {
        spec_sum(s.drop_last()) + s.last()
    }
}

/// Sums a sample list; the sum of `u64` samples always fits in a `u128`.
pub fn sum_samples(v: &Vec<u64>) -> (r: u128)
    ensures
        r == spec_sum(v@),
{
    let n: usize = v.len();
    let mut acc: u128 = 0;
    let mut i: usize = 0;
    while i < n
        invariant
            n == v@.len(),
            i <= n,
            acc == spec_sum(v@.take(i as int)),
            acc <= i * 0xffff_ffff_ffff_ffffu128,
        decreases n - i,
    {
        proof {
            assert(v@.take(i + 1).drop_last() =~= v@.take(i as int));
            assert(v@.take(i + 1).last() == v@[i as int]);
            assert((i + 1) * 0xffff_ffff_ffff_ffffu128 == i * 0xffff_ffff_ffff_ffffu128
                + 0xffff_ffff_ffff_ffffu128) by (nonlinear_arith);
            assert(i * 0xffff_ffff_ffff_ffffu128 <= usize::MAX * 0xffff_ffff_ffff_ffffu128)
                by (nonlinear_arith)
                requires
                    0 <= i <= usize::MAX,
            ;
        }
        acc = acc + v[i] as u128;
        i = i + 1;
    }
    proof {
        assert(v@.take(n as int) =~= v@);
    }
    acc
}

/// The least sample of a non-empty list.
pub fn min_sample(v: &Vec<u64>) -> (r: u64)
    requires
        v@.len() >= 1,
    ensures
        v@.contains(r),
        forall|k: int| 0 <= k < v@.len() ==> r <= #[trigger] v@[k],
{
    let n: usize = v.len();
    let mut best = v[0];
    let mut i: usize = 1;
    while i < n
        invariant
            n == v@.len(),
            1 <= i <= n,
            v@.contains(best),
            forall|k: int| 0 <= k < i ==> best <= #[trigger] v@[k],
        decreases n - i,
    {
        if v[i] < best {
            best = v[i];
        }
        i = i + 1;
    }
    best
}

/// The greatest sample of a non-empty list.
pub fn max_sample(v: &Vec<u64>) -> (r: u64)
    requires
        v@.len() >= 1,
    ensures
        v@.contains(r),
        forall|k: int| 0 <= k < v@.len() ==> #[trigger] v@[k] <= r,
{
    let n: usize = v.len();
    let mut best = v[0];
    let mut i: usize = 1;
    while i < n
        invariant
            n == v@.len(),
            1 <= i <= n,
            v@.contains(best),
            forall|k: int| 0 <= k < i ==> #[trigger] v@[k] <= best,
        decreases n - i,
    {
        if v[i] > best {
            best = v[i];
        }
        i = i + 1;
    }
    best
}

} // verus!
