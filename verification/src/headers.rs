//! Parsing one `Name: Value` header argument: the line is split on its first
//! colon, the value is trimmed of the whitespace around it, and the name is
//! kept as written. A line without a colon is malformed and yields nothing;
//! the caller skips it.
use vstd::prelude::*;

verus! {

/// Whether `b` is ASCII whitespace.
pub open spec fn is_space(b: u8) -> bool {
    b == 32 || b == 9 || b == 10 || b == 13 || b == 11 || b == 12
}

/// `s` with its leading whitespace removed.
pub open spec fn trim_front(s: Seq<u8>) -> Seq<u8>
    decreases s.len(),
{
    if s.len() > 0 && is_space(s[0]) {
        trim_front(s.skip(1))
    } else {
        s
    }
}

/// `s` with its trailing whitespace removed.
pub open spec fn trim_back(s: Seq<u8>) -> Seq<u8>
    decreases s.len(),
{
    if s.len() > 0 && is_space(s[s.len() - 1]) {
        trim_back(s.take(s.len() - 1))
    } else {
        s
    }
}

/// `s` with the whitespace around it removed.
pub open spec fn spec_trim(s: Seq<u8>) -> Seq<u8> {
    trim_back(trim_front(s))
}

/// Whether `s` holds a colon.
pub open spec fn has_colon(s: Seq<u8>) -> bool {
    exists|k: int| 0 <= k < s.len() && s[k] == 58
}

/// The index of the first colon of `s`.
pub open spec fn first_colon(s: Seq<u8>) -> int {
    choose|k: int| 0 <= k < s.len() && s[k] == 58 && forall|j: int| 0 <= j < k ==> s[j] != 58
}

/// Removing whitespace from the front is dropping the run of leading
/// whitespace.
proof fn lemma_trim_front_exact(s: Seq<u8>, k: int)
    requires
        0 <= k <= s.len(),
        forall|j: int| 0 <= j < k ==> is_space(#[trigger] s[j]),
        k < s.len() ==> !is_space(s[k]),
    ensures
        trim_front(s) == s.skip(k),
    decreases s.len(),
{
    if k == 0 {
        assert(s.skip(0) =~= s);
    } else {
        assert(is_space(s[0]));
        let t = s.skip(1);
        assert(forall|j: int| 0 <= j < k - 1 ==> #[trigger] t[j] == s[j + 1]);
        lemma_trim_front_exact(t, k - 1);
        assert(t.skip(k - 1) =~= s.skip(k));
    }
}

/// Removing whitespace from the back is cutting at the end of the content.
proof fn lemma_trim_back_exact(s: Seq<u8>, k: int)
    requires
        0 <= k <= s.len(),
        forall|j: int| k <= j < s.len() ==> is_space(#[trigger] s[j]),
        k > 0 ==> !is_space(s[k - 1]),
    ensures
        trim_back(s) == s.take(k),
    decreases s.len(),
{
    if k == s.len() {
        assert(s.take(k) =~= s);
    } else {
        assert(is_space(s[s.len() - 1]));
        let t = s.take(s.len() - 1);
        assert(forall|j: int| 0 <= j < t.len() ==> #[trigger] t[j] == s[j]);
        lemma_trim_back_exact(t, k);
        assert(t.take(k) =~= s.take(k));
    }
}

/// Tests a byte for ASCII whitespace.
fn is_space_byte(b: u8) -> (r: bool)
    ensures
        r == is_space(b),
{
    b == 32 || b == 9 || b == 10 || b == 13 || b == 11 || b == 12
}

/// Splits one header line on its first colon. `None` exactly when the line
/// has no colon; else the name is everything before the first colon, as
/// written, and the value is everything after it, trimmed of surrounding
/// whitespace.
pub fn parse_header_line(line: &[u8]) -> (r: Option<(Vec<u8>, Vec<u8>)>)
    ensures
        match r {
            None => !has_colon(line@),
            Some((name, value)) => {
                &&& has_colon(line@)
                &&& name@ == line@.take(first_colon(line@))
                &&& value@ == spec_trim(line@.skip(first_colon(line@) + 1))
            },
        },
{
    let n: usize = line.len();
    // Find the first colon.
    let mut c: usize = 0;
    while c < n && line[c] != 58
        invariant
            c <= n,
            n == line@.len(),
            forall|j: int| 0 <= j < c ==> line@[j] != 58,
        decreases n - c,
    {
        c = c + 1;
    }
    if c == n {
        return None;
    }
    proof {
        assert(line@[c as int] == 58);
        assert(first_colon(line@) == c) by {
            let w = first_colon(line@);
            assert(0 <= c < line@.len() && line@[c as int] == 58 && forall|j: int|
                0 <= j < c ==> line@[j] != 58);
        }
    }
    let mut name: Vec<u8> = Vec::new();
    let mut i: usize = 0;
    while i < c
        invariant
            i <= c <= n,
            n == line@.len(),
            name@.len() == i,
            forall|j: int| 0 <= j < i ==> #[trigger] name@[j] == line@[j],
        decreases c - i,
    {
        name.push(line[i]);
        i = i + 1;
    }
    proof {
        assert(name@ =~= line@.take(c as int));
    }
    // The bounds of the trimmed value within (c, n).
    let mut lo: usize = c + 1;
    while lo < n && is_space_byte(line[lo])
        invariant
            c < lo <= n,
            n == line@.len(),
            forall|j: int| c < j < lo ==> is_space(#[trigger] line@[j]),
        decreases n - lo,
    {
        lo = lo + 1;
    }
    let mut hi: usize = n;
    while hi > lo && is_space_byte(line[hi - 1])
        invariant
            lo <= hi <= n,
            n == line@.len(),
            forall|j: int| hi <= j < n ==> is_space(#[trigger] line@[j]),
        decreases hi,
    {
        hi = hi - 1;
    }
    let mut value: Vec<u8> = Vec::new();
    let mut k: usize = lo;
    while k < hi
        invariant
            lo <= k <= hi <= n,
            n == line@.len(),
            value@.len() == k - lo,
            forall|j: int| 0 <= j < k - lo ==> #[trigger] value@[j] == line@[j + lo],
        decreases hi - k,
    {
        value.push(line[k]);
        k = k + 1;
    }
    proof {
        let rest = line@.skip(c + 1);
        assert(forall|j: int| 0 <= j < rest.len() ==> #[trigger] rest[j] == line@[j + c + 1]);
        lemma_trim_front_exact(rest, lo - c - 1);
        let mid = rest.skip(lo - c - 1);
        assert(forall|j: int| 0 <= j < mid.len() ==> #[trigger] mid[j] == line@[j + lo]);
        lemma_trim_back_exact(mid, hi - lo);
        assert(value@ =~= mid.take(hi - lo));
    }
    Some((name, value))
}

} // verus!
