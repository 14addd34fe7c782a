//! The duration grammar: a free-form byte string containing zero or more
//! segments, each a run of decimal digits followed by one of the unit letters
//! `d`, `h`, `m`, `s`. The total duration in seconds is the sum over all
//! segments of the segment's value times its unit's length in seconds.
//! Bytes that take part in no segment are skipped.
use vstd::prelude::*;

verus! {

/// Errors of `parse_duration`.
#[derive(Clone, Copy, PartialEq, Eq, Structural, Debug)]
pub enum DurationError {
    /// No segment matched, or all matched segments were zero.
    Zero,
    /// The total in seconds does not fit in a `u64`.
    Overflow,
}

/// Whether `b` is an ASCII decimal digit.
pub open spec fn is_digit(b: u8) -> bool {
    48 <= b <= 57
}

/// The number of seconds a unit letter stands for; 0 marks a non-unit byte.
pub open spec fn unit_secs(b: u8) -> nat {
    if b == 100 {
        86400
    } else if b == 104 {
        3600
    } else if b == 109 {
        60
    } else if b == 115 {
        1
    } else {
        0
    }
}

/// Whether `b` is one of the unit letters `d`, `h`, `m`, `s`.
pub open spec fn is_unit(b: u8) -> bool {
    unit_secs(b) > 0
}

/// Length of the maximal run of digits at the front of `s`.
pub open spec fn digit_run(s: Seq<u8>) -> nat
    decreases s.len(),
{
    if s.len() == 0 || !is_digit(s[0]) {
        0
    } else {
        1 + digit_run(s.skip(1))
    }
}

/// The value of a sequence of digit bytes read as a decimal number.
pub open spec fn digits_val(s: Seq<u8>) -> nat
    decreases s.len(),
{
    if s.len() == 0 {
        0
    } else {
        (digits_val(s.take(s.len() - 1)) * 10 + (s[s.len() - 1] - 48)) as nat
    }
}

/// Total seconds described by `s`: scan left to right; at a digit run that a
/// unit letter follows, add value times unit and continue past the segment,
/// otherwise move on by one byte.
pub open spec fn scan_total(s: Seq<u8>) -> nat
    decreases s.len(),
{
    if s.len() == 0 {
        0
    } else {
        let d = digit_run(s);
        if 0 < d < s.len() && is_unit(s[d as int]) {
            digits_val(s.take(d as int)) * unit_secs(s[d as int]) + scan_total(
                s.skip(d as int + 1),
            )
        } else {
            scan_total(s.skip(1))
        }
    }
}

/// The digit run never reaches past the end of the sequence.
proof fn lemma_digit_run_bound(s: Seq<u8>)
    ensures
        digit_run(s) <= s.len(),
    decreases s.len(),
{
    if s.len() != 0 && is_digit(s[0]) {
        lemma_digit_run_bound(s.skip(1));
    }
}

/// A sequence whose first `d` bytes are digits and whose byte `d`, if there is
/// one, is none has a digit run of exactly `d`.
proof fn lemma_digit_run_exact(s: Seq<u8>, d: int)
    requires
        0 <= d <= s.len(),
        forall|k: int| 0 <= k < d ==> is_digit(#[trigger] s[k]),
        d < s.len() ==> !is_digit(s[d]),
    ensures
        digit_run(s) == d,
    decreases s.len(),
{
    if d == 0 {
    } else {
        assert(is_digit(s[0]));
        let t = s.skip(1);
        assert(forall|k: int| 0 <= k < d - 1 ==> #[trigger] t[k] == s[k + 1]);
        lemma_digit_run_exact(t, d - 1);
    }
}

/// The total of the whole string splits at position `i` into the total already
/// read off a prefix and the total of the rest. This names the step the
/// parser's loop makes when no segment starts at `i`.
proof fn lemma_scan_step_skip(s: Seq<u8>, i: int)
    requires
        0 <= i < s.len(),
        !(0 < digit_run(s.skip(i)) < s.len() - i && is_unit(s[i + digit_run(s.skip(i))])),
    ensures
        scan_total(s.skip(i)) == scan_total(s.skip(i + 1)),
{
    let t = s.skip(i);
    assert(t.skip(1) =~= s.skip(i + 1));
    if t.len() != 0 {
        let d = digit_run(t);
        lemma_digit_run_bound(t);
        if 0 < d < t.len() && is_unit(t[d as int]) {
            assert(s[i + d] == t[d as int]);
            assert(false);
        }
    }
}

/// The step the parser's loop makes when a segment of `d` digits and a unit
/// letter starts at `i`.
proof fn lemma_scan_step_segment(s: Seq<u8>, i: int, d: int)
    requires
        0 <= i,
        0 < d,
        i + d < s.len(),
        digit_run(s.skip(i)) == d,
        is_unit(s[i + d]),
    ensures
        scan_total(s.skip(i)) == digits_val(s.subrange(i, i + d)) * unit_secs(s[i + d])
            + scan_total(s.skip(i + d + 1)),
{
    let t = s.skip(i);
    assert(t.take(d) =~= s.subrange(i, i + d));
    assert(t.skip(d + 1) =~= s.skip(i + d + 1));
    assert(t[d] == s[i + d]);
}

/// Appending a digit to a digit string multiplies its value by ten and adds
/// the digit.
proof fn lemma_digits_val_push(s: Seq<u8>, b: u8)
    requires
        is_digit(b),
    ensures
        digits_val(s.push(b)) == digits_val(s) * 10 + (b - 48),
{
    let t = s.push(b);
    assert(t.take(t.len() - 1) =~= s);
}

/// Every segment of the string contributes no more than the whole total; in
/// particular the first segment of the remainder at `i` is bounded by the
/// total of the remainder.
proof fn lemma_scan_total_monotone_prefix(s: Seq<u8>, i: int, d: int)
    requires
        0 <= i,
        0 < d,
        i + d < s.len(),
        digit_run(s.skip(i)) == d,
        is_unit(s[i + d]),
    ensures
        scan_total(s.skip(i)) >= digits_val(s.subrange(i, i + d)) * unit_secs(s[i + d]),
{
    lemma_scan_step_segment(s, i, d);
}

/// Parses a duration string over the grammar above. Returns the total in
/// seconds where it is positive and representable; `Zero` where the string
/// holds no positive segment, `Overflow` where the total exceeds `u64::MAX`.
pub fn parse_duration(s: &[u8]) -> (r: Result<u64, DurationError>)
    ensures
        match r {
            Ok(t) => t == scan_total(s@) && t > 0,
            Err(DurationError::Zero) => scan_total(s@) == 0,
            Err(DurationError::Overflow) => scan_total(s@) > u64::MAX,
        },
{
    let n: usize = s.len();
    let mut i: usize = 0;
    let mut total: u64 = 0;
    proof {
        assert(s@.skip(0) =~= s@);
    }
    while i < n
        invariant
            n == s@.len(),
            i <= n,
            total + scan_total(s@.skip(i as int)) == scan_total(s@),
        decreases n - i,
    {
        // Measure the digit run starting at i.
        let mut j: usize = i;
        while j < n && s[j] >= 48 && s[j] <= 57
            invariant
                i <= j <= n,
                n == s@.len(),
                forall|k: int| i <= k < j ==> is_digit(#[trigger] s@[k]),
            decreases n - j,
        {
            j = j + 1;
        }
        proof {
            let t = s@.skip(i as int);
            assert(forall|k: int|
                0 <= k < j - i ==> #[trigger] t[k] == s@[k + i] && is_digit(t[k]));
            if (j as int) < n {
                assert(t[j - i] == s@[j as int]);
            }
            lemma_digit_run_exact(t, j - i);
        }
        let seg_unit: u64 = if j < n {
            let b = s[j];
            if b == 100 {
                86400
            } else if b == 104 {
                3600
            } else if b == 109 {
                60
            } else if b == 115 {
                1
            } else {
                0
            }
        } else {
            0
        };
        if j > i && seg_unit > 0 {
            // A segment: read its value, bounding overflow against the spec
            // total, which dominates every single segment.
            let ghost seg_digits = s@.subrange(i as int, j as int);
            let ghost seg_secs = digits_val(seg_digits) * unit_secs(s@[j as int]);
            proof {
                lemma_scan_total_monotone_prefix(s@, i as int, j - i);
            }
            let mut v: u64 = 0;
            let mut k: usize = i;
            let mut too_big: bool = false;
            while k < j
                invariant
                    i <= k <= j <= n,
                    n == s@.len(),
                    seg_digits == s@.subrange(i as int, j as int),
                    forall|q: int| i <= q < j ==> is_digit(#[trigger] s@[q]),
                    !too_big ==> v == digits_val(seg_digits.take(k - i)),
                    too_big ==> digits_val(seg_digits.take(k - i)) > u64::MAX,
                decreases j - k,
            {
                let b = s[k];
                proof {
                    assert(seg_digits.take(k + 1 - i) =~= seg_digits.take(k - i).push(s@[k as int]));
                    lemma_digits_val_push(seg_digits.take(k - i), s@[k as int]);
                }
                if !too_big {
                    match v.checked_mul(10) {
                        Some(v10) => {
                            match v10.checked_add((b - 48) as u64) {
                                Some(v2) => {
                                    v = v2;
                                },
                                None => {
                                    too_big = true;
                                },
                            }
                        },
                        None => {
                            too_big = true;
                        },
                    }
                }
                k = k + 1;
            }
            proof {
                assert(seg_digits.take(j - i) =~= seg_digits);
            }
            // The segment in seconds, then the running total; overflow of
            // either means the spec total itself is too large.
            let seg: Option<u64> = if too_big {
                None
            } else {
                v.checked_mul(seg_unit)
            };
            proof {
                if digits_val(seg_digits) * unit_secs(s@[j as int]) > u64::MAX {
                    assert(scan_total(s@.skip(i as int)) >= seg_secs);
                    assert(scan_total(s@) > u64::MAX);
                } else {
                    assert(digits_val(seg_digits) <= digits_val(seg_digits) * unit_secs(
                        s@[j as int],
                    )) by (nonlinear_arith)
                        requires
                            unit_secs(s@[j as int]) >= 1,
                    ;
                }
            }
            match seg {
                None => {
                    return Err(DurationError::Overflow);
                },
                Some(seg_v) => {
                    proof {
                        lemma_scan_step_segment(s@, i as int, j - i);
                    }
                    match total.checked_add(seg_v) {
                        None => {
                            return Err(DurationError::Overflow);
                        },
                        Some(t2) => {
                            total = t2;
                        },
                    }
                    i = j + 1;
                },
            }
        } else {
            proof {
                lemma_scan_step_skip(s@, i as int);
            }
            i = i + 1;
        }
    }
    proof {
        assert(s@.skip(n as int) =~= Seq::<u8>::empty());
    }
    if total == 0 {
        Err(DurationError::Zero)
    } else {
        Ok(total)
    }
}

/// The decimal digit string of `n`, most significant digit first.
pub open spec fn spec_decimal(n: nat) -> Seq<u8>
    decreases n,
{
    if n < 10 {
        seq![(48 + n) as u8]
    } else {
        spec_decimal(n / 10).push((48 + n % 10) as u8)
    }
}

/// Decimal digit strings are non-empty and made of digits.
proof fn lemma_decimal_digits(n: nat)
    ensures
        spec_decimal(n).len() > 0,
        forall|k: int| 0 <= k < spec_decimal(n).len() ==> is_digit(#[trigger] spec_decimal(n)[k]),
    decreases n,
{
    if n >= 10 {
        lemma_decimal_digits(n / 10);
    }
}

/// Reading a decimal digit string back gives the number it was made from.
proof fn lemma_decimal_val(n: nat)
    ensures
        digits_val(spec_decimal(n)) == n,
    decreases n,
{
    if n < 10 {
        let s = spec_decimal(n);
        assert(s.take(0) =~= Seq::<u8>::empty());
        assert(digits_val(s) == digits_val(s.take(0)) * 10 + (s[0] - 48));
    } else {
        lemma_decimal_val(n / 10);
        lemma_digits_val_push(spec_decimal(n / 10), (48 + n % 10) as u8);
    }
}

/// The canonical rendering of `t` seconds: days, hours, minutes, seconds,
/// each with its unit letter, without separators.
pub open spec fn spec_format_duration(t: nat) -> Seq<u8> {
    spec_decimal(t / 86400) + seq![100u8] + spec_decimal((t % 86400) / 3600) + seq![104u8]
        + spec_decimal(((t % 86400) % 3600) / 60) + seq![109u8] + spec_decimal(
        ((t % 86400) % 3600) % 60,
    ) + seq![115u8]
}

/// A decimal string, a unit letter and a remainder scan as one segment plus
/// the scan of the remainder.
proof fn lemma_scan_decimal_segment(v: nat, u: u8, rest: Seq<u8>)
    requires
        is_unit(u),
    ensures
        scan_total(spec_decimal(v) + seq![u] + rest) == v * unit_secs(u) + scan_total(rest),
{
    let ds = spec_decimal(v);
    let s = ds + seq![u] + rest;
    let d = ds.len() as int;
    lemma_decimal_digits(v);
    lemma_decimal_val(v);
    assert(forall|k: int| 0 <= k < d ==> #[trigger] s[k] == ds[k]);
    assert(s[d] == u);
    assert(s.skip(0) =~= s);
    lemma_digit_run_exact(s, d);
    lemma_scan_step_segment(s, 0, d);
    assert(s.subrange(0, d) =~= ds);
    assert(s.skip(d + 1) =~= rest);
}

/// Parsing the canonical rendering of a total yields that total back: the
/// duration grammar round-trips.
pub proof fn lemma_duration_round_trip(t: nat)
    ensures
        scan_total(spec_format_duration(t)) == t,
{
    let days = t / 86400;
    let r1 = t % 86400;
    let hours = r1 / 3600;
    let r2 = r1 % 3600;
    let mins = r2 / 60;
    let secs = r2 % 60;
    let s4 = spec_decimal(secs) + seq![115u8];
    let s3 = spec_decimal(mins) + seq![109u8] + s4;
    let s2 = spec_decimal(hours) + seq![104u8] + s3;
    let s1 = spec_decimal(days) + seq![100u8] + s2;
    assert(s4 =~= spec_decimal(secs) + seq![115u8] + Seq::<u8>::empty());
    lemma_scan_decimal_segment(secs, 115u8, Seq::<u8>::empty());
    assert(scan_total(Seq::<u8>::empty()) == 0);
    lemma_scan_decimal_segment(mins, 109u8, s4);
    lemma_scan_decimal_segment(hours, 104u8, s3);
    lemma_scan_decimal_segment(days, 100u8, s2);
    assert(spec_format_duration(t) =~= s1);
    assert(scan_total(s1) == days * 86400 + (hours * 3600 + (mins * 60 + secs)));
    vstd::arithmetic::div_mod::lemma_fundamental_div_mod(r2 as int, 60);
    vstd::arithmetic::div_mod::lemma_fundamental_div_mod(r1 as int, 3600);
    vstd::arithmetic::div_mod::lemma_fundamental_div_mod(t as int, 86400);
}

/// Writes the decimal digits of `n`.
pub fn decimal_bytes(n: u64) -> (r: Vec<u8>)
    ensures
        r@ == spec_decimal(n as nat),
    decreases n,
{
    if n < 10 {
        let mut v: Vec<u8> = Vec::new();
        v.push(48 + n as u8);
        v
    } else {
        let mut v = decimal_bytes(n / 10);
        v.push(48 + (n % 10) as u8);
        v
    }
}

/// Renders `t` seconds canonically, as days, hours, minutes and seconds.
/// Parsing the result back gives `t` (`lemma_duration_round_trip`).
pub fn format_duration(t: u64) -> (r: Vec<u8>)
    ensures
        r@ == spec_format_duration(t as nat),
        scan_total(r@) == t,
{
    let mut out = decimal_bytes(t / 86400);
    out.push(100);
    let r1 = t % 86400;
    let mut hb = decimal_bytes(r1 / 3600);
    out.append(&mut hb);
    out.push(104);
    let r2 = r1 % 3600;
    let mut mb = decimal_bytes(r2 / 60);
    out.append(&mut mb);
    out.push(109);
    let mut sb = decimal_bytes(r2 % 60);
    out.append(&mut sb);
    out.push(115);
    proof {
        assert(out@ =~= spec_format_duration(t as nat));
        lemma_duration_round_trip(t as nat);
    }
    out
}

} // verus!
