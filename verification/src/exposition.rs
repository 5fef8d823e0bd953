//! The text exposition of a registry snapshot: the pull-based serialization a
//! scraper reads. The payload is pinned down character for character as a
//! function of the snapshot, so a scrape reports exactly the registry's state.

use vstd::prelude::*;
use vstd::string::StringExecFns;

use crate::histogram::LatencyHistogram;
use crate::outcome::StatusLabel;
use crate::registry::MetricsRegistry;

verus! {

/// The decimal digit characters.
pub open spec fn digit_char(d: int) -> char {
    if d == 0 {
        '0'
    } else if d == 1 {
        '1'
    } else if d == 2 {
        '2'
    } else if d == 3 {
        '3'
    } else if d == 4 {
        '4'
    } else if d == 5 {
        '5'
    } else if d == 6 {
        '6'
    } else if d == 7 {
        '7'
    } else if d == 8 {
        '8'
    } else {
        '9'
    }
}

/// Decimal rendering of a non-negative integer, most significant digit first,
/// no leading zeros.
pub open spec fn dec_spec(n: nat) -> Seq<char>
    decreases n,
{
    if n < 10 {
        seq![digit_char(n as int)]
    } else {
        dec_spec(n / 10).push(digit_char((n % 10) as int))
    }
}

/// One decimal digit as text.
fn digit_str(d: u64) -> (s: &'static str)
    requires
        d < 10,
    ensures
        s@ == seq![digit_char(d as int)],
{
    if d == 0 {
        proof {
            reveal_strlit("0");
            assert("0"@ =~= seq![digit_char(0)]);
        }
        "0"
    } else if d == 1 {
        proof {
            reveal_strlit("1");
            assert("1"@ =~= seq![digit_char(1)]);
        }
        "1"
    } else if d == 2 {
        proof {
            reveal_strlit("2");
            assert("2"@ =~= seq![digit_char(2)]);
        }
        "2"
    } else if d == 3 {
        proof {
            reveal_strlit("3");
            assert("3"@ =~= seq![digit_char(3)]);
        }
        "3"
    } else if d == 4 {
        proof {
            reveal_strlit("4");
            assert("4"@ =~= seq![digit_char(4)]);
        }
        "4"
    } else if d == 5 {
        proof {
            reveal_strlit("5");
            assert("5"@ =~= seq![digit_char(5)]);
        }
        "5"
    } else if d == 6 {
        proof {
            reveal_strlit("6");
            assert("6"@ =~= seq![digit_char(6)]);
        }
        "6"
    } else if d == 7 {
        proof {
            reveal_strlit("7");
            assert("7"@ =~= seq![digit_char(7)]);
        }
        "7"
    } else if d == 8 {
        proof {
            reveal_strlit("8");
            assert("8"@ =~= seq![digit_char(8)]);
        }
        "8"
    } else {
        proof {
            reveal_strlit("9");
            assert("9"@ =~= seq![digit_char(9)]);
        }
        "9"
    }
}

/// Decimal rendering of a 128-bit value.
pub fn u128_to_dec(n: u128) -> (s: String)
    ensures
        s@ == dec_spec(n as nat),
    decreases n,
{
    if n < 10 {
        digit_str(n as u64).to_owned()
    } else {
        let mut s = u128_to_dec(n / 10);
        let d = digit_str((n % 10) as u64);
        s.append(d);
        proof {
            assert(s@ =~= dec_spec((n / 10) as nat).push(digit_char((n as nat % 10) as int)));
        }
        s
    }
}

/// Decimal rendering of a 64-bit value.
pub fn u64_to_dec(n: u64) -> (s: String)
    ensures
        s@ == dec_spec(n as nat),
{
    u128_to_dec(n as u128)
}

/// A status label as it appears in the exposition: the code's digits, or the
/// error token.
pub open spec fn label_chars(l: StatusLabel) -> Seq<char> {
    match l {
        StatusLabel::Code(c) => dec_spec(c as nat),
        StatusLabel::Error => "error"@,
    }
}

/// A status label as it appears in the exposition.
pub fn render_label(l: &StatusLabel) -> (s: String)
    ensures
        s@ == label_chars(*l),
{
    match l {
        StatusLabel::Code(c) => u64_to_dec(*c as u64),
        StatusLabel::Error => "error".to_owned(),
    }
}

/// The attempt-counter block.
pub open spec fn requests_block(requests_total: nat) -> Seq<char> {
    "# HELP requests_total Total number of requests made\n# TYPE requests_total counter\nrequests_total "@
        + dec_spec(requests_total) + "\n"@
}

/// The failure-counter block.
pub open spec fn failed_block(failed_total: nat) -> Seq<char> {
    "# HELP failed_requests_total Total number of failed requests\n# TYPE failed_requests_total counter\nfailed_requests_total "@
        + dec_spec(failed_total) + "\n"@
}

/// One line of the per-status counter family.
pub open spec fn status_line(e: (StatusLabel, u64)) -> Seq<char> {
    "status_code_counter{status=\""@ + label_chars(e.0) + "\"} "@ + dec_spec(e.1 as nat) + "\n"@
}

/// The per-status lines, in the order the labels were first observed.
pub open spec fn status_lines(s: Seq<(StatusLabel, u64)>) -> Seq<char>
    decreases s.len(),
{
    if s.len() == 0 {
        Seq::<char>::empty()
    } else {
        status_lines(s.drop_last()) + status_line(s.last())
    }
}

/// The per-status counter block.
pub open spec fn status_block(s: Seq<(StatusLabel, u64)>) -> Seq<char> {
    "# HELP status_code_counter Count of HTTP status codes\n# TYPE status_code_counter counter\n"@
        + status_lines(s)
}

/// One cumulative bucket line.
pub open spec fn bucket_line(bound: u64, cum: u64) -> Seq<char> {
    "response_time_milliseconds_bucket{le=\""@ + dec_spec(bound as nat) + "\"} "@ + dec_spec(
        cum as nat,
    ) + "\n"@
}

/// The finite bucket lines, in bound order.
pub open spec fn bucket_lines(bounds: Seq<u64>, buckets: Seq<u64>) -> Seq<char>
    recommends
        bounds.len() == buckets.len(),
    decreases bounds.len(),
{
    if bounds.len() == 0 {
        Seq::<char>::empty()
    } else {
        bucket_lines(bounds.drop_last(), buckets.drop_last()) + bucket_line(
            bounds.last(),
            buckets.last(),
        )
    }
}

/// The histogram block: every finite bucket, the unbounded bucket, the sample
/// sum and the sample count.
pub open spec fn histogram_block(h: LatencyHistogram) -> Seq<char> {
    "# HELP response_time_milliseconds Summary of response times in milliseconds\n# TYPE response_time_milliseconds histogram\n"@
        + bucket_lines(h.bounds@, h.buckets@) + "response_time_milliseconds_bucket{le=\"+Inf\"} "@
        + dec_spec(h.count as nat) + "\n"@ + "response_time_milliseconds_sum "@ + dec_spec(
        h.sum as nat,
    ) + "\n"@ + "response_time_milliseconds_count "@ + dec_spec(h.count as nat) + "\n"@
}

/// The whole payload a scrape returns for the given snapshot.
pub open spec fn exposition_chars(r: MetricsRegistry) -> Seq<char> {
    requests_block(r.requests_total as nat) + failed_block(r.failed_total as nat) + status_block(
        r.status_counts@,
    ) + histogram_block(r.hist)
}

proof fn lemma_status_lines_take(s: Seq<(StatusLabel, u64)>, i: int)
    requires
        0 <= i < s.len(),
    ensures
        status_lines(s.take(i + 1)) == status_lines(s.take(i)) + status_line(s[i]),
{
    assert(s.take(i + 1).drop_last() =~= s.take(i));
    assert(s.take(i + 1).last() == s[i]);
}

proof fn lemma_bucket_lines_take(bounds: Seq<u64>, buckets: Seq<u64>, i: int)
    requires
        0 <= i < bounds.len(),
        bounds.len() == buckets.len(),
    ensures
        bucket_lines(bounds.take(i + 1), buckets.take(i + 1)) == bucket_lines(
            bounds.take(i),
            buckets.take(i),
        ) + bucket_line(bounds[i], buckets[i]),
{
    assert(bounds.take(i + 1).drop_last() =~= bounds.take(i));
    assert(buckets.take(i + 1).drop_last() =~= buckets.take(i));
    assert(bounds.take(i + 1).last() == bounds[i]);
    assert(buckets.take(i + 1).last() == buckets[i]);
}

/// A decimal rendering is never empty and never contains a line break, so a
/// reader can always take a rendered number up to the next line break.
proof fn lemma_dec_no_newline(n: nat)
    ensures
        dec_spec(n).len() >= 1,
        forall|i: int| 0 <= i < dec_spec(n).len() ==> dec_spec(n)[i] != '\n',
    decreases n,
{
    if n < 10 {
        assert(digit_char(n as int) != '\n');
    } else {
        lemma_dec_no_newline(n / 10);
        assert(digit_char((n % 10) as int) != '\n');
    }
}

/// Distinct numbers never render alike.
proof fn lemma_dec_injective(a: nat, b: nat)
    requires
        dec_spec(a) == dec_spec(b),
    ensures
        a == b,
    decreases a,
{
    lemma_dec_no_newline(a);
    lemma_dec_no_newline(b);
    if a < 10 && b < 10 {
        assert(dec_spec(a) =~= seq![digit_char(a as int)]);
        assert(dec_spec(b) =~= seq![digit_char(b as int)]);
        assert(digit_char(a as int) == dec_spec(a)[0]);
        assert(digit_char(b as int) == dec_spec(b)[0]);
        assert(digit_char(a as int) == digit_char(b as int));
        assert(a == b);
    } else if a < 10 {
        lemma_dec_no_newline(b / 10);
        assert(dec_spec(b).len() >= 2);
        assert(false);
    } else if b < 10 {
        lemma_dec_no_newline(a / 10);
        assert(dec_spec(a).len() >= 2);
        assert(false);
    } else {
        assert(dec_spec(a).last() == dec_spec(b).last());
        assert(dec_spec(a).last() == digit_char((a % 10) as int));
        assert(dec_spec(b).last() == digit_char((b % 10) as int));
        assert(a % 10 == b % 10);
        assert(dec_spec(a).drop_last() =~= dec_spec(a / 10));
        assert(dec_spec(b).drop_last() =~= dec_spec(b / 10));
        lemma_dec_injective(a / 10, b / 10);
        vstd::arithmetic::div_mod::lemma_fundamental_div_mod(a as int, 10);
        vstd::arithmetic::div_mod::lemma_fundamental_div_mod(b as int, 10);
    }
}

/// Two texts that agree after a common prefix agree outright.
proof fn lemma_strip_common_prefix(p: Seq<char>, x: Seq<char>, y: Seq<char>)
    requires
        p + x == p + y,
    ensures
        x == y,
{
    broadcast use vstd::seq::group_seq_axioms;

    assert((p + x).len() == (p + y).len());
    assert((p + x).len() == p.len() + x.len());
    assert((p + y).len() == p.len() + y.len());
    assert(x.len() == y.len());
    assert forall|i: int| 0 <= i < x.len() implies x[i] == y[i] by {
        assert((p + x)[p.len() + i] == x[i]);
        assert((p + y)[p.len() + i] == y[i]);
    }
    assert(x =~= y);
}

/// A rendered number followed by a line break can be read back unambiguously:
/// equal texts of that shape carry the same number and the same remainder.
proof fn lemma_number_then_newline(a: nat, b: nat, x: Seq<char>, y: Seq<char>)
    requires
        dec_spec(a) + "\n"@ + x == dec_spec(b) + "\n"@ + y,
    ensures
        a == b,
        x == y,
{
    broadcast use vstd::seq::group_seq_axioms;

    lemma_dec_no_newline(a);
    lemma_dec_no_newline(b);
    reveal_strlit("\n");
    let da = dec_spec(a);
    let db = dec_spec(b);
    let left = da + "\n"@ + x;
    let right = db + "\n"@ + y;
    if da.len() < db.len() {
        assert(left[da.len() as int] == '\n');
        assert(right[da.len() as int] == db[da.len() as int]);
        assert(false);
    } else if db.len() < da.len() {
        assert(right[db.len() as int] == '\n');
        assert(left[db.len() as int] == da[db.len() as int]);
        assert(false);
    }
    assert forall|i: int| 0 <= i < da.len() implies da[i] == db[i] by {
        assert(left[i] == da[i]);
        assert(right[i] == db[i]);
    }
    assert(da =~= db);
    lemma_dec_injective(a, b);
    lemma_strip_common_prefix(da + "\n"@, x, y);
}

/// Scrape faithfulness: the payload determines the counters it reports — two
/// snapshots that serialize to the same payload agree on the attempt total and
/// the failure total.
#[verifier::rlimit(100)]
pub proof fn lemma_payload_determines_counters(r1: MetricsRegistry, r2: MetricsRegistry)
    requires
        exposition_chars(r1) == exposition_chars(r2),
    ensures
        r1.requests_total == r2.requests_total,
        r1.failed_total == r2.failed_total,
{
    broadcast use vstd::seq::group_seq_axioms;

    let lit_requests =
        "# HELP requests_total Total number of requests made\n# TYPE requests_total counter\nrequests_total "@;
    let lit_failed =
        "# HELP failed_requests_total Total number of failed requests\n# TYPE failed_requests_total counter\nfailed_requests_total "@;
    let tail1 = status_block(r1.status_counts@) + histogram_block(r1.hist);
    let tail2 = status_block(r2.status_counts@) + histogram_block(r2.hist);
    let after_requests1 = dec_spec(r1.requests_total as nat) + "\n"@ + (failed_block(
        r1.failed_total as nat,
    ) + tail1);
    let after_requests2 = dec_spec(r2.requests_total as nat) + "\n"@ + (failed_block(
        r2.failed_total as nat,
    ) + tail2);
    assert(exposition_chars(r1) =~= lit_requests + after_requests1);
    assert(exposition_chars(r2) =~= lit_requests + after_requests2);
    lemma_strip_common_prefix(lit_requests, after_requests1, after_requests2);
    lemma_number_then_newline(
        r1.requests_total as nat,
        r2.requests_total as nat,
        failed_block(r1.failed_total as nat) + tail1,
        failed_block(r2.failed_total as nat) + tail2,
    );
    let after_failed1 = dec_spec(r1.failed_total as nat) + "\n"@ + tail1;
    let after_failed2 = dec_spec(r2.failed_total as nat) + "\n"@ + tail2;
    assert(failed_block(r1.failed_total as nat) + tail1 =~= lit_failed + after_failed1);
    assert(failed_block(r2.failed_total as nat) + tail2 =~= lit_failed + after_failed2);
    lemma_strip_common_prefix(lit_failed, after_failed1, after_failed2);
    lemma_number_then_newline(
        r1.failed_total as nat,
        r2.failed_total as nat,
        tail1,
        tail2,
    );
}

/// The content type a scrape response carries.
pub fn content_type() -> (s: &'static str)
    ensures
        s@ == "text/plain; version=0.0.4"@,
{
    "text/plain; version=0.0.4"
}

/// Serializes a registry snapshot into the text exposition payload — exactly
/// `exposition_chars` of the snapshot, so equal snapshots always scrape
/// equally.
pub fn render_exposition(r: &MetricsRegistry) -> (out: String)
    requires
        r.hist.buckets@.len() == r.hist.bounds@.len(),
    ensures
        out@ == exposition_chars(*r),
{
    let mut out = String::new();

    // Attempt counter.
    out.append(
        "# HELP requests_total Total number of requests made\n# TYPE requests_total counter\nrequests_total ",
    );
    let requests_dec = u64_to_dec(r.requests_total);
    out.append(requests_dec.as_str());
    out.append("\n");
    proof {
        assert(out@ =~= requests_block(r.requests_total as nat));
    }

    // Failure counter.
    out.append(
        "# HELP failed_requests_total Total number of failed requests\n# TYPE failed_requests_total counter\nfailed_requests_total ",
    );
    let failed_dec = u64_to_dec(r.failed_total);
    out.append(failed_dec.as_str());
    out.append("\n");
    let ghost head = requests_block(r.requests_total as nat) + failed_block(
        r.failed_total as nat,
    );
    proof {
        assert(out@ =~= head);
    }

    // Per-status counters.
    out.append(
        "# HELP status_code_counter Count of HTTP status codes\n# TYPE status_code_counter counter\n",
    );
    let ghost status_head = head
        + "# HELP status_code_counter Count of HTTP status codes\n# TYPE status_code_counter counter\n"@;
    let n = r.status_counts.len();
    let mut i: usize = 0;
    while i < n
        invariant
            i <= n,
            n == r.status_counts@.len(),
            out@ == status_head + status_lines(r.status_counts@.take(i as int)),
        decreases n - i,
    {
        let e = r.status_counts[i];
        out.append("status_code_counter{status=\"");
        let label_dec = render_label(&e.0);
        out.append(label_dec.as_str());
        out.append("\"} ");
        let count_dec = u64_to_dec(e.1);
        out.append(count_dec.as_str());
        out.append("\n");
        proof {
            lemma_status_lines_take(r.status_counts@, i as int);
            assert(out@ =~= status_head + status_lines(r.status_counts@.take(i as int + 1)));
        }
        i += 1;
    }
    proof {
        assert(r.status_counts@.take(n as int) =~= r.status_counts@);
        assert(out@ =~= head + status_block(r.status_counts@));
    }

    // Histogram.
    out.append(
        "# HELP response_time_milliseconds Summary of response times in milliseconds\n# TYPE response_time_milliseconds histogram\n",
    );
    let ghost hist_head = head + status_block(r.status_counts@)
        + "# HELP response_time_milliseconds Summary of response times in milliseconds\n# TYPE response_time_milliseconds histogram\n"@;
    let m = r.hist.bounds.len();
    let mut j: usize = 0;
    while j < m
        invariant
            j <= m,
            m == r.hist.bounds@.len(),
            r.hist.buckets@.len() == r.hist.bounds@.len(),
            out@ == hist_head + bucket_lines(
                r.hist.bounds@.take(j as int),
                r.hist.buckets@.take(j as int),
            ),
        decreases m - j,
    {
        out.append("response_time_milliseconds_bucket{le=\"");
        let bound_dec = u64_to_dec(r.hist.bounds[j]);
        out.append(bound_dec.as_str());
        out.append("\"} ");
        let cum_dec = u64_to_dec(r.hist.buckets[j]);
        out.append(cum_dec.as_str());
        out.append("\n");
        proof {
            lemma_bucket_lines_take(r.hist.bounds@, r.hist.buckets@, j as int);
            assert(out@ =~= hist_head + bucket_lines(
                r.hist.bounds@.take(j as int + 1),
                r.hist.buckets@.take(j as int + 1),
            ));
        }
        j += 1;
    }
    out.append("response_time_milliseconds_bucket{le=\"+Inf\"} ");
    let count_dec = u64_to_dec(r.hist.count);
    out.append(count_dec.as_str());
    out.append("\n");
    out.append("response_time_milliseconds_sum ");
    let sum_dec = u128_to_dec(r.hist.sum);
    out.append(sum_dec.as_str());
    out.append("\n");
    out.append("response_time_milliseconds_count ");
    let count_dec_again = u64_to_dec(r.hist.count);
    out.append(count_dec_again.as_str());
    out.append("\n");
    proof {
        assert(r.hist.bounds@.take(m as int) =~= r.hist.bounds@);
        assert(r.hist.buckets@.take(m as int) =~= r.hist.buckets@);
        assert(out@ =~= exposition_chars(*r));
    }
    out
}

} // verus!
