//! Planning of byte ranges: splitting a content length into contiguous,
//! non-overlapping inclusive spans, one per parallel fetch.

use vstd::prelude::*;

use crate::errors::FetchError;

verus! {

/// An inclusive span `[start, end]` of bytes of the target resource.
#[derive(Debug, Clone, Copy, PartialEq, Eq, Structural)]
pub struct Range {
    /// The first byte of the span.
    pub start: u64,
    /// The last byte of the span, inclusive.
    pub end: u64,
}

impl Range {
    /// A well-formed span has its start at or before its end.
    pub open spec fn wf(self) -> bool {
        self.start <= self.end
    }

    /// The number of bytes the span holds.
    pub open spec fn byte_len(self) -> int {
        self.end - self.start + 1
    }
}

/// The width of every planned range but the last: the content length
/// divided by the number of fetches, rounded down.
pub open spec fn plan_step(content_length: u64, num_fetches: u64) -> int {
    content_length as int / num_fetches as int
}

/// The range planned for index `i`: ranges advance by `plan_step`, and the
/// last one absorbs the remainder by ending at `content_length - 1`.
pub open spec fn planned_range(content_length: u64, num_fetches: u64, i: int) -> Range {
    let step = plan_step(content_length, num_fetches);
    Range {
        start: (i * step) as u64,
        end: if i == num_fetches - 1 {
            (content_length - 1) as u64
        } else {
            (i * step + step - 1) as u64
        },
    }
}

/// The full planned sequence of ranges.
pub open spec fn plan_seq(content_length: u64, num_fetches: u64) -> Seq<Range> {
    Seq::new(num_fetches as nat, |i: int| planned_range(content_length, num_fetches, i))
}

/// The inputs on which planning succeeds: at least one fetch, at least one
/// byte, and no more fetches than bytes (an inclusive range holds at least
/// one byte, so more ranges than bytes cannot partition the content).
pub open spec fn plan_ok(content_length: u64, num_fetches: u64) -> bool {
    1 <= num_fetches <= content_length
}

/// `rs` splits `[0, content_length - 1]` into exactly `num_fetches`
/// contiguous well-formed spans: the first starts at zero, each next one
/// starts right after its predecessor, and the last ends at the final byte.
/// Together these say the spans cover every byte exactly once.
pub open spec fn is_exact_partition(rs: Seq<Range>, content_length: u64, num_fetches: u64) -> bool {
    &&& rs.len() == num_fetches
    &&& forall|i: int| 0 <= i < rs.len() ==> (#[trigger] rs[i]).start <= rs[i].end
    &&& rs.len() > 0 ==> rs[0].start == 0
    &&& rs.len() > 0 ==> rs[rs.len() - 1].end == content_length - 1
    &&& forall|i: int| 0 <= i < rs.len() - 1 ==> (#[trigger] rs[i]).end + 1 == rs[i + 1].start
}

/// The message rejecting a zero fetch count.
pub open spec fn zero_fetches_message() -> Seq<char> {
    "Number of fetches must be greater than zero"@
}

/// Arithmetic facts about the planned range at index `i`, enough to show
/// each planned range is in bounds and well formed.
proof fn lemma_plan_facts(content_length: u64, num_fetches: u64, i: int)
    requires
        plan_ok(content_length, num_fetches),
        0 <= i < num_fetches,
    ensures
        ({
            let step = plan_step(content_length, num_fetches);
            &&& step >= 1
            &&& i * step >= 0
            &&& i * step + step == (i + 1) * step
            &&& (i + 1) * step <= content_length
            &&& i == num_fetches - 1 ==> i * step <= content_length - 1
        }),
{
    let l = content_length as int;
    let n = num_fetches as int;
    let s = l / n;
    vstd::arithmetic::div_mod::lemma_fundamental_div_mod(l, n);
    assert(l == n * s + l % n);
    assert(0 <= l % n < n);
    assert(s >= 1) by (nonlinear_arith)
        requires
            l == n * s + l % n,
            0 <= l % n < n,
            n <= l,
            n >= 1,
    ;
    assert(i * s >= 0 && i * s + s == (i + 1) * s) by (nonlinear_arith)
        requires
            i >= 0,
            s >= 1,
    ;
    assert((i + 1) * s <= n * s) by {
        vstd::arithmetic::mul::lemma_mul_inequality(i + 1, n, s);
    }
    assert(n * s <= l);
    assert(i == n - 1 ==> i * s <= l - s) by (nonlinear_arith)
        requires
            l == n * s + l % n,
            0 <= l % n,
            s >= 1,
            0 <= i < n,
    ;
}

/// The planned sequence is an exact partition of the content: contiguous
/// spans that cover `[0, content_length - 1]` exactly once, one per fetch.
pub proof fn lemma_plan_exact_partition(content_length: u64, num_fetches: u64)
    requires
        plan_ok(content_length, num_fetches),
    ensures
        is_exact_partition(
            plan_seq(content_length, num_fetches),
            content_length,
            num_fetches,
        ),
{
    let rs = plan_seq(content_length, num_fetches);
    let step = plan_step(content_length, num_fetches);
    assert forall|i: int| 0 <= i < rs.len() implies (#[trigger] rs[i]).start <= rs[i].end by {
        lemma_plan_facts(content_length, num_fetches, i);
    }
    assert(rs.len() > 0 ==> rs[0].start == 0) by {
        lemma_plan_facts(content_length, num_fetches, 0);
    }
    assert forall|i: int| 0 <= i < rs.len() - 1 implies (#[trigger] rs[i]).end + 1
        == rs[i + 1].start by {
        lemma_plan_facts(content_length, num_fetches, i);
        lemma_plan_facts(content_length, num_fetches, i + 1);
    }
}

/// The spans of an exact partition are pairwise disjoint: an earlier span
/// ends before a later one begins, so no byte is covered twice.
pub proof fn lemma_partition_disjoint(
    rs: Seq<Range>,
    content_length: u64,
    num_fetches: u64,
    i: int,
    j: int,
)
    requires
        is_exact_partition(rs, content_length, num_fetches),
        0 <= i < j < rs.len(),
    ensures
        rs[i].end < rs[j].start,
    decreases j - i,
{
    if j == i + 1 {
        assert(rs[i].end + 1 == rs[j].start);
    } else {
        lemma_partition_disjoint(rs, content_length, num_fetches, i, j - 1);
        assert(rs[j - 1].end + 1 == rs[j].start);
    }
}

/// Every byte position below the content length lies in one of the spans of
/// an exact partition.
pub proof fn lemma_partition_covers(rs: Seq<Range>, content_length: u64, num_fetches: u64, pos: int)
    requires
        is_exact_partition(rs, content_length, num_fetches),
        num_fetches >= 1,
        0 <= pos < content_length,
    ensures
        exists|k: int| 0 <= k < rs.len() && (#[trigger] rs[k]).start <= pos <= rs[k].end,
{
    lemma_prefix_covers(rs, rs.len() - 1, pos);
}

/// The first `k + 1` spans of a partition-shaped sequence cover every
/// position up to the end of span `k`.
proof fn lemma_prefix_covers(rs: Seq<Range>, k: int, pos: int)
    requires
        0 <= k < rs.len(),
        forall|i: int| 0 <= i < rs.len() ==> (#[trigger] rs[i]).start <= rs[i].end,
        rs[0].start == 0,
        forall|i: int| 0 <= i < rs.len() - 1 ==> (#[trigger] rs[i]).end + 1 == rs[i + 1].start,
        0 <= pos <= rs[k].end,
    ensures
        exists|j: int| 0 <= j <= k && (#[trigger] rs[j]).start <= pos <= rs[j].end,
    decreases k,
{
    if rs[k].start <= pos {
        assert(0 <= k <= k && rs[k].start <= pos <= rs[k].end);
    } else {
        assert(k > 0);
        assert(rs[k - 1].end + 1 == rs[k].start);
        lemma_prefix_covers(rs, k - 1, pos);
    }
}

/// Splits `content_length` bytes into `num_fetches` contiguous inclusive
/// ranges.  All ranges but the last hold `content_length / num_fetches`
/// bytes; the last absorbs the remainder and ends at `content_length - 1`.
///
/// Fails with an invalid-argument error when the fetch count is zero, when
/// the content is empty (an inclusive range cannot describe zero bytes), or
/// when there are more fetches than bytes.
pub fn create_ranges(content_length: u64, num_fetches: u64) -> (r: Result<Vec<Range>, FetchError>)
    ensures
        plan_ok(content_length, num_fetches) ==> (r matches Ok(v) && v@ == plan_seq(
            content_length,
            num_fetches,
        )),
        !plan_ok(content_length, num_fetches) ==> (r matches Err(e) && e matches
            FetchError::InvalidArgumentsError(_)),
        num_fetches == 0 ==> (r matches Err(e) && e matches FetchError::InvalidArgumentsError(m)
            && m@ == zero_fetches_message()),
{
    if num_fetches == 0 {
        return Err(
            FetchError::InvalidArgumentsError(
                String::from_str("Number of fetches must be greater than zero"),
            ),
        );
    }
    if content_length == 0 {
        return Err(
            FetchError::InvalidArgumentsError(
                String::from_str("Content length must be greater than zero"),
            ),
        );
    }
    if num_fetches > content_length {
        return Err(
            FetchError::InvalidArgumentsError(
                String::from_str("Number of fetches must not exceed content length"),
            ),
        );
    }
    let step: u64 = content_length / num_fetches;
    let mut ranges: Vec<Range> = Vec::new();
    let mut cursor: u64 = 0;
    for i in 0..num_fetches
        invariant
            plan_ok(content_length, num_fetches),
            step == plan_step(content_length, num_fetches),
            ranges@.len() == i,
            i < num_fetches ==> cursor == i as int * plan_step(content_length, num_fetches),
            forall|j: int|
                0 <= j < i ==> ranges@[j] == planned_range(content_length, num_fetches, j),
    {
        proof {
            lemma_plan_facts(content_length, num_fetches, i as int);
        }
        let end: u64 = if i == num_fetches - 1 {
            content_length - 1
        } else {
            cursor + step - 1
        };
        let range = Range { start: cursor, end };
        assert(range == planned_range(content_length, num_fetches, i as int));
        if i + 1 < num_fetches {
            proof {
                lemma_plan_facts(content_length, num_fetches, i as int + 1);
            }
        }
        cursor = end + 1;
        ranges.push(range);
    }
    assert(ranges@ =~= plan_seq(content_length, num_fetches));
    Ok(ranges)
}

} // verus!
