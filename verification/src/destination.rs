//! A model of the destination file under positional writes: each range
//! fetcher writes only its own byte span, so the completed ranges
//! reconstruct the resource no matter in which order they finish.

use vstd::prelude::*;

use crate::range::{is_exact_partition, Range};

verus! {

/// The bytes of `file` with `data` laid down at offset `start`.
pub open spec fn write_seq(file: Seq<u8>, start: int, data: Seq<u8>) -> Seq<u8> {
    Seq::new(
        file.len(),
        |i: int|
            if start <= i < start + data.len() {
                data[i - start]
            } else {
                file[i]
            },
    )
}

/// `file` after a sequence of positional writes — each an offset and the
/// bytes placed there — applied first to last.
pub open spec fn apply_writes(file: Seq<u8>, ws: Seq<(int, Seq<u8>)>) -> Seq<u8>
    decreases ws.len(),
{
    if ws.len() == 0 {
        file
    } else {
        apply_writes(write_seq(file, ws[0].0, ws[0].1), ws.drop_first())
    }
}

/// Whether the write `w` lies inside a file of length `len`.
pub open spec fn write_in_bounds(w: (int, Seq<u8>), len: int) -> bool {
    0 <= w.0 && w.0 + w.1.len() <= len
}

/// Whether the write `w` places exactly the bytes of `source` that belong
/// at its offset.
pub open spec fn write_matches(w: (int, Seq<u8>), source: Seq<u8>) -> bool {
    write_in_bounds(w, source.len() as int) && w.1 == source.subrange(w.0, w.0 + w.1.len())
}

/// Whether some write of `ws` lays down byte position `i`.
pub open spec fn covered(ws: Seq<(int, Seq<u8>)>, i: int) -> bool {
    exists|k: int| 0 <= k < ws.len() && (#[trigger] ws[k]).0 <= i < ws[k].0 + ws[k].1.len()
}

/// The write that fetches the span `r` of `source` performs on success.
pub open spec fn range_write(source: Seq<u8>, r: Range) -> (int, Seq<u8>) {
    (r.start as int, source.subrange(r.start as int, r.end as int + 1))
}

/// After source-consistent writes, every covered position holds the
/// source's byte and every other position is untouched.
proof fn lemma_apply_writes_pointwise(file: Seq<u8>, source: Seq<u8>, ws: Seq<(int, Seq<u8>)>)
    requires
        file.len() == source.len(),
        forall|k: int| 0 <= k < ws.len() ==> write_matches(#[trigger] ws[k], source),
    ensures
        apply_writes(file, ws).len() == file.len(),
        forall|i: int|
            0 <= i < file.len() ==> apply_writes(file, ws)[i] == if covered(ws, i) {
                source[i]
            } else {
                file[i]
            },
    decreases ws.len(),
{
    if ws.len() > 0 {
        let w0 = ws[0];
        let file1 = write_seq(file, w0.0, w0.1);
        let rest = ws.drop_first();
        assert forall|k: int| 0 <= k < rest.len() implies write_matches(
            #[trigger] rest[k],
            source,
        ) by {
            assert(rest[k] == ws[k + 1]);
        }
        lemma_apply_writes_pointwise(file1, source, rest);
        assert(apply_writes(file, ws) == apply_writes(file1, rest));
        assert forall|i: int| 0 <= i < file.len() implies apply_writes(file, ws)[i] == if covered(
            ws,
            i,
        ) {
            source[i]
        } else {
            file[i]
        } by {
            if covered(rest, i) {
                let k = choose|k: int|
                    0 <= k < rest.len() && (#[trigger] rest[k]).0 <= i < rest[k].0
                        + rest[k].1.len();
                assert(rest[k] == ws[k + 1]);
                assert(covered(ws, i));
            } else {
                if w0.0 <= i < w0.0 + w0.1.len() {
                    assert(covered(ws, i));
                    assert(file1[i] == w0.1[i - w0.0]);
                    assert(w0.1[i - w0.0] == source[i]);
                } else {
                    assert(file1[i] == file[i]);
                    if covered(ws, i) {
                        let k = choose|k: int|
                            0 <= k < ws.len() && (#[trigger] ws[k]).0 <= i < ws[k].0
                                + ws[k].1.len();
                        assert(k > 0);
                        assert(rest[k - 1] == ws[k]);
                        assert(covered(rest, i));
                    }
                }
            }
        }
    }
}

/// Source-consistent positional writes that together cover every byte of
/// the file rebuild the source exactly, in whatever order they land.
pub proof fn lemma_writes_reconstruct(file: Seq<u8>, source: Seq<u8>, ws: Seq<(int, Seq<u8>)>)
    requires
        file.len() == source.len(),
        forall|k: int| 0 <= k < ws.len() ==> write_matches(#[trigger] ws[k], source),
        forall|i: int| 0 <= i < source.len() ==> covered(ws, i),
    ensures
        apply_writes(file, ws) == source,
{
    lemma_apply_writes_pointwise(file, source, ws);
    assert(apply_writes(file, ws) =~= source);
}

/// In an exact partition every span stays below the content length.
proof fn lemma_partition_in_bounds(
    rs: Seq<Range>,
    content_length: u64,
    num_fetches: u64,
    k: int,
)
    requires
        is_exact_partition(rs, content_length, num_fetches),
        0 <= k < rs.len(),
    ensures
        rs[k].end < content_length,
    decreases rs.len() - k,
{
    if k == rs.len() - 1 {
    } else {
        lemma_partition_in_bounds(rs, content_length, num_fetches, k + 1);
        assert(rs[k].end + 1 == rs[k + 1].start);
        assert(rs[k + 1].start <= rs[k + 1].end);
    }
}

/// The write a well-formed in-bounds range performs is source-consistent.
proof fn lemma_range_write_matches(source: Seq<u8>, r: Range)
    requires
        r.start <= r.end,
        r.end < source.len(),
    ensures
        write_matches(range_write(source, r), source),
{
}

/// A download whose every planned range was written from the source — each
/// exactly once, in any completion order — leaves the destination equal to
/// the source.  This is the disjoint-write guarantee of the fan-out: no
/// ordering between range fetchers is needed for a byte-exact result.
#[verifier::rlimit(50)]
pub proof fn lemma_partition_writes_reconstruct(
    file: Seq<u8>,
    source: Seq<u8>,
    rs: Seq<Range>,
    ws: Seq<(int, Seq<u8>)>,
    content_length: u64,
    num_fetches: u64,
)
    requires
        is_exact_partition(rs, content_length, num_fetches),
        num_fetches >= 1,
        source.len() == content_length,
        file.len() == content_length,
        forall|j: int|
            0 <= j < ws.len() ==> exists|k: int|
                0 <= k < rs.len() && #[trigger] ws[j] == range_write(source, rs[k]),
        forall|k: int|
            0 <= k < rs.len() ==> exists|j: int|
                0 <= j < ws.len() && ws[j] == range_write(source, #[trigger] rs[k]),
    ensures
        apply_writes(file, ws) == source,
{
    assert forall|j: int| 0 <= j < ws.len() implies write_matches(#[trigger] ws[j], source) by {
        let k = choose|k: int| 0 <= k < rs.len() && ws[j] == range_write(source, rs[k]);
        lemma_partition_in_bounds(rs, content_length, num_fetches, k);
        lemma_range_write_matches(source, rs[k]);
    }
    assert forall|i: int| 0 <= i < source.len() implies covered(ws, i) by {
        crate::range::lemma_partition_covers(rs, content_length, num_fetches, i);
        let k = choose|k: int| 0 <= k < rs.len() && (#[trigger] rs[k]).start <= i <= rs[k].end;
        let j = choose|j: int| 0 <= j < ws.len() && ws[j] == range_write(source, rs[k]);
        lemma_partition_in_bounds(rs, content_length, num_fetches, k);
        assert(ws[j].0 <= i < ws[j].0 + ws[j].1.len());
    }
    lemma_writes_reconstruct(file, source, ws);
}

/// Writes `data` into `buf` starting at byte offset `start`, the model of
/// one fetcher's positional write into the shared destination file.
pub fn write_at(buf: &mut Vec<u8>, start: usize, data: &Vec<u8>)
    requires
        start + data@.len() <= old(buf)@.len(),
    ensures
        final(buf)@ == write_seq(old(buf)@, start as int, data@),
{
    let n = data.len();
    let buf_len = buf.len();
    let mut i: usize = 0;
    while i < n
        invariant
            0 <= i <= n,
            n == data@.len(),
            buf_len == buf@.len(),
            start + n <= buf_len,
            buf@.len() == old(buf)@.len(),
            forall|j: int| 0 <= j < i ==> buf@[start + j] == data@[j],
            forall|j: int|
                0 <= j < buf@.len() && !(start <= j < start + i) ==> buf@[j] == old(buf)@[j],
        decreases n - i,
    {
        let b = data[i];
        buf.set(start + i, b);
        i = i + 1;
    }
    proof {
        assert(buf@ =~= write_seq(old(buf)@, start as int, data@));
    }
}

} // verus!
