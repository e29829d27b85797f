//! Small helpers of a run.

use crate::out::delivery::plan;
use crate::text::texts;
use vstd::prelude::*;

verus! {

/// Whether `chunk` holds copies of the items of `v` from position `range.0`
/// up to, not including, `range.1`, in their order.
pub open spec fn is_chunk_of<T: Clone>(v: Seq<T>, range: (int, int), chunk: Seq<T>) -> bool {
    &&& chunk.len() == range.1 - range.0
    &&& forall|j: int| 0 <= j < chunk.len() ==> cloned(v[range.0 + j], #[trigger] chunk[j])
}

/// Copies of the items of `v` in chunks of `size`: the chunks follow the
/// plan of batches, so they cover `v` once and in order, and only the last
/// may be shorter.
pub fn chunked<T: Clone>(v: &[T], size: usize) -> (out: Vec<Vec<T>>)
    requires
        size > 0,
    ensures
        out@.len() == plan(0, v@.len() as int, size as int).len(),
        forall|k: int|
            0 <= k < out@.len() ==> is_chunk_of(
                v@,
                plan(0, v@.len() as int, size as int)[k],
                (#[trigger] out@[k])@,
            ),
{
    let total: usize = v.len();
    let mut out: Vec<Vec<T>> = Vec::new();
    let mut start: usize = 0;
    let ghost all = plan(0, total as int, size as int);
    let ghost mut done: Seq<(int, int)> = Seq::empty();
    while start < total
        invariant
            size > 0,
            total == v@.len(),
            start <= total,
            all == plan(0, total as int, size as int),
            all =~= done + plan(start as int, total as int, size as int),
            done.len() == out@.len(),
            forall|k: int| 0 <= k < out@.len() ==> is_chunk_of(v@, done[k], (#[trigger] out@[k])@),
        decreases total - start,
    {
        let end: usize = if size < total - start {
            start + size
        } else {
            total
        };
        let mut chunk: Vec<T> = Vec::new();
        let mut i: usize = start;
        while i < end
            invariant
                total == v@.len(),
                start <= i <= end <= total,
                chunk@.len() == i - start,
                forall|j: int| 0 <= j < chunk@.len() ==> cloned(v@[start + j], #[trigger] chunk@[j]),
            decreases end - i,
        {
            chunk.push(v[i].clone());
            i = i + 1;
        }
        proof {
            done = done.push((start as int, end as int));
        }
        out.push(chunk);
        start = end;
    }
    proof {
        assert(all =~= done);
    }
    out
}

/// The regions that are scanned when none is named.
pub fn list_enabled_regions() -> (regions: Vec<String>)
    ensures
        texts(regions@) == seq!["ap-northeast-2"@],
{
    let mut regions: Vec<String> = Vec::new();
    regions.push("ap-northeast-2".to_owned());
    assert(texts(regions@) =~= seq!["ap-northeast-2"@]);
    regions
}

/// The value of a setting of the environment, or `default` where it is not
/// set.
pub fn env_or(value: Option<String>, default: &str) -> (r: String)
    ensures
        r@ == (match value {
            Some(v) => v@,
            None => default@,
        }),
{
    match value {
        Some(v) => v,
        None => default.to_owned(),
    }
}

} // verus!
