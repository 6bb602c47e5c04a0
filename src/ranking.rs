//! Choosing a server by measured round-trip time.

use vstd::prelude::*;

verus! {

/// Ordering key of a latency: an unreachable server ranks after every reachable one.
pub open spec fn latency_key(l: Option<u64>) -> int {
    match l {
        Some(v) => v as int,
        None => u64::MAX as int + 1,
    }
}

/// The index of the quickest server among `latencies` (microseconds, `None` for a
/// server that could not be reached): the first index whose key is smallest.
/// `None` only for an empty list.
pub fn pick_fastest(latencies: &[Option<u64>]) -> (r: Option<usize>)
    ensures
        r is None <==> latencies@.len() == 0,
        r matches Some(k) ==> {
            &&& k < latencies@.len()
            &&& forall|i: int| 0 <= i < latencies@.len()
                ==> latency_key(latencies@[k as int]) <= latency_key(#[trigger] latencies@[i])
            &&& forall|i: int| 0 <= i < k
                ==> latency_key(latencies@[k as int]) < latency_key(#[trigger] latencies@[i])
        },
{
    if latencies.len() == 0 {
        return None;
    }
    let mut best: usize = 0;
    let mut i: usize = 1;
    while i < latencies.len()
        invariant
            1 <= i <= latencies@.len(),
            best < i,
            forall|j: int| 0 <= j < i ==> latency_key(latencies@[best as int]) <= latency_key(#[trigger] latencies@[j]),
            forall|j: int| 0 <= j < best ==> latency_key(latencies@[best as int]) < latency_key(#[trigger] latencies@[j]),
        decreases latencies@.len() - i,
    {
        let better: bool = match (latencies[i], latencies[best]) {
            (Some(a), Some(b)) => a < b,
            (Some(_), None) => true,
            (None, _) => false,
        };
        if better {
            best = i;
        }
        i = i + 1;
    }
    Some(best)
}

} // verus!
