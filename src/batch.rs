//! Splitting one transfer over several connections and deciding the outcome of
//! the batch.

use crate::measure::Measurement;
use crate::payload::total_of;
use vstd::prelude::*;

verus! {

/// How a transfer is shared out over its connections. The remainder of the
/// requested size after division by the number of connections is dropped.
#[derive(Clone, Copy, Debug, PartialEq, Eq, Structural)]
pub struct BatchPlan {
    pub connections: usize,
    pub per_connection: usize,
    pub effective: usize,
}

/// The plan is the one for `requested` bytes over `connections` connections.
pub open spec fn plans(p: BatchPlan, requested: nat, connections: nat) -> bool {
    &&& connections >= 1
    &&& p.connections == connections
    &&& p.per_connection == requested / connections
    &&& p.effective == (requested / connections) * connections
}

/// Plans a transfer of `requested` bytes over `connections` connections: each
/// carries `requested / connections` bytes, and the batch the multiple of
/// `connections` just below or at `requested`.
pub fn plan_batch(requested: usize, connections: usize) -> (p: BatchPlan)
    requires
        connections >= 1,
    ensures
        plans(p, requested as nat, connections as nat),
        p.effective <= requested,
        requested - p.effective < connections,
{
    let per_connection: usize = requested / connections;
    proof {
        lemma_share_bounds(requested as nat, connections as nat);
    }
    BatchPlan { connections, per_connection, effective: per_connection * connections }
}

proof fn lemma_share_bounds(requested: nat, connections: nat)
    requires
        connections >= 1,
    ensures
        (requested / connections) * connections <= requested,
        requested - (requested / connections) * connections < connections,
{
    vstd::arithmetic::div_mod::lemma_fundamental_div_mod(requested as int, connections as int);
    vstd::arithmetic::div_mod::lemma_mod_bound(requested as int, connections as int);
    vstd::arithmetic::mul::lemma_mul_is_commutative(connections as int, (requested / connections) as int);
}

/// When every connection of a batch delivers its share, the batch moves
/// `floor(requested / connections) * connections` bytes in all.
pub proof fn lemma_batch_total(requested: nat, connections: nat, moved: Seq<nat>)
    requires
        connections >= 1,
        moved.len() == connections,
        forall|i: int| 0 <= i < moved.len() ==> #[trigger] moved[i] == requested / connections,
    ensures
        total_of(moved) == (requested / connections) * connections,
    decreases moved.len(),
{
    lemma_total_of_constant(moved, requested / connections);
    vstd::arithmetic::mul::lemma_mul_is_commutative(connections as int, (requested / connections) as int);
}

proof fn lemma_total_of_constant(s: Seq<nat>, c: nat)
    requires
        forall|i: int| 0 <= i < s.len() ==> #[trigger] s[i] == c,
    ensures
        total_of(s) == s.len() * c,
    decreases s.len(),
{
    if s.len() > 0 {
        let rest = s.subrange(1, s.len() as int);
        assert forall|i: int| 0 <= i < rest.len() implies #[trigger] rest[i] == c by {
            assert(rest[i] == s[i + 1]);
        }
        lemma_total_of_constant(rest, c);
        vstd::arithmetic::mul::lemma_mul_is_distributive_add_other_way(c as int, 1, rest.len() as int);
    }
}

/// The outcome of a batch once every connection has finished, given for each
/// of its connections, in order, whether it succeeded. The batch fails with the index of the first
/// connection that failed; otherwise it carries the batch's bytes over the
/// wall-clock time of the whole batch.
pub fn batch_outcome(plan: &BatchPlan, succeeded: &[bool], elapsed_micros: u64) -> (r: Result<Measurement, usize>)
    requires
        succeeded@.len() == plan.connections,
    ensures
        r is Ok <==> forall|i: int| 0 <= i < succeeded@.len() ==> #[trigger] succeeded@[i],
        r matches Ok(m) ==> m.bytes == plan.effective && m.elapsed_micros == elapsed_micros,
        r matches Err(k) ==> {
            &&& k < succeeded@.len()
            &&& !succeeded@[k as int]
            &&& forall|i: int| 0 <= i < k ==> #[trigger] succeeded@[i]
        },
{
    let mut i: usize = 0;
    while i < succeeded.len()
        invariant
            i <= succeeded@.len(),
            forall|j: int| 0 <= j < i ==> #[trigger] succeeded@[j],
        decreases succeeded@.len() - i,
    {
        if !succeeded[i] {
            return Err(i);
        }
        i = i + 1;
    }
    Ok(Measurement { bytes: plan.effective, elapsed_micros })
}

} // verus!
