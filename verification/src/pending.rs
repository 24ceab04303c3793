//! The pending-request table: a mapping from request identifier to the
//! single-use completion handle a caller is awaiting, together with the
//! identifier allocator the writer uses to keep concurrently pending
//! requests distinct even when the counter wraps around.

use vstd::prelude::*;

verus! {

broadcast use vstd::std_specs::hash::group_hash_axioms;

/// Distance from `a` forward to `b` when counting upward through `u32`
/// values and wrapping past `u32::MAX` back to zero.
pub open spec fn wrap_dist(a: u32, b: u32) -> nat {
    if a <= b {
        (b - a) as nat
    } else {
        (b - a + 0x1_0000_0000) as nat
    }
}

/// The successor of `x` in wrapping `u32` order.
pub open spec fn spec_wrap_inc(x: u32) -> u32 {
    if x == u32::MAX {
        0
    } else {
        (x + 1) as u32
    }
}

/// Stepping forward moves one closer to any value other than the start.
proof fn lemma_wrap_inc_dist(a: u32, b: u32)
    requires
        a != b,
    ensures
        wrap_dist(spec_wrap_inc(a), b) == wrap_dist(a, b) - 1,
{
}

/// Two values at the same forward distance from one start are the same value.
proof fn lemma_wrap_dist_injective(start: u32, a: u32, b: u32)
    requires
        wrap_dist(start, a) == wrap_dist(start, b),
    ensures
        a == b,
{
}

fn wrap_inc(x: u32) -> (r: u32)
    ensures
        r == spec_wrap_inc(x),
{
    if x == u32::MAX {
        0
    } else {
        x + 1
    }
}

/// The table of requests that have been written but not yet answered.
/// Its view is the mathematical map from identifier to completion handle;
/// a key is present exactly while its request is pending.
#[verifier::reject_recursive_types(V)]
pub struct PendingTable<V> {
    entries: std::collections::HashMap<u32, V>,
}

impl<V> View for PendingTable<V> {
    type V = Map<u32, V>;

    closed spec fn view(&self) -> Map<u32, V> {
        self.entries@
    }
}

impl<V> PendingTable<V> {
    /// A connection starts with nothing pending.
    pub fn new() -> (r: Self)
        ensures
            r@ == Map::<u32, V>::empty(),
    {
        PendingTable { entries: std::collections::HashMap::new() }
    }

    /// How many requests are pending.
    pub fn len(&self) -> (r: usize)
        ensures
            r == self@.dom().len(),
    {
        self.entries.len()
    }

    /// Whether a request with this identifier is pending.
    pub fn contains(&self, id: u32) -> (r: bool)
        ensures
            r == self@.contains_key(id),
    {
        self.entries.contains_key(&id)
    }

    /// Record that the request with this identifier has been written and a
    /// caller now awaits its response through `handle`.
    pub fn register(&mut self, id: u32, handle: V)
        ensures
            final(self)@ == old(self)@.insert(id, handle),
    {
        self.entries.insert(id, handle);
    }

    /// Remove and return the completion handle pending under `id`, if any.
    /// An identifier with no pending entry leaves the table untouched, so a
    /// spurious response can never disturb other in-flight requests.
    pub fn take(&mut self, id: u32) -> (r: Option<V>)
        ensures
            old(self)@.contains_key(id) ==> r == Some(old(self)@[id]) && final(self)@ == old(
                self,
            )@.remove(id),
            !old(self)@.contains_key(id) ==> r is None && final(self)@ == old(self)@,
    {
        let r = self.entries.remove(&id);
        proof {
            if !old(self)@.contains_key(id) {
                assert(old(self)@.remove(id) =~= old(self)@);
            }
        }
        r
    }

    /// Allocate a request identifier: the first value, counting upward from
    /// `start` and wrapping past `u32::MAX`, that is not already pending.
    /// Every identifier strictly between `start` and the result is pending,
    /// so the result is exactly the identifier the advancing counter lands on.
    pub fn alloc_id(&self, start: u32) -> (id: u32)
        requires
            exists|j: u32| !self@.contains_key(j),
        ensures
            !self@.contains_key(id),
            forall|k: u32| wrap_dist(start, k) < wrap_dist(start, id) ==> self@.contains_key(k),
    {
        let ghost j0: u32 = choose|j: u32| !self@.contains_key(j);
        let mut id: u32 = start;
        while self.contains(id)
            invariant
                !self@.contains_key(j0),
                wrap_dist(start, id) <= wrap_dist(start, j0),
                forall|k: u32| wrap_dist(start, k) < wrap_dist(start, id) ==> self@.contains_key(
                    k,
                ),
            decreases wrap_dist(id, j0),
        {
            proof {
                if wrap_dist(start, id) == wrap_dist(start, j0) {
                    lemma_wrap_dist_injective(start, id, j0);
                }
                lemma_wrap_inc_dist(id, j0);
                assert forall|k: u32|
                    wrap_dist(start, k) < wrap_dist(start, spec_wrap_inc(id)) implies self@.contains_key(
                    k,
                ) by {
                    if wrap_dist(start, k) == wrap_dist(start, id) {
                        lemma_wrap_dist_injective(start, k, id);
                    }
                }
            }
            id = wrap_inc(id);
        }
        id
    }

    /// The table is backed by a hash map, so the set of pending identifiers
    /// is always finite.
    pub proof fn lemma_dom_finite(&self)
        ensures
            self@.dom().finite(),
    {
    }
}

/// As long as fewer than `u32::MAX + 1` requests are pending at once, some
/// identifier is free — which is why the allocator's search always finds one.
pub proof fn lemma_small_table_has_free_id<V>(table: Map<u32, V>)
    requires
        table.dom().finite(),
        table.dom().len() < 0x1_0000_0000,
    ensures
        exists|j: u32| !table.contains_key(j),
{
    if !(exists|j: u32| !table.contains_key(j)) {
        let below_max = Set::<u32>::range(0u32, u32::MAX);
        <u32 as vstd::set_lib::FiniteRange>::range_properties(0u32, u32::MAX);
        let all = below_max.insert(u32::MAX);
        assert(!below_max.contains(u32::MAX));
        assert(all.len() == 0x1_0000_0000);
        assert(table.dom() =~= all);
        assert(false);
    }
}

/// Law: an identifier just allocated against the table is distinct from the
/// identifier of every request still pending, so no two simultaneously
/// pending requests ever share an identifier, even after the counter wraps.
pub proof fn lemma_allocated_id_fresh<V>(table: Map<u32, V>, id: u32)
    requires
        !table.contains_key(id),
    ensures
        forall|p: u32| table.contains_key(p) ==> p != id,
{
}

/// Law: registrations under distinct identifiers are correlated by identifier
/// alone — whichever of the two responses is taken out of the table first,
/// each identifier yields exactly the handle that was registered under it.
pub proof fn lemma_correlation_order_free<V>(table: Map<u32, V>, id1: u32, h1: V, id2: u32, h2: V)
    requires
        id1 != id2,
        !table.contains_key(id1),
        !table.contains_key(id2),
    ensures
        table.insert(id1, h1).insert(id2, h2)[id1] == h1,
        table.insert(id1, h1).insert(id2, h2)[id2] == h2,
        table.insert(id1, h1).insert(id2, h2).remove(id2)[id1] == h1,
        table.insert(id1, h1).insert(id2, h2).remove(id1)[id2] == h2,
{
}

} // verus!
