use vstd::prelude::*;
use crate::snapshot::{ExtendedSystemData, SnapshotView};

verus! {

/// `s` after appending `x` to a store that keeps at most `cap` entries:
/// the oldest entry leaves once the size would exceed `cap`.
pub open spec fn push_bounded<A>(s: Seq<A>, x: A, cap: nat) -> Seq<A> {
    let t = s.push(x);
    if t.len() > cap {
        t.drop_first()
    } else {
        t
    }
}

/// An empty store of capacity `cap` after appending `inputs` in order.
pub open spec fn filled<A>(inputs: Seq<A>, cap: nat) -> Seq<A>
    decreases inputs.len(),
{
    if inputs.len() == 0 {
        Seq::empty()
    } else {
        push_bounded(filled(inputs.drop_last(), cap), inputs.last(), cap)
    }
}

/// Fixed-capacity, insertion-ordered history of snapshots: the most recent is
/// last, and the oldest is evicted first once the capacity is exceeded.
pub struct MetricsRotation {
    max_entries: usize,
    metrics: Vec<ExtendedSystemData>,
}

impl View for MetricsRotation {
    type V = Seq<SnapshotView>;

    closed spec fn view(&self) -> Seq<SnapshotView> {
        self.metrics@.map_values(|s: ExtendedSystemData| s@)
    }
}

impl MetricsRotation {
    /// The capacity fixed at construction.
    pub closed spec fn capacity(&self) -> nat {
        self.max_entries as nat
    }

    /// The store never holds more than its capacity.
    pub closed spec fn wf(&self) -> bool {
        self.metrics.len() <= self.max_entries
    }

    pub fn new(max_entries: usize) -> (r: Self)
        ensures
            r.wf(),
            r@ == Seq::<SnapshotView>::empty(),
            r.capacity() == max_entries,
    {
        let r = MetricsRotation { max_entries, metrics: Vec::new() };
        assert(r@ =~= Seq::<SnapshotView>::empty());
        r
    }

    /// Appends `metric` at the end, evicting the oldest entry when the size
    /// would exceed the capacity.
    pub fn add_metric(&mut self, metric: ExtendedSystemData)
        requires
            old(self).wf(),
        ensures
            final(self).wf(),
            final(self).capacity() == old(self).capacity(),
            final(self)@ == push_bounded(old(self)@, metric@, old(self).capacity()),
    {
        let ghost before = self.metrics@;
        self.metrics.push(metric);
        if self.metrics.len() > self.max_entries {
            self.metrics.remove(0);
            assert(self.metrics@ =~= before.push(metric).drop_first());
        }
        assert(self@ =~= push_bounded(old(self)@, metric@, old(self).capacity()));
    }

    /// A copy of the whole history, oldest first.
    pub fn get_metrics(&self) -> (r: Vec<ExtendedSystemData>)
        ensures
            r@.map_values(|s: ExtendedSystemData| s@) == self@,
    {
        let r = self.metrics.clone();
        assert(r@.map_values(|s: ExtendedSystemData| s@) =~= self@);
        r
    }

    /// A copy of the most recent snapshot; `None` only when the store is empty.
    pub fn latest(&self) -> (r: Option<ExtendedSystemData>)
        ensures
            r is None <==> self@.len() == 0,
            r matches Some(x) ==> x@ == self@.last(),
    {
        let n = self.metrics.len();
        if n == 0 {
            None
        } else {
            Some(self.metrics[n - 1].clone())
        }
    }

    /// Number of snapshots held.
    pub fn len(&self) -> (r: usize)
        ensures
            r == self@.len(),
    {
        self.metrics.len()
    }
}

/// Appending to a store that keeps at most `cap` entries leaves the last
/// `min(len, cap)` inputs, in the order they were appended.
pub proof fn lemma_filled_keeps_newest<A>(inputs: Seq<A>, cap: nat)
    ensures
        filled(inputs, cap) == inputs.subrange(
            if inputs.len() > cap { inputs.len() - cap } else { 0 },
            inputs.len() as int,
        ),
    decreases inputs.len(),
{
    if inputs.len() == 0 {
        assert(inputs.subrange(0, 0) =~= Seq::<A>::empty());
    } else {
        let prefix = inputs.drop_last();
        lemma_filled_keeps_newest(prefix, cap);
        let start: int = if prefix.len() > cap { prefix.len() - cap } else { 0 };
        let t = prefix.subrange(start, prefix.len() as int).push(inputs.last());
        assert(t =~= inputs.subrange(start, inputs.len() as int));
        if t.len() > cap {
            assert(t.drop_first() =~= inputs.subrange(start + 1, inputs.len() as int));
        }
    }
}

/// Appending `cap + 1` snapshots to an empty store of capacity `cap` leaves
/// `cap` of them: all but the first, in order.
pub proof fn lemma_overflow_evicts_first<A>(inputs: Seq<A>, cap: nat)
    requires
        inputs.len() == cap + 1,
    ensures
        filled(inputs, cap).len() == cap,
        filled(inputs, cap) == inputs.subrange(1, cap + 1 as int),
{
    lemma_filled_keeps_newest(inputs, cap);
}

} // verus!
