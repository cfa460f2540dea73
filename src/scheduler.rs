use vstd::prelude::*;
use crate::history::{push_bounded, MetricsRotation};
use crate::snapshot::{ExtendedSystemData, SnapshotView};

verus! {

/// `s` tagged with the collection unit that produced it, when there is one.
pub open spec fn tagged(s: SnapshotView, source: Option<String>) -> SnapshotView {
    match source {
        Some(id) => SnapshotView { agent_id: Some(id), ..s },
        None => s,
    }
}

/// One collection tick: the fresh snapshot, tagged with `source` when given,
/// is appended to the history unconditionally, and a copy is returned to be
/// offered to the delivery channel.
pub fn record_tick(
    rotation: &mut MetricsRotation,
    data: ExtendedSystemData,
    source: Option<String>,
) -> (r: ExtendedSystemData)
    requires
        old(rotation).wf(),
    ensures
        r@ == tagged(data@, source),
        final(rotation).wf(),
        final(rotation).capacity() == old(rotation).capacity(),
        final(rotation)@ == push_bounded(old(rotation)@, r@, old(rotation).capacity()),
{
    let mut data = data;
    match source {
        Some(id) => {
            data.agent_id = Some(id);
        },
        None => {},
    }
    let copy = data.clone();
    rotation.add_metric(data);
    copy
}

/// An independent collection unit: it samples on its own interval and tags
/// each snapshot with its identifier.
pub struct Agent {
    id: String,
    interval_secs: u64,
}

impl Agent {
    pub closed spec fn id_spec(&self) -> String {
        self.id
    }

    pub closed spec fn interval_spec(&self) -> u64 {
        self.interval_secs
    }

    pub fn new(id: String, interval_secs: u64) -> (r: Self)
        ensures
            r.id_spec() == id,
            r.interval_spec() == interval_secs,
    {
        Agent { id, interval_secs }
    }

    /// Seconds between two ticks of this unit.
    pub fn interval_secs(&self) -> (r: u64)
        ensures
            r == self.interval_spec(),
    {
        self.interval_secs
    }

    /// One tick of this unit: tags `data` with the unit's identifier, appends
    /// it to the history and returns the copy to deliver.
    pub fn tick(&self, rotation: &mut MetricsRotation, data: ExtendedSystemData) -> (r:
        ExtendedSystemData)
        requires
            old(rotation).wf(),
        ensures
            r@ == tagged(data@, Some(self.id_spec())),
            final(rotation).wf(),
            final(rotation).capacity() == old(rotation).capacity(),
            final(rotation)@ == push_bounded(old(rotation)@, r@, old(rotation).capacity()),
    {
        record_tick(rotation, data, Some(self.id.clone()))
    }
}

} // verus!
