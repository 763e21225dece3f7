//! The shared state store: holds the current snapshot, replaces it whole on each
//! write, and hands every new snapshot to each subscriber's mapper.
use vstd::prelude::*;
use crate::snapshot::{assemble, failed_collectors, assembled, Collector, RawReadings, SystemStateData};

verus! {

/// The current snapshot and the subscribers that hear of each new one.
///
/// A subscriber is a mapper from a snapshot to an optional message: `None`
/// declines the notification for that subscriber alone.
#[verifier::reject_recursive_types(M)]
pub struct SystemState<M, F: Fn(&SystemStateData) -> Option<M>> {
    data: SystemStateData,
    subscribers: Vec<F>,
}

impl<M, F: Fn(&SystemStateData) -> Option<M>> SystemState<M, F> {
    /// The current snapshot.
    pub closed spec fn data_spec(self) -> SystemStateData {
        self.data
    }

    /// The subscribers' mappers, in the order they subscribed.
    pub closed spec fn subscribers_spec(self) -> Seq<F> {
        self.subscribers@
    }

    /// The snapshot is well formed and every mapper accepts every snapshot.
    pub open spec fn wf(self) -> bool {
        &&& self.data_spec().wf()
        &&& forall|i: int, d: &SystemStateData|
            0 <= i < self.subscribers_spec().len() ==> #[trigger] self.subscribers_spec()[i].requires(
                (d,),
            )
    }

    /// `after` holds `data`, keeps the subscribers of `before`, and `out` holds, in
    /// subscription order, what each subscriber's mapper returned for `data`.
    pub open spec fn written(self, data: SystemStateData, after: Self, out: Seq<Option<M>>) -> bool {
        &&& after.data_spec() == data
        &&& after.subscribers_spec() == self.subscribers_spec()
        &&& out.len() == self.subscribers_spec().len()
        &&& forall|i: int|
            0 <= i < out.len() ==> (#[trigger] self.subscribers_spec()[i]).ensures((&data,), out[i])
    }

    /// A store whose first snapshot is `data`, with no subscribers.
    pub fn new(data: SystemStateData) -> (r: Self)
        requires
            data.wf(),
        ensures
            r.wf(),
            r.data_spec() == data,
            r.subscribers_spec().len() == 0,
    {
        SystemState { data, subscribers: Vec::new() }
    }

    /// The current snapshot, as the last write left it.
    pub fn get_data(&self) -> (r: &SystemStateData)
        ensures
            *r == self.data_spec(),
    {
        &self.data
    }

    /// Adds a subscriber; returns its position among the subscribers.
    pub fn subscribe(&mut self, mapper: F) -> (r: usize)
        requires
            old(self).wf(),
            forall|d: &SystemStateData| mapper.requires((d,)),
        ensures
            final(self).wf(),
            final(self).data_spec() == old(self).data_spec(),
            final(self).subscribers_spec() == old(self).subscribers_spec().push(mapper),
            r == old(self).subscribers_spec().len(),
    {
        let r = self.subscribers.len();
        self.subscribers.push(mapper);
        proof {
            assert forall|i: int, d: &SystemStateData|
                0 <= i < self.subscribers_spec().len() implies #[trigger] self.subscribers_spec()[i].requires(
                (d,),
            ) by {
                if i < r {
                    assert(old(self).subscribers_spec()[i] == self.subscribers_spec()[i]);
                }
            }
        }
        r
    }

    /// Replaces the snapshot whole and calls each subscriber's mapper once on the
    /// new one, in subscription order; returns what each mapper returned.
    pub fn write(&mut self, data: SystemStateData) -> (r: Vec<Option<M>>)
        requires
            old(self).wf(),
            data.wf(),
        ensures
            final(self).wf(),
            old(self).written(data, *final(self), r@),
    {
        self.data = data;
        assert(self.subscribers_spec() == old(self).subscribers_spec());
        let mut out: Vec<Option<M>> = Vec::new();
        let mut k: usize = 0;
        while k < self.subscribers.len()
            invariant
                self.wf(),
                self.data_spec() == data,
                self.subscribers_spec() == old(self).subscribers_spec(),
                k <= self.subscribers@.len(),
                out@.len() == k,
                forall|i: int|
                    0 <= i < k ==> (#[trigger] self.subscribers_spec()[i]).ensures((&data,), out@[i]),
            decreases self.subscribers@.len() - k,
        {
            let m = (self.subscribers[k])(&self.data);
            out.push(m);
            k = k + 1;
        }
        out
    }

    /// Runs one cycle's merge on `raw`, publishes the result, and returns the
    /// collectors that failed and what each subscriber's mapper returned.
    pub fn update(&mut self, raw: RawReadings) -> (r: (Vec<Collector>, Vec<Option<M>>))
        requires
            old(self).wf(),
            raw.cpu_usage.wf(),
            raw.network matches Ok(c) ==> c.wf(),
        ensures
            final(self).wf(),
            final(self).data_spec().model() == assembled(raw),
            r.0@ == failed_collectors(raw),
            old(self).written(final(self).data_spec(), *final(self), r.1@),
    {
        let (data, failed) = assemble(raw);
        let out = self.write(data);
        (failed, out)
    }
}

/// After a write of `data`, reading gives `data` back, for as long as no other
/// write comes, whatever subscribers join in between; each subscriber that was
/// there at the write got exactly one call of its mapper, on `data`.
pub proof fn lemma_read_after_write<M, F: Fn(&SystemStateData) -> Option<M>>(
    before: SystemState<M, F>,
    data: SystemStateData,
    states: Seq<SystemState<M, F>>,
    joined: Seq<F>,
    out: Seq<Option<M>>,
)
    requires
        states.len() == joined.len() + 1,
        before.written(data, states[0], out),
        forall|i: int|
            0 <= i < joined.len() ==> (#[trigger] states[i + 1]).data_spec() == states[i].data_spec()
                && states[i + 1].subscribers_spec() == states[i].subscribers_spec().push(joined[i]),
    ensures
        forall|i: int| 0 <= i < states.len() ==> (#[trigger] states[i]).data_spec() == data,
        out.len() == before.subscribers_spec().len(),
        forall|i: int|
            0 <= i < out.len() ==> (#[trigger] before.subscribers_spec()[i]).ensures((&data,), out[i]),
{
    assert forall|i: int| 0 <= i < states.len() implies (#[trigger] states[i]).data_spec() == data by {
        lemma_data_kept(data, states, joined, i);
    }
}

proof fn lemma_data_kept<M, F: Fn(&SystemStateData) -> Option<M>>(
    data: SystemStateData,
    states: Seq<SystemState<M, F>>,
    joined: Seq<F>,
    i: int,
)
    requires
        states.len() == joined.len() + 1,
        states[0].data_spec() == data,
        0 <= i < states.len(),
        forall|j: int|
            0 <= j < joined.len() ==> (#[trigger] states[j + 1]).data_spec() == states[j].data_spec()
                && states[j + 1].subscribers_spec() == states[j].subscribers_spec().push(joined[j]),
    ensures
        states[i].data_spec() == data,
    decreases i,
{
    if i > 0 {
        lemma_data_kept(data, states, joined, i - 1);
        assert(states[(i - 1) + 1].data_spec() == states[i - 1].data_spec());
    }
}

} // verus!
