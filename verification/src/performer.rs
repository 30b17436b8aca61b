use vstd::prelude::*;

use crate::action::{Action, Layer};
use crate::layers::layer_transition;
use crate::report::Report;

verus! {

/// Capacity of the outgoing report queue.
pub const QUEUE_CAP: usize = 128;

#[verifier::external_type_specification]
#[verifier::external_body]
#[verifier::reject_recursive_types(T)]
pub struct ExHeaplessVec<T, const N: usize>(heapless::Vec<T, N>);

/// The reports a queue holds, oldest first.
pub uninterp spec fn queue_model(q: heapless::Vec<Report, QUEUE_CAP>) -> Seq<Report>;

/// Relies on heapless::Vec::new: a freshly constructed vector is empty.
#[verifier::external_body]
fn queue_new() -> (q: heapless::Vec<Report, QUEUE_CAP>)
    ensures
        queue_model(q) == Seq::<Report>::empty(),
{
    heapless::Vec::new()
}

/// Relies on heapless::Vec::push: appends the item at the back when the
/// vector holds fewer elements than its capacity, and otherwise hands the
/// item back as an error and leaves the contents unchanged.
#[verifier::external_body]
fn queue_push(q: &mut heapless::Vec<Report, QUEUE_CAP>, r: Report) -> (ok: bool)
    ensures
        queue_model(*old(q)).len() < QUEUE_CAP ==> ok && queue_model(*final(q)) == queue_model(
            *old(q),
        ).push(r),
        queue_model(*old(q)).len() >= QUEUE_CAP ==> !ok && queue_model(*final(q)) == queue_model(
            *old(q),
        ),
{
    q.push(r).is_ok()
}

/// Relies on heapless::Vec::clear: removes every element.
#[verifier::external_body]
fn queue_clear(q: &mut heapless::Vec<Report, QUEUE_CAP>)
    ensures
        queue_model(*final(q)) == Seq::<Report>::empty(),
{
    q.clear()
}

/// Relies on heapless::Vec::len: the number of elements held.
#[verifier::external_body]
fn queue_len(q: &heapless::Vec<Report, QUEUE_CAP>) -> (n: usize)
    ensures
        n == queue_model(*q).len(),
{
    q.len()
}

/// Relies on heapless::Vec::as_slice: the elements in insertion order, so
/// indexing the slice yields the i-th oldest element.
#[verifier::external_body]
fn queue_get(q: &heapless::Vec<Report, QUEUE_CAP>, i: usize) -> (r: Report)
    requires
        i < queue_model(*q).len(),
    ensures
        r == queue_model(*q)[i as int],
{
    q.as_slice()[i]
}

/// The observable state of a performer, for specifications: the layer state
/// triple, the number of configured layers, and the queued reports in order.
pub struct PerfSt {
    pub current: usize,
    pub default: usize,
    pub modifier: usize,
    pub nlayers: usize,
    pub reports: Seq<Report>,
}

/// One effect applied to a performer: a report is appended to the queue
/// (dropped if the queue is full), a layer effect steps the layer state
/// machine on behalf of key `id` and leaves the queue alone.
pub open spec fn perform_spec(st: PerfSt, id: usize, a: Action) -> PerfSt {
    match a {
        Action::Report(r) => PerfSt {
            current: st.current,
            default: st.default,
            modifier: st.modifier,
            nlayers: st.nlayers,
            reports: if st.reports.len() < QUEUE_CAP {
                st.reports.push(r)
            } else {
                st.reports
            },
        },
        Action::Layer(la) => {
            let t = layer_transition(st.current, st.default, st.modifier, st.nlayers, id, la);
            PerfSt {
                current: t.0,
                default: t.1,
                modifier: t.2,
                nlayers: st.nlayers,
                reports: st.reports,
            }
        },
    }
}

/// A whole sequence of effects applied in order on behalf of one key.
pub open spec fn perform_all(st: PerfSt, id: usize, actions: Seq<Action>) -> PerfSt
    decreases actions.len(),
{
    if actions.len() == 0 {
        st
    } else {
        perform_spec(perform_all(st, id, actions.drop_last()), id, actions.last())
    }
}

/// One effect never changes the layer count, and keeps the active and
/// fallback layers in range whenever they were.
pub proof fn lemma_perform_spec_bounds(st: PerfSt, id: usize, a: Action)
    ensures
        perform_spec(st, id, a).nlayers == st.nlayers,
        st.current < st.nlayers && st.default < st.nlayers ==> perform_spec(st, id, a).current
            < st.nlayers && perform_spec(st, id, a).default < st.nlayers,
{
}

/// As `lemma_perform_spec_bounds`, for a whole sequence of effects.
pub proof fn lemma_perform_all_bounds(st: PerfSt, id: usize, actions: Seq<Action>)
    ensures
        perform_all(st, id, actions).nlayers == st.nlayers,
        st.current < st.nlayers && st.default < st.nlayers ==> perform_all(
            st,
            id,
            actions,
        ).current < st.nlayers && perform_all(st, id, actions).default < st.nlayers,
    decreases actions.len(),
{
    if actions.len() > 0 {
        lemma_perform_all_bounds(st, id, actions.drop_last());
        lemma_perform_spec_bounds(perform_all(st, id, actions.drop_last()), id, actions.last());
    }
}

/// The effect sequencer: owns the layer state machine and the bounded,
/// insertion-ordered queue of outgoing reports. Every effect a tick resolves
/// is applied here, one by one, so a later effect in the same tick observes
/// the layer state an earlier one left behind.
pub struct Performer {
    current_layer: usize,
    default_layer: usize,
    modifier: usize,
    nlayers: usize,
    reports: heapless::Vec<Report, QUEUE_CAP>,
}

impl Performer {
    /// The performer's state as specifications see it.
    pub closed spec fn model(self) -> PerfSt {
        PerfSt {
            current: self.current_layer,
            default: self.default_layer,
            modifier: self.modifier,
            nlayers: self.nlayers,
            reports: queue_model(self.reports),
        }
    }

    pub fn new(nlayers: usize) -> (p: Performer)
        ensures
            p.model() == (PerfSt {
                current: 0usize,
                default: 0usize,
                modifier: 0usize,
                nlayers,
                reports: Seq::<Report>::empty(),
            }),
    {
        Performer {
            current_layer: 0,
            default_layer: 0,
            modifier: 0,
            nlayers,
            reports: queue_new(),
        }
    }

    /// Apply one effect on behalf of key `id`.
    pub fn perform(&mut self, id: usize, action: &Action)
        ensures
            final(self).model() == perform_spec(old(self).model(), id, *action),
    {
        match action {
            Action::Report(report) => {
                queue_push(&mut self.reports, *report);
            }
            Action::Layer(layer) => {
                let nlayers = self.nlayers;
                match *layer {
                    Layer::Current(l) => {
                        if l < nlayers {
                            self.current_layer = l;
                            self.modifier = id;
                        }
                    }
                    Layer::Default(l) => {
                        if l < nlayers {
                            self.current_layer = l;
                            self.default_layer = l;
                            self.modifier = id;
                        }
                    }
                    Layer::Undo(l) => {
                        if self.modifier == id && self.current_layer == l {
                            self.current_layer = self.default_layer;
                        }
                    }
                }
            }
        }
    }

    pub fn current_layer(&self) -> (l: usize)
        ensures
            l == self.model().current,
    {
        self.current_layer
    }

    /// Empty the report queue; the layer state is untouched. Run at the start
    /// of every tick.
    pub fn clear(&mut self)
        ensures
            final(self).model() == (PerfSt {
                current: old(self).model().current,
                default: old(self).model().default,
                modifier: old(self).model().modifier,
                nlayers: old(self).model().nlayers,
                reports: Seq::<Report>::empty(),
            }),
    {
        queue_clear(&mut self.reports);
    }

    /// The queued reports, oldest first.
    pub fn reports(&self) -> (v: Vec<Report>)
        ensures
            v@ == self.model().reports,
    {
        let n = queue_len(&self.reports);
        let mut v: Vec<Report> = Vec::new();
        let mut i: usize = 0;
        while i < n
            invariant
                i <= n,
                n == queue_model(self.reports).len(),
                v@ == queue_model(self.reports).take(i as int),
            decreases n - i,
        {
            let r = queue_get(&self.reports, i);
            v.push(r);
            i = i + 1;
            proof {
                assert(v@ == queue_model(self.reports).take(i as int));
            }
        }
        proof {
            assert(queue_model(self.reports).take(n as int) == queue_model(self.reports));
        }
        v
    }
}

} // verus!
