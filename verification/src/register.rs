use vstd::prelude::*;

use crate::action::Action;
use crate::performer::{perform_spec, Performer, PerfSt};
use crate::report::Report;

verus! {

/// A standalone effect register: the same layer state machine and report
/// queue as `Performer`, under the register-style interface — `register` an
/// effect during the tick, `tick` to read the queued reports out afterwards,
/// `clear` before the next round.
pub struct Register {
    performer: Performer,
}

impl Register {
    /// The register's state as specifications see it.
    pub closed spec fn model(self) -> PerfSt {
        self.performer.model()
    }

    pub fn new(nlayers: usize) -> (r: Register)
        ensures
            r.model() == (PerfSt {
                current: 0usize,
                default: 0usize,
                modifier: 0usize,
                nlayers,
                reports: Seq::<Report>::empty(),
            }),
    {
        Register { performer: Performer::new(nlayers) }
    }

    /// Apply one effect on behalf of key `id`.
    pub fn register(&mut self, id: usize, action: &Action)
        ensures
            final(self).model() == perform_spec(old(self).model(), id, *action),
    {
        self.performer.perform(id, action);
    }

    /// Empty the report queue; the layer state is untouched.
    pub fn clear(&mut self)
        ensures
            final(self).model() == (PerfSt {
                current: old(self).model().current,
                default: old(self).model().default,
                modifier: old(self).model().modifier,
                nlayers: old(self).model().nlayers,
                reports: Seq::<Report>::empty(),
            }),
    {
        self.performer.clear();
    }

    /// The reports registered since the last `clear`, oldest first.
    pub fn tick(&self) -> (v: Vec<Report>)
        ensures
            v@ == self.model().reports,
    {
        self.performer.reports()
    }

    pub fn current_layer(&self) -> (l: usize)
        ensures
            l == self.model().current,
    {
        self.performer.current_layer()
    }
}

} // verus!
