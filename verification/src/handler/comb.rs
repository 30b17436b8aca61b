use vstd::prelude::*;

use crate::action::Action;
use crate::event::Event;
use crate::performer::{perform_all, Performer, PerfSt};
use crate::state::State;

verus! {

/// A one-key combo: at the press edge of its key, with a sequence bound for
/// the key's captured layer, it fires every action of the sequence in order
/// within the same tick. Whenever the combo sees its slot still unclaimed it
/// claims it, so the slot's ordinary binding never runs while a combo owns
/// the key.
pub struct Comb {
    pub id: usize,
    pub actions: Vec<Option<Vec<Action>>>,
}

impl Comb {
    pub fn new(id: usize, actions: Vec<Option<Vec<Action>>>) -> (c: Comb)
        ensures
            c == (Comb { id, actions }),
    {
        Comb { id, actions }
    }

    /// What the tick loop guarantees a combo: the slot id names a real slot
    /// and its captured layer indexes the per-layer table.
    pub open spec fn req(self, states: Seq<State>) -> bool {
        &&& self.id < states.len()
        &&& states[self.id as int].2 < self.actions@.len()
    }

    /// One tick of the combo: if the slot is still unclaimed, fire the bound
    /// sequence on a press edge and claim the slot either way.
    pub open spec fn step(self, states: Seq<State>, perf: PerfSt) -> (Seq<State>, PerfSt) {
        let s = states[self.id as int];
        if s.0 {
            let perf2 = if s.1 is Press && self.actions@[s.2 as int] is Some {
                perform_all(perf, self.id, self.actions@[s.2 as int]->Some_0@)
            } else {
                perf
            };
            (states.update(self.id as int, State(false, s.1, s.2)), perf2)
        } else {
            (states, perf)
        }
    }

    /// Run the combo for this tick over the slot table, firing into the
    /// performer.
    pub fn handle(&self, states: &mut Vec<State>, performer: &mut Performer)
        requires
            self.req(old(states)@),
        ensures
            ({
                let (s, p) = self.step(old(states)@, old(performer).model());
                &&& final(states)@ == s
                &&& final(performer).model() == p
            }),
    {
        let s = states[self.id];
        if s.0 {
            if let Event::Press(_) = s.1 {
                if let Some(actions) = &self.actions[s.2] {
                    let n = actions.len();
                    let mut j: usize = 0;
                    while j < n
                        invariant
                            j <= n,
                            n == actions@.len(),
                            performer.model() == perform_all(
                                old(performer).model(),
                                self.id,
                                actions@.take(j as int),
                            ),
                        decreases n - j,
                    {
                        let a = actions[j];
                        performer.perform(self.id, &a);
                        j = j + 1;
                        proof {
                            assert(actions@.take(j as int).drop_last() =~= actions@.take(
                                j as int - 1,
                            ));
                            assert(actions@.take(j as int).last() == actions@[j as int - 1]);
                        }
                    }
                    proof {
                        assert(actions@.take(n as int) =~= actions@);
                    }
                }
            }
            states[self.id].disable();
        }
    }
}

} // verus!
