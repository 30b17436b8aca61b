use vstd::prelude::*;

use crate::action::Action;
use crate::event::Event;
use crate::performer::{perform_spec, Performer, PerfSt};
use crate::state::State;

verus! {

/// A two-key chord: while armed, a tick on which both of its keys are held on
/// the same captured layer fires the single action bound for that layer,
/// claims both slots, and trips the handler; while tripped it keeps claiming
/// both slots — suppressing their individual bindings — until both keys are
/// free again, which re-arms it. Layer effects fired by the chord are owned
/// by the first slot id.
pub struct Chord {
    pub triggered: bool,
    pub ids: (usize, usize),
    pub actions: Vec<Option<Action>>,
}

impl Chord {
    pub fn new(ids: (usize, usize), actions: Vec<Option<Action>>) -> (c: Chord)
        ensures
            c == (Chord { triggered: false, ids, actions }),
    {
        Chord { triggered: false, ids, actions }
    }

    /// What the tick loop guarantees a chord: both slot ids name a real slot
    /// and the captured layer of the first indexes the per-layer table.
    pub open spec fn req(self, states: Seq<State>) -> bool {
        &&& self.ids.0 < states.len()
        &&& self.ids.1 < states.len()
        &&& states[self.ids.0 as int].2 < self.actions@.len()
    }

    /// One tick of the chord protocol. If either slot is already claimed, or
    /// the two slots were pressed on different layers, the chord is a no-op
    /// this tick. Otherwise an armed chord fires and trips when both keys are
    /// held and the active layer binds an action; a tripped chord claims both
    /// slots every tick and re-arms once both keys are free.
    pub open spec fn step(self, states: Seq<State>, perf: PerfSt) -> (bool, Seq<State>, PerfSt) {
        let id0 = self.ids.0 as int;
        let id1 = self.ids.1 as int;
        let s0 = states[id0];
        let s1 = states[id1];
        if s0.0 && s1.0 && s0.2 == s1.2 {
            if !self.triggered {
                if s0.1.is_held() && s1.1.is_held() && self.actions@[s0.2 as int] is Some {
                    (
                        true,
                        states.update(id0, State(false, s0.1, s0.2)).update(
                            id1,
                            State(false, s1.1, s1.2),
                        ),
                        perform_spec(perf, self.ids.0, self.actions@[s0.2 as int]->Some_0),
                    )
                } else {
                    (false, states, perf)
                }
            } else {
                (
                    !(s0.1.is_free() && s1.1.is_free()),
                    states.update(id0, State(false, s0.1, s0.2)).update(
                        id1,
                        State(false, s1.1, s1.2),
                    ),
                    perf,
                )
            }
        } else {
            (self.triggered, states, perf)
        }
    }

    /// Both slots are unclaimed and were pressed on the same layer, so the
    /// chord gets to look at this tick at all.
    pub open spec fn pair_ready(self, states: Seq<State>) -> bool {
        &&& states[self.ids.0 as int].0
        &&& states[self.ids.1 as int].0
        &&& states[self.ids.0 as int].2 == states[self.ids.1 as int].2
    }

    /// A tick on which an armed chord fires: both keys held, and the active
    /// layer binds an action.
    pub open spec fn fire_tick(self, states: Seq<State>) -> bool {
        &&& self.pair_ready(states)
        &&& states[self.ids.0 as int].1.is_held()
        &&& states[self.ids.1 as int].1.is_held()
        &&& self.actions@[states[self.ids.0 as int].2 as int] is Some
    }

    /// A tick on which a tripped chord re-arms: both keys free again.
    pub open spec fn rearm_tick(self, states: Seq<State>) -> bool {
        &&& self.pair_ready(states)
        &&& states[self.ids.0 as int].1.is_free()
        &&& states[self.ids.1 as int].1.is_free()
    }

    /// Run the chord for this tick over the slot table, firing into the
    /// performer.
    pub fn handle(&mut self, states: &mut Vec<State>, performer: &mut Performer)
        requires
            old(self).req(old(states)@),
        ensures
            final(self).ids == old(self).ids,
            final(self).actions == old(self).actions,
            ({
                let (t, s, p) = old(self).step(old(states)@, old(performer).model());
                &&& final(self).triggered == t
                &&& final(states)@ == s
                &&& final(performer).model() == p
            }),
    {
        let (id0, id1) = self.ids;
        let s0 = states[id0];
        let s1 = states[id1];
        if s0.0 && s1.0 && s0.2 == s1.2 {
            if !self.triggered {
                let both_held = (matches!(s0.1, Event::Press(_) | Event::Pressed(_)))
                    && (matches!(s1.1, Event::Press(_) | Event::Pressed(_)));
                if both_held {
                    if let Some(action) = self.actions[s0.2] {
                        self.triggered = true;
                        states[id0].disable();
                        states[id1].disable();
                        performer.perform(id0, &action);
                    }
                }
            } else {
                states[id0].disable();
                states[id1].disable();
                let both_free = (matches!(s0.1, Event::Release(_) | Event::Released(_)))
                    && (matches!(s1.1, Event::Release(_) | Event::Released(_)));
                if both_free {
                    self.triggered = false;
                }
            }
        }
    }
}

/// The same chord with its trip flag set as given.
pub open spec fn chord_with(c: Chord, t: bool) -> Chord {
    Chord { triggered: t, ids: c.ids, actions: c.actions }
}

/// The chord's trip flag and the performer after a run of ticks, each tick
/// seeing the slot table the keymap presents it that tick.
pub open spec fn chord_run(c: Chord, tables: Seq<Seq<State>>, perf: PerfSt) -> (bool, PerfSt)
    decreases tables.len(),
{
    if tables.len() == 0 {
        (c.triggered, perf)
    } else {
        let first = c.step(tables[0], perf);
        chord_run(chord_with(c, first.0), tables.skip(1), first.2)
    }
}

/// A run splits at any point: the tail continues from where the head left
/// the trip flag and the performer.
pub proof fn lemma_chord_run_concat(c: Chord, a: Seq<Seq<State>>, b: Seq<Seq<State>>, perf: PerfSt)
    ensures
        chord_run(c, a + b, perf) == chord_run(
            chord_with(c, chord_run(c, a, perf).0),
            b,
            chord_run(c, a, perf).1,
        ),
    decreases a.len(),
{
    if a.len() == 0 {
        assert(a + b =~= b);
        assert(chord_with(c, c.triggered) == c);
    } else {
        let first = c.step(a[0], perf);
        assert((a + b)[0] == a[0]);
        assert((a + b).skip(1) =~= a.skip(1) + b);
        lemma_chord_run_concat(chord_with(c, first.0), a.skip(1), b, first.2);
    }
}

/// While tripped, a chord only suppresses: over any run of ticks none of
/// which re-arms it, the trip flag stays set and the performer sees nothing
/// at all from this chord.
pub proof fn lemma_chord_suppression(c: Chord, tables: Seq<Seq<State>>, perf: PerfSt)
    requires
        c.triggered,
        forall|t: int| 0 <= t < tables.len() ==> !c.rearm_tick(#[trigger] tables[t]),
    ensures
        chord_run(c, tables, perf) == (true, perf),
    decreases tables.len(),
{
    if tables.len() > 0 {
        let first = c.step(tables[0], perf);
        assert(!c.rearm_tick(tables[0]));
        assert(first.0 && first.2 == perf);
        assert(chord_with(c, true) == c);
        lemma_chord_suppression(c, tables.skip(1), perf);
    }
}

/// Law: the chord arm/disarm cycle. From an armed chord, a tick on which
/// both keys are held together fires the bound action exactly once and trips
/// the chord; any number of following ticks on which the keys have not both
/// come free add nothing further to the performer; and the first tick with
/// both keys free re-arms the chord, still adding nothing. Over the whole
/// cycle the performer sees exactly one action.
pub proof fn lemma_chord_cycle(
    c: Chord,
    fire_tbl: Seq<State>,
    mids: Seq<Seq<State>>,
    rel_tbl: Seq<State>,
    perf: PerfSt,
)
    requires
        !c.triggered,
        c.fire_tick(fire_tbl),
        forall|t: int| 0 <= t < mids.len() ==> !c.rearm_tick(#[trigger] mids[t]),
        c.rearm_tick(rel_tbl),
    ensures
        chord_run(c, seq![fire_tbl] + mids + seq![rel_tbl], perf) == (
            false,
            perform_spec(
                perf,
                c.ids.0,
                c.actions@[fire_tbl[c.ids.0 as int].2 as int]->Some_0,
            ),
        ),
{
    let all = seq![fire_tbl] + mids + seq![rel_tbl];
    let first = c.step(fire_tbl, perf);
    let perf2 = perform_spec(perf, c.ids.0, c.actions@[fire_tbl[c.ids.0 as int].2 as int]->Some_0);
    assert(first.0 == true && first.2 == perf2);
    assert(all[0] == fire_tbl);
    assert(all.skip(1) =~= mids + seq![rel_tbl]);
    let tripped = chord_with(c, true);
    assert(chord_run(c, all, perf) == chord_run(tripped, mids + seq![rel_tbl], perf2));
    assert forall|t: int| 0 <= t < mids.len() implies !tripped.rearm_tick(#[trigger] mids[t]) by {
        assert(!c.rearm_tick(mids[t]));
    }
    lemma_chord_suppression(tripped, mids, perf2);
    lemma_chord_run_concat(tripped, mids, seq![rel_tbl], perf2);
    let last = tripped.step(rel_tbl, perf2);
    assert(last.0 == false && last.2 == perf2);
    assert(seq![rel_tbl][0] == rel_tbl);
    assert(seq![rel_tbl].skip(1) =~= Seq::<Seq<State>>::empty());
    assert(chord_run(chord_with(tripped, false), seq![rel_tbl].skip(1), perf2) == (false, perf2));
    assert(chord_run(tripped, seq![rel_tbl], perf2) == (false, perf2));
}

} // verus!
