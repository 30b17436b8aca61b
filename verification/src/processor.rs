use vstd::prelude::*;

use crate::action::{gate, gate_spec, Action, KeyAction};
use crate::handler::chord::Chord;
use crate::handler::comb::Comb;
use crate::performer::{
    lemma_perform_all_bounds, lemma_perform_spec_bounds, perform_spec, Performer, PerfSt,
};
use crate::report::Report;
use crate::state::State;

verus! {

/// A processing pass run once per tick over the whole slot table: it may
/// claim slots and fire effects into the performer. Every implementor gives
/// its pass as a spec step function over `(own state, slots, performer)`, and
/// its executable `process` is proved to perform exactly that step.
pub trait Process: Sized {
    /// What the tick loop must guarantee before running this pass.
    spec fn process_req(&self, states: Seq<State>) -> bool;

    /// The pass as a pure step: new own state, new slot table, new performer.
    spec fn process_step(&self, states: Seq<State>, perf: PerfSt) -> (Self, Seq<State>, PerfSt);

    fn process(&mut self, states: &mut Vec<State>, performer: &mut Performer)
        requires
            old(self).process_req(old(states)@),
        ensures
            ({
                let (h, s, p) = old(self).process_step(old(states)@, old(performer).model());
                &&& *final(self) == h
                &&& final(states)@ == s
                &&& final(performer).model() == p
            }),
    ;
}

/// One registered chord or combo handler. The tick loop runs these in
/// registration order, before ordinary per-key resolution.
pub enum Processor {
    Chord(Chord),
    Comb(Comb),
}

impl Process for Processor {
    open spec fn process_req(&self, states: Seq<State>) -> bool {
        match *self {
            Processor::Chord(c) => c.req(states),
            Processor::Comb(c) => c.req(states),
        }
    }

    open spec fn process_step(&self, states: Seq<State>, perf: PerfSt) -> (
        Processor,
        Seq<State>,
        PerfSt,
    ) {
        match *self {
            Processor::Chord(c) => {
                let (t, s, p) = c.step(states, perf);
                (
                    Processor::Chord(Chord { triggered: t, ids: c.ids, actions: c.actions }),
                    s,
                    p,
                )
            },
            Processor::Comb(c) => {
                let (s, p) = c.step(states, perf);
                (Processor::Comb(c), s, p)
            },
        }
    }

    fn process(&mut self, states: &mut Vec<State>, performer: &mut Performer) {
        match self {
            Processor::Chord(c) => c.handle(states, performer),
            Processor::Comb(c) => c.handle(states, performer),
        }
    }
}

/// The two processors have the same configuration: they differ at most in
/// the chord's trip flag. A pass never changes its own configuration.
pub open spec fn same_config(a: Processor, b: Processor) -> bool {
    match (a, b) {
        (Processor::Chord(x), Processor::Chord(y)) => x.ids == y.ids && x.actions == y.actions,
        (Processor::Comb(x), Processor::Comb(y)) => x == y,
        _ => false,
    }
}

/// A processor pass keeps its own configuration, the slot count, every
/// slot's event and captured layer, the layer count, and layer-state bounds;
/// and its precondition carries over between slot tables that agree on count
/// and captured layers.
pub proof fn lemma_process_step_preserves(p: Processor, states: Seq<State>, perf: PerfSt)
    requires
        p.process_req(states),
    ensures
        ({
            let (p2, s2, f2) = p.process_step(states, perf);
            &&& same_config(p2, p)
            &&& s2.len() == states.len()
            &&& forall|i: int|
                0 <= i < states.len() ==> (#[trigger] s2[i]).1 == states[i].1 && s2[i].2
                    == states[i].2
            &&& f2.nlayers == perf.nlayers
            &&& (perf.current < perf.nlayers && perf.default < perf.nlayers ==> f2.current
                < f2.nlayers && f2.default < f2.nlayers)
        }),
{
    match p {
        Processor::Chord(c) => {
            let (t, s, f) = c.step(states, perf);
            if f != perf {
                lemma_perform_spec_bounds(perf, c.ids.0, c.actions@[states[c.ids.0 as int].2 as int]->Some_0);
            }
        },
        Processor::Comb(c) => {
            let (s, f) = c.step(states, perf);
            if f != perf {
                lemma_perform_all_bounds(perf, c.id, c.actions@[states[c.id as int].2 as int]->Some_0@);
            }
        },
    }
}

/// A processor's precondition depends only on its configuration, the slot
/// count and the captured layers, so it transfers between passes.
pub proof fn lemma_process_req_transfer(
    p1: Processor,
    p2: Processor,
    s1: Seq<State>,
    s2: Seq<State>,
)
    requires
        same_config(p1, p2),
        p2.process_req(s2),
        s1.len() == s2.len(),
        forall|i: int| 0 <= i < s1.len() ==> (#[trigger] s1[i]).2 == s2[i].2,
    ensures
        p1.process_req(s1),
{
}

/// The ordinary per-key resolver: the grid of bindings, one row per layer.
/// After the chord/combo passes have claimed their slots, each slot still
/// enabled resolves the binding of its captured layer against its event,
/// edge-gates the result, and applies it via the performer — in slot-index
/// order.
pub struct KeyProcessor {
    pub keys: Vec<Vec<KeyAction>>,
}

impl KeyProcessor {
    pub fn new(keys: Vec<Vec<KeyAction>>) -> (k: KeyProcessor)
        ensures
            k == (KeyProcessor { keys }),
    {
        KeyProcessor { keys }
    }

    /// The effect one slot contributes: nothing if the slot was claimed,
    /// otherwise its gated resolved action, applied on behalf of the slot.
    pub open spec fn resolve_one(self, s: State, i: usize, perf: PerfSt) -> PerfSt {
        if s.0 {
            match self.keys@[s.2 as int]@[i as int].act_spec(s.1) {
                Some(a) => match gate_spec(s.1, a) {
                    Some(g) => perform_spec(perf, i, g),
                    None => perf,
                },
                None => perf,
            }
        } else {
            perf
        }
    }

    /// The first `k` slots resolved in index order.
    pub open spec fn resolve_to(self, states: Seq<State>, k: int, perf: PerfSt) -> PerfSt
        decreases k,
    {
        if k <= 0 {
            perf
        } else {
            self.resolve_one(states[k - 1], (k - 1) as usize, self.resolve_to(states, k - 1, perf))
        }
    }
}

impl Process for KeyProcessor {
    open spec fn process_req(&self, states: Seq<State>) -> bool {
        forall|i: int|
            0 <= i < states.len() ==> (#[trigger] states[i]).2 < self.keys@.len()
                && self.keys@[states[i].2 as int]@.len() == states.len()
    }

    open spec fn process_step(&self, states: Seq<State>, perf: PerfSt) -> (
        KeyProcessor,
        Seq<State>,
        PerfSt,
    ) {
        (*self, states, self.resolve_to(states, states.len() as int, perf))
    }

    fn process(&mut self, states: &mut Vec<State>, performer: &mut Performer) {
        let n = states.len();
        let mut i: usize = 0;
        while i < n
            invariant
                i <= n,
                n == states@.len(),
                *self == *old(self),
                states@ == old(states)@,
                self.process_req(states@),
                performer.model() == self.resolve_to(states@, i as int, old(performer).model()),
            decreases n - i,
        {
            let s = states[i];
            if s.0 {
                let binding = &self.keys[s.2][i];
                if let Some(a) = binding.act(&s.1) {
                    if let Some(g) = gate(&s.1, a) {
                        performer.perform(i, &g);
                    }
                }
            }
            i = i + 1;
        }
    }
}

/// Resolution only ever appends to the report queue, and it walks the slots
/// in index order, so the reports of a lower-numbered slot stand earlier in
/// the queue.
pub proof fn lemma_resolve_preserves_layers(kp: KeyProcessor, states: Seq<State>, k: int, perf: PerfSt)
    ensures
        ({
            let f = kp.resolve_to(states, k, perf);
            &&& f.nlayers == perf.nlayers
            &&& (perf.current < perf.nlayers && perf.default < perf.nlayers ==> f.current
                < f.nlayers && f.default < f.nlayers)
        }),
    decreases k,
{
    if k > 0 {
        lemma_resolve_preserves_layers(kp, states, k - 1, perf);
        let mid = kp.resolve_to(states, k - 1, perf);
        let s = states[k - 1];
        if s.0 {
            match kp.resolve_one(s, (k - 1) as usize, mid) {
                _ => {
                    if kp.keys@[s.2 as int]@[k - 1].act_spec(s.1) is Some {
                        let a = kp.keys@[s.2 as int]@[k - 1].act_spec(s.1)->Some_0;
                        if gate_spec(s.1, a) is Some {
                            lemma_perform_spec_bounds(mid, (k - 1) as usize, gate_spec(s.1, a)->Some_0);
                        }
                    }
                },
            }
        }
    }
}

/// The report one slot contributes to the queue under ordinary resolution:
/// its gated resolved action when that is a report, and nothing when the
/// slot is claimed, resolves to nothing, or fires a layer effect.
pub open spec fn slot_report(kp: KeyProcessor, s: State, i: usize) -> Seq<Report> {
    if s.0 {
        match kp.keys@[s.2 as int]@[i as int].act_spec(s.1) {
            Some(a) => match gate_spec(s.1, a) {
                Some(g) => match g {
                    Action::Report(r) => seq![r],
                    Action::Layer(_) => Seq::empty(),
                },
                None => Seq::empty(),
            },
            None => Seq::empty(),
        }
    } else {
        Seq::empty()
    }
}

/// The reports of the first `k` slots, in slot-index order.
pub open spec fn slot_reports_to(kp: KeyProcessor, states: Seq<State>, k: int) -> Seq<Report>
    decreases k,
{
    if k <= 0 {
        Seq::<Report>::empty()
    } else {
        slot_reports_to(kp, states, k - 1) + slot_report(kp, states[k - 1], (k - 1) as usize)
    }
}

/// Law: report ordering, in full. As long as the queue does not fill up,
/// ordinary resolution appends to it exactly the reports of the enabled
/// slots, in slot-index order — the order of the keys in the layer, not the
/// order in which the presses happened to arrive — whatever mixture of
/// claimed slots, silent bindings and layer effects stands in between.
pub proof fn lemma_resolution_reports_in_slot_order(
    kp: KeyProcessor,
    states: Seq<State>,
    k: int,
    perf: PerfSt,
)
    requires
        states.len() <= usize::MAX,
        0 <= k <= states.len(),
        perf.reports.len() + slot_reports_to(kp, states, k).len() <= 128,
    ensures
        kp.resolve_to(states, k, perf).reports == perf.reports + slot_reports_to(kp, states, k),
    decreases k,
{
    if k <= 0 {
        assert(perf.reports + slot_reports_to(kp, states, k) =~= perf.reports);
    } else {
        assert(slot_reports_to(kp, states, k - 1).len() <= slot_reports_to(kp, states, k).len());
        lemma_resolution_reports_in_slot_order(kp, states, k - 1, perf);
        let mid = kp.resolve_to(states, k - 1, perf);
        let s = states[k - 1];
        let added = slot_report(kp, s, (k - 1) as usize);
        if added.len() == 0 {
            assert(kp.resolve_one(s, (k - 1) as usize, mid).reports == mid.reports);
            assert(perf.reports + slot_reports_to(kp, states, k) =~= perf.reports
                + slot_reports_to(kp, states, k - 1));
        } else {
            assert(mid.reports.len() < 128);
            assert(kp.resolve_one(s, (k - 1) as usize, mid).reports == mid.reports.push(
                added[0],
            ));
            assert(perf.reports + slot_reports_to(kp, states, k) =~= (perf.reports
                + slot_reports_to(kp, states, k - 1)).push(added[0]));
        }
    }
}

/// Law: report ordering. If exactly two slots are still enabled when
/// ordinary resolution runs, and each resolves to a report, the two reports
/// are appended in slot-index order — the order of the keys in the layer,
/// not the order in which the presses happened to arrive.
pub proof fn lemma_report_ordering(
    kp: KeyProcessor,
    states: Seq<State>,
    perf: PerfSt,
    i: int,
    j: int,
    ri: Report,
    rj: Report,
)
    requires
        states.len() <= usize::MAX,
        0 <= i < j < states.len(),
        forall|k: int| 0 <= k < states.len() && k != i && k != j ==> !(#[trigger] states[k]).0,
        states[i].0 && states[j].0,
        ({
            let si = states[i];
            si.2 < kp.keys@.len() && i < kp.keys@[si.2 as int]@.len()
                && kp.keys@[si.2 as int]@[i].act_spec(si.1) is Some && gate_spec(
                si.1,
                kp.keys@[si.2 as int]@[i].act_spec(si.1)->Some_0,
            ) == Some(Action::Report(ri))
        }),
        ({
            let sj = states[j];
            sj.2 < kp.keys@.len() && j < kp.keys@[sj.2 as int]@.len()
                && kp.keys@[sj.2 as int]@[j].act_spec(sj.1) is Some && gate_spec(
                sj.1,
                kp.keys@[sj.2 as int]@[j].act_spec(sj.1)->Some_0,
            ) == Some(Action::Report(rj))
        }),
        perf.reports.len() + 2 <= 128,
    ensures
        kp.resolve_to(states, states.len() as int, perf).reports == perf.reports.push(ri).push(
            rj,
        ),
{
    lemma_resolve_constant_below(kp, states, perf, i, j, states.len() as int);
}

/// Helper for `lemma_report_ordering`: walking the first `k` slots appends
/// `ri` once `k` passes `i` and `rj` once it passes `j`, and nothing else.
proof fn lemma_resolve_constant_below(
    kp: KeyProcessor,
    states: Seq<State>,
    perf: PerfSt,
    i: int,
    j: int,
    k: int,
)
    requires
        states.len() <= usize::MAX,
        0 <= i < j < states.len(),
        forall|k2: int| 0 <= k2 < states.len() && k2 != i && k2 != j ==> !(#[trigger] states[k2]).0,
        states[i].0 && states[j].0,
        kp.keys@[states[i].2 as int]@[i].act_spec(states[i].1) is Some,
        kp.keys@[states[j].2 as int]@[j].act_spec(states[j].1) is Some,
        gate_spec(states[i].1, kp.keys@[states[i].2 as int]@[i].act_spec(states[i].1)->Some_0)
            matches Some(a) && a matches Action::Report(_),
        gate_spec(states[j].1, kp.keys@[states[j].2 as int]@[j].act_spec(states[j].1)->Some_0)
            matches Some(a) && a matches Action::Report(_),
        perf.reports.len() + 2 <= 128,
        k <= states.len(),
    ensures
        k <= i ==> kp.resolve_to(states, k, perf).reports == perf.reports,
        i < k <= j ==> kp.resolve_to(states, k, perf).reports == perf.reports.push(
            gate_spec(
                states[i].1,
                kp.keys@[states[i].2 as int]@[i].act_spec(states[i].1)->Some_0,
            )->Some_0->Report_0,
        ),
        j < k ==> kp.resolve_to(states, k, perf).reports == perf.reports.push(
            gate_spec(
                states[i].1,
                kp.keys@[states[i].2 as int]@[i].act_spec(states[i].1)->Some_0,
            )->Some_0->Report_0,
        ).push(
            gate_spec(
                states[j].1,
                kp.keys@[states[j].2 as int]@[j].act_spec(states[j].1)->Some_0,
            )->Some_0->Report_0,
        ),
    decreases k,
{
    if k > 0 {
        lemma_resolve_constant_below(kp, states, perf, i, j, k - 1);
        let mid = kp.resolve_to(states, k - 1, perf);
        let s = states[k - 1];
        assert(kp.resolve_to(states, k, perf) == kp.resolve_one(s, (k - 1) as usize, mid));
        if k - 1 == i {
            assert(mid.reports == perf.reports);
            assert(mid.reports.len() < 128);
            let a = kp.keys@[s.2 as int]@[i].act_spec(s.1)->Some_0;
            let g = gate_spec(s.1, a)->Some_0;
            assert(kp.resolve_one(s, (k - 1) as usize, mid) == perform_spec(
                mid,
                (k - 1) as usize,
                g,
            ));
            assert(perform_spec(mid, (k - 1) as usize, g).reports == mid.reports.push(
                g->Report_0,
            ));
        } else if k - 1 == j {
            assert(mid.reports.len() < 128);
            let a = kp.keys@[s.2 as int]@[j].act_spec(s.1)->Some_0;
            let g = gate_spec(s.1, a)->Some_0;
            assert(kp.resolve_one(s, (k - 1) as usize, mid) == perform_spec(
                mid,
                (k - 1) as usize,
                g,
            ));
            assert(perform_spec(mid, (k - 1) as usize, g).reports == mid.reports.push(
                g->Report_0,
            ));
        } else {
            assert(!s.0);
            assert(kp.resolve_one(s, (k - 1) as usize, mid) == mid);
        }
    }
}

} // verus!
