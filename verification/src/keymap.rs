use vstd::prelude::*;

use crate::action::KeyAction;
use crate::debouncer::{Debounce, Debouncer};
use crate::event::Event;
use crate::performer::{Performer, PerfSt};
use crate::processor::{
    lemma_process_req_transfer, lemma_process_step_preserves, lemma_resolve_preserves_layers,
    same_config, KeyProcessor, Process, Processor,
};
use crate::report::Report;
use crate::state::State;

verus! {

/// Every key's debouncer stepped by its raw sample.
pub open spec fn debounce_next_all<const DT: usize>(
    debs: Seq<Debouncer<DT>>,
    switches: Seq<bool>,
) -> Seq<Debouncer<DT>> {
    Seq::new(debs.len(), |i: int| debs[i].debounce_next(switches[i]))
}

/// Every slot annotated with the event its debouncer emits; claim flags and
/// captured layers are untouched here.
pub open spec fn debounce_events_all<const DT: usize>(
    debs: Seq<Debouncer<DT>>,
    states: Seq<State>,
    switches: Seq<bool>,
) -> Seq<State> {
    Seq::new(
        states.len(),
        |i: int| State(states[i].0, debs[i].debounce_event(switches[i]), states[i].2),
    )
}

/// The arming pass: every slot at a press edge captures the active layer —
/// freezing which row binds it for the whole hold — and every slot is handed
/// back to ordinary resolution.
pub open spec fn arm_all(states: Seq<State>, cur: usize) -> Seq<State> {
    Seq::new(
        states.len(),
        |i: int|
            State(
                true,
                states[i].1,
                if states[i].1 is Press {
                    cur
                } else {
                    states[i].2
                },
            ),
    )
}

/// The first `k` registered processors run in order over the slot table and
/// the performer.
pub open spec fn run_procs(
    procs: Seq<Processor>,
    states: Seq<State>,
    perf: PerfSt,
    k: int,
) -> (Seq<Processor>, Seq<State>, PerfSt)
    decreases k,
{
    if k <= 0 {
        (procs, states, perf)
    } else {
        let r = run_procs(procs, states, perf, k - 1);
        let step = r.0[k - 1].process_step(r.1, r.2);
        (r.0.update(k - 1, step.0), step.1, step.2)
    }
}

/// One chord or combo configuration fits a keymap of `n` keys and `l`
/// layers: its slot ids name real slots and its table has one entry per
/// layer.
pub open spec fn proc_config_wf(p: Processor, n: nat, l: nat) -> bool {
    match p {
        Processor::Chord(c) => c.ids.0 < n && c.ids.1 < n && c.actions@.len() == l,
        Processor::Comb(c) => c.id < n && c.actions@.len() == l,
    }
}

/// The whole device: per-key debouncers, per-key slot bookkeeping, the
/// registered chord/combo handlers, the keymap grid, and the effect
/// sequencer with its report queue. One call to `tick` consumes one raw
/// sample per key and refills the report queue.
pub struct BasicKeymap<const DT: usize> {
    pub debouncers: Vec<Debouncer<DT>>,
    pub states: Vec<State>,
    pub processors: Vec<Processor>,
    pub keys: KeyProcessor,
    pub performer: Performer,
}

impl<const DT: usize> BasicKeymap<DT> {
    /// The number of physical key slots.
    pub open spec fn nkeys(self) -> nat {
        self.states@.len()
    }

    /// The number of layers in the grid.
    pub open spec fn nlayers(self) -> nat {
        self.keys.keys@.len()
    }

    /// Well-formed: one debouncer per slot, a rectangular grid of at least
    /// one layer whose rows are as wide as the slot table, every captured
    /// layer and the performer's layer state in range, the performer sized
    /// to the grid, and every processor configured for this keymap.
    pub open spec fn wf(self) -> bool {
        &&& self.debouncers@.len() == self.nkeys()
        &&& self.nlayers() >= 1
        &&& forall|l: int|
            0 <= l < self.nlayers() ==> (#[trigger] self.keys.keys@[l])@.len() == self.nkeys()
        &&& forall|i: int|
            0 <= i < self.nkeys() ==> (#[trigger] self.states@[i]).2 < self.nlayers()
        &&& forall|p: int|
            0 <= p < self.processors@.len() ==> proc_config_wf(
                #[trigger] self.processors@[p],
                self.nkeys(),
                self.nlayers(),
            )
        &&& self.performer.model().nlayers == self.nlayers()
        &&& self.performer.model().current < self.nlayers()
        &&& self.performer.model().default < self.nlayers()
    }

    /// The configuration a keymap can be built from: at least one layer, a
    /// rectangular grid, and every handler wired to real keys with one table
    /// entry per layer.
    pub open spec fn config_ok(keys: Vec<Vec<KeyAction>>, processors: Vec<Processor>) -> bool {
        &&& keys@.len() >= 1
        &&& forall|l: int|
            0 <= l < keys@.len() ==> (#[trigger] keys@[l])@.len() == keys@[0]@.len()
        &&& forall|p: int|
            0 <= p < processors@.len() ==> proc_config_wf(
                #[trigger] processors@[p],
                keys@[0]@.len(),
                keys@.len(),
            )
    }

    /// Build a keymap from its grid and its registered handlers. All keys
    /// start released and unclaimed on layer 0 with fresh debouncers, and
    /// the report queue empty.
    pub fn new(keys: Vec<Vec<KeyAction>>, processors: Vec<Processor>) -> (k: BasicKeymap<DT>)
        requires
            Self::config_ok(keys, processors),
        ensures
            k.wf(),
            k.keys == (KeyProcessor { keys }),
            k.processors == processors,
            k.nkeys() == keys@[0]@.len(),
            forall|i: int|
                0 <= i < k.nkeys() ==> #[trigger] k.states@[i] == State(
                    false,
                    Event::Released(0usize),
                    0usize,
                ),
            forall|i: int|
                0 <= i < k.nkeys() ==> #[trigger] k.debouncers@[i] == (Debouncer::<DT> {
                    buffer: crate::debouncer::Counter::Released(0usize),
                    counter: crate::debouncer::Counter::Released(0usize),
                }),
            k.performer.model() == (PerfSt {
                current: 0usize,
                default: 0usize,
                modifier: 0usize,
                nlayers: keys@.len() as usize,
                reports: Seq::<Report>::empty(),
            }),
    {
        let n = keys[0].len();
        let nlayers = keys.len();
        let mut debouncers: Vec<Debouncer<DT>> = Vec::new();
        let mut states: Vec<State> = Vec::new();
        let mut i: usize = 0;
        while i < n
            invariant
                i <= n,
                debouncers@.len() == i,
                states@.len() == i,
                forall|j: int|
                    0 <= j < i ==> #[trigger] states@[j] == State(
                        false,
                        Event::Released(0usize),
                        0usize,
                    ),
                forall|j: int|
                    0 <= j < i ==> #[trigger] debouncers@[j] == (Debouncer::<DT> {
                        buffer: crate::debouncer::Counter::Released(0usize),
                        counter: crate::debouncer::Counter::Released(0usize),
                    }),
            decreases n - i,
        {
            debouncers.push(Debouncer::new());
            states.push(State::new());
            i = i + 1;
        }
        BasicKeymap {
            debouncers,
            states,
            processors,
            keys: KeyProcessor::new(keys),
            performer: Performer::new(nlayers),
        }
    }

    /// Build a keymap after checking the configuration, so that no caller
    /// has to establish it: yields the keymap exactly as `new` does when the
    /// configuration is good, and `None` — never a panic — when it is not.
    pub fn try_new(keys: Vec<Vec<KeyAction>>, processors: Vec<Processor>) -> (r: Option<
        BasicKeymap<DT>,
    >)
        ensures
            r is Some <==> Self::config_ok(keys, processors),
            r matches Some(k) ==> k.wf() && k.keys == (KeyProcessor { keys }) && k.processors
                == processors && k.performer.model() == (PerfSt {
                current: 0usize,
                default: 0usize,
                modifier: 0usize,
                nlayers: keys@.len() as usize,
                reports: Seq::<Report>::empty(),
            }),
    {
        if keys.len() == 0 {
            return None;
        }
        let width = keys[0].len();
        let nlayers = keys.len();
        let mut l: usize = 0;
        while l < nlayers
            invariant
                l <= nlayers,
                nlayers == keys@.len(),
                width == keys@[0]@.len(),
                forall|j: int| 0 <= j < l ==> (#[trigger] keys@[j])@.len() == width,
            decreases nlayers - l,
        {
            if keys[l].len() != width {
                return None;
            }
            l = l + 1;
        }
        let mut p: usize = 0;
        while p < processors.len()
            invariant
                p <= processors@.len(),
                nlayers == keys@.len(),
                width == keys@[0]@.len(),
                forall|j: int|
                    0 <= j < p ==> proc_config_wf(
                        #[trigger] processors@[j],
                        width as nat,
                        nlayers as nat,
                    ),
            decreases processors@.len() - p,
        {
            let ok = match &processors[p] {
                Processor::Chord(c) => {
                    c.ids.0 < width && c.ids.1 < width && c.actions.len() == nlayers
                },
                Processor::Comb(c) => c.id < width && c.actions.len() == nlayers,
            };
            if !ok {
                return None;
            }
            p = p + 1;
        }
        Some(Self::new(keys, processors))
    }

    /// What one tick does, as a pure function of the old component states
    /// and the raw samples: clear the queue, debounce every key, arm the
    /// slots, run the handlers in registration order, then resolve the
    /// remaining slots in index order. Yields the new debouncers, slots,
    /// handlers and performer.
    pub open spec fn tick_spec(self, switches: Seq<bool>) -> (
        Seq<Debouncer<DT>>,
        Seq<State>,
        Seq<Processor>,
        PerfSt,
    ) {
        let debs2 = debounce_next_all(self.debouncers@, switches);
        let s_ev = debounce_events_all(self.debouncers@, self.states@, switches);
        let perf0 = self.performer.model();
        let perf1 = PerfSt {
            current: perf0.current,
            default: perf0.default,
            modifier: perf0.modifier,
            nlayers: perf0.nlayers,
            reports: Seq::<Report>::empty(),
        };
        let s_armed = arm_all(s_ev, perf0.current);
        let r = run_procs(self.processors@, s_armed, perf1, self.processors@.len() as int);
        let perf2 = self.keys.resolve_to(r.1, r.1.len() as int, r.2);
        (debs2, r.1, r.0, perf2)
    }

    /// One scan tick: consume one raw boolean sample per key slot, refill
    /// the report queue, and step every component exactly as `tick_spec`
    /// says.
    pub fn tick(&mut self, switches: &Vec<bool>)
        requires
            old(self).wf(),
            switches@.len() == old(self).states@.len(),
        ensures
            final(self).keys == old(self).keys,
            final(self).wf(),
            final(self).nkeys() == old(self).nkeys(),
            final(self).nlayers() == old(self).nlayers(),
            final(self).processors@.len() == old(self).processors@.len(),
            ({
                let (d, s, p, f) = old(self).tick_spec(switches@);
                &&& final(self).debouncers@ == d
                &&& final(self).states@ == s
                &&& final(self).processors@ == p
                &&& final(self).performer.model() == f
            }),
    {
        self.performer.clear();
        let ghost perf1 = self.performer.model();
        let n = self.states.len();

        // Debounce every key and record its event for this tick.
        let mut i: usize = 0;
        while i < n
            invariant
                i <= n,
                n == old(self).states@.len(),
                switches@.len() == n,
                old(self).debouncers@.len() == n,
                self.debouncers@.len() == n,
                self.states@.len() == n,
                self.keys == old(self).keys,
                self.processors == old(self).processors,
                self.performer.model() == perf1,
                forall|j: int|
                    0 <= j < i ==> #[trigger] self.debouncers@[j] == old(
                        self,
                    ).debouncers@[j].debounce_next(switches@[j]),
                forall|j: int|
                    0 <= j < i ==> #[trigger] self.states@[j] == State(
                        old(self).states@[j].0,
                        old(self).debouncers@[j].debounce_event(switches@[j]),
                        old(self).states@[j].2,
                    ),
                forall|j: int|
                    i <= j < n ==> #[trigger] self.debouncers@[j] == old(self).debouncers@[j],
                forall|j: int| i <= j < n ==> #[trigger] self.states@[j] == old(self).states@[j],
            decreases n - i,
        {
            let sw = switches[i];
            let e = self.debouncers[i].debounce(sw);
            self.states[i].event(e);
            i = i + 1;
        }
        proof {
            assert(self.debouncers@ =~= debounce_next_all(old(self).debouncers@, switches@));
            assert(self.states@ =~= debounce_events_all(
                old(self).debouncers@,
                old(self).states@,
                switches@,
            ));
        }

        // Arm the slots: capture the layer at press edges, enable everyone.
        let cur = self.performer.current_layer();
        let ghost s_ev = self.states@;
        let mut i: usize = 0;
        while i < n
            invariant
                i <= n,
                n == s_ev.len(),
                self.states@.len() == n,
                self.keys == old(self).keys,
                self.processors == old(self).processors,
                self.debouncers@ == debounce_next_all(old(self).debouncers@, switches@),
                self.performer.model() == perf1,
                cur == perf1.current,
                forall|j: int|
                    0 <= j < i ==> #[trigger] self.states@[j] == State(
                        true,
                        s_ev[j].1,
                        if s_ev[j].1 is Press {
                            cur
                        } else {
                            s_ev[j].2
                        },
                    ),
                forall|j: int| i <= j < n ==> #[trigger] self.states@[j] == s_ev[j],
            decreases n - i,
        {
            self.states[i].layer(cur);
            self.states[i].enable();
            i = i + 1;
        }
        let ghost s_armed = self.states@;
        proof {
            assert(s_armed =~= arm_all(s_ev, cur));
        }

        // The armed table keeps every invariant the handler passes need.
        proof {
            assert forall|j: int| 0 <= j < n implies (#[trigger] s_armed[j]).2
                < old(self).nlayers() by {
                assert(old(self).states@[j].2 < old(self).nlayers());
            }
            assert forall|p: int|
                0 <= p < self.processors@.len() implies #[trigger] self.processors@[p].process_req(
                s_armed,
            ) by {
                assert(proc_config_wf(self.processors@[p], n as nat, old(self).nlayers()));
            }
        }

        // Run the chord/combo handlers in registration order.
        let ghost procs0 = self.processors@;
        let m = self.processors.len();
        let mut j: usize = 0;
        while j < m
            invariant
                j <= m,
                n == s_armed.len(),
                self.processors@.len() == m,
                self.keys == old(self).keys,
                self.debouncers@ == debounce_next_all(old(self).debouncers@, switches@),
                self.processors@ == run_procs(procs0, s_armed, perf1, j as int).0,
                self.states@ == run_procs(procs0, s_armed, perf1, j as int).1,
                self.performer.model() == run_procs(procs0, s_armed, perf1, j as int).2,
                self.states@.len() == n,
                forall|i2: int|
                    0 <= i2 < n ==> (#[trigger] self.states@[i2]).1 == s_armed[i2].1
                        && self.states@[i2].2 == s_armed[i2].2,
                forall|p: int|
                    0 <= p < m ==> same_config(#[trigger] self.processors@[p], procs0[p]),
                forall|p: int| 0 <= p < m ==> #[trigger] procs0[p].process_req(s_armed),
                forall|p: int|
                    0 <= p < m ==> #[trigger] self.processors@[p].process_req(self.states@),
                self.performer.model().nlayers == perf1.nlayers,
                self.performer.model().current < perf1.nlayers,
                self.performer.model().default < perf1.nlayers,
            decreases m - j,
        {
            let ghost procs_pre = self.processors@;
            let ghost states_pre = self.states@;
            let ghost perf_pre = self.performer.model();
            self.processors[j].process(&mut self.states, &mut self.performer);
            proof {
                lemma_process_step_preserves(procs_pre[j as int], states_pre, perf_pre);
                let step = procs_pre[j as int].process_step(states_pre, perf_pre);
                assert(run_procs(procs0, s_armed, perf1, j + 1).0 =~= procs_pre.update(
                    j as int,
                    step.0,
                ));
                assert forall|p: int|
                    0 <= p < m implies same_config(
                    #[trigger] self.processors@[p],
                    procs0[p],
                ) by {
                    if p != j {
                        assert(self.processors@[p] == procs_pre[p]);
                    }
                }
                assert forall|p: int|
                    0 <= p < m implies #[trigger] self.processors@[p].process_req(
                    self.states@,
                ) by {
                    lemma_process_req_transfer(
                        self.processors@[p],
                        procs0[p],
                        self.states@,
                        s_armed,
                    );
                }
            }
            j = j + 1;
        }

        // Ordinary per-key resolution of every slot still enabled.
        proof {
            assert forall|i2: int| 0 <= i2 < n implies (#[trigger] self.states@[i2]).2
                < self.keys.keys@.len() && self.keys.keys@[self.states@[i2].2 as int]@.len()
                == n by {
                assert(s_armed[i2].2 < old(self).nlayers());
            }
            lemma_resolve_preserves_layers(
                self.keys,
                self.states@,
                self.states@.len() as int,
                self.performer.model(),
            );
        }
        self.keys.process(&mut self.states, &mut self.performer);
    }

    /// The number of physical key slots, as configured at construction.
    pub fn key_count(&self) -> (n: usize)
        ensures
            n == self.nkeys(),
    {
        self.states.len()
    }

    /// The reports this tick produced, oldest first.
    pub fn reports(&self) -> (v: Vec<Report>)
        ensures
            v@ == self.performer.model().reports,
    {
        self.performer.reports()
    }

    /// The active layer.
    pub fn current_layer(&self) -> (l: usize)
        ensures
            l == self.performer.model().current,
    {
        self.performer.current_layer()
    }
}

} // verus!
