use vstd::prelude::*;

use crate::event::Event;

verus! {

/// Saturating increment: run counters grow by one per tick and stick at the
/// largest representable value instead of wrapping.
pub open spec fn sat_inc(n: usize) -> usize {
    if n == usize::MAX {
        n
    } else {
        (n + 1) as usize
    }
}

/// A source of debounced events: consumes one raw boolean sample per tick and
/// emits the stable `Event` for that tick.
pub trait Debounce: Sized {
    /// The state after consuming one raw sample.
    spec fn debounce_next(self, switch: bool) -> Self;

    /// The event emitted for that sample.
    spec fn debounce_event(self, switch: bool) -> Event;

    fn debounce(&mut self, switch: bool) -> (e: Event)
        ensures
            *final(self) == old(self).debounce_next(switch),
            e == old(self).debounce_event(switch),
    ;
}

/// A single phase counter: which family the signal is in (held or free) and
/// for how many consecutive ticks it has stayed there.
///
/// `press` and `release` perform a real transition when the phase flips and
/// reset the run count; `remain` keeps the phase and only grows the count.
#[derive(Debug, Clone, Copy, PartialEq, Eq, Structural)]
pub enum Counter {
    Pressed(usize),
    Released(usize),
}

impl Counter {
    /// The run count: ticks spent in the current phase since its edge.
    pub open spec fn count(self) -> usize {
        match self {
            Counter::Pressed(n) => n,
            Counter::Released(n) => n,
        }
    }

    pub open spec fn is_pressed(self) -> bool {
        self is Pressed
    }

    /// The state after one held sample.
    pub open spec fn press_next(self) -> Counter {
        match self {
            Counter::Pressed(i) => Counter::Pressed(sat_inc(i)),
            Counter::Released(_) => Counter::Pressed(0),
        }
    }

    /// The event one held sample emits: a `Press` edge on a phase flip,
    /// a steady `Pressed` otherwise.
    pub open spec fn press_event(self) -> Event {
        match self {
            Counter::Pressed(i) => Event::Pressed(sat_inc(i)),
            Counter::Released(i) => Event::Press(i),
        }
    }

    /// The state after one free sample.
    pub open spec fn release_next(self) -> Counter {
        match self {
            Counter::Pressed(_) => Counter::Released(0),
            Counter::Released(i) => Counter::Released(sat_inc(i)),
        }
    }

    /// The event one free sample emits: a `Release` edge on a phase flip,
    /// a steady `Released` otherwise.
    pub open spec fn release_event(self) -> Event {
        match self {
            Counter::Pressed(i) => Event::Release(i),
            Counter::Released(i) => Event::Released(sat_inc(i)),
        }
    }

    /// The state after a tick that keeps the phase: the run count grows.
    pub open spec fn remain_next(self) -> Counter {
        match self {
            Counter::Pressed(i) => Counter::Pressed(sat_inc(i)),
            Counter::Released(i) => Counter::Released(sat_inc(i)),
        }
    }

    /// The steady event a phase-keeping tick emits.
    pub open spec fn remain_event(self) -> Event {
        match self {
            Counter::Pressed(i) => Event::Pressed(sat_inc(i)),
            Counter::Released(i) => Event::Released(sat_inc(i)),
        }
    }

    pub fn new() -> (c: Counter)
        ensures
            c == Counter::Released(0usize),
    {
        Counter::Released(0)
    }

    pub fn press(&mut self) -> (e: Event)
        ensures
            *final(self) == old(self).press_next(),
            e == old(self).press_event(),
    {
        match *self {
            Counter::Pressed(i) => {
                *self = Counter::Pressed(i.saturating_add(1));
                Event::Pressed(i.saturating_add(1))
            }
            Counter::Released(i) => {
                *self = Counter::Pressed(0);
                Event::Press(i)
            }
        }
    }

    pub fn release(&mut self) -> (e: Event)
        ensures
            *final(self) == old(self).release_next(),
            e == old(self).release_event(),
    {
        match *self {
            Counter::Pressed(i) => {
                *self = Counter::Released(0);
                Event::Release(i)
            }
            Counter::Released(i) => {
                *self = Counter::Released(i.saturating_add(1));
                Event::Released(i.saturating_add(1))
            }
        }
    }

    pub fn remain(&mut self) -> (e: Event)
        ensures
            *final(self) == old(self).remain_next(),
            e == old(self).remain_event(),
    {
        match *self {
            Counter::Pressed(i) => {
                *self = Counter::Pressed(i.saturating_add(1));
                Event::Pressed(i.saturating_add(1))
            }
            Counter::Released(i) => {
                *self = Counter::Released(i.saturating_add(1));
                Event::Released(i.saturating_add(1))
            }
        }
    }
}

impl Default for Counter {
    /// A counter starts out in the free phase with no history.
    fn default() -> (c: Counter)
        ensures
            c == Counter::Released(0usize),
    {
        Counter::Released(0)
    }
}

/// Law: run counters never decrease except via a deliberate phase transition.
/// Every operation that keeps the counter's phase leaves the run count at
/// least as large as before; only a real edge (`press` on a free counter,
/// `release` on a held one) resets it.
pub proof fn lemma_counter_run_monotonic(c: Counter)
    ensures
        c.remain_next().count() >= c.count(),
        c is Pressed ==> c.press_next().count() >= c.count(),
        c is Released ==> c.release_next().count() >= c.count(),
{
}

/// A per-key debouncer.
///
/// `buffer` tracks the raw signal: how many consecutive identical raw samples
/// have arrived. `counter` tracks the debounced logical state actually
/// reported. A change of the reported phase is committed once the raw signal
/// has stayed in its new direction for `DT` consecutive samples, the flip
/// sample itself included; until then the stable counter merely `remain`s.
/// A threshold of 0 means no debounce: every raw edge commits at once.
#[derive(Debug, Clone, Copy, PartialEq, Eq)]
pub struct Debouncer<const DT: usize> {
    pub buffer: Counter,
    pub counter: Counter,
}

impl<const DT: usize> Debouncer<DT> {
    /// The state after one raw held sample.
    pub open spec fn press_next_spec(self) -> Debouncer<DT> {
        let b = self.buffer.press_next();
        if b.is_pressed() && b.count() + 1 >= DT {
            Debouncer { buffer: b, counter: self.counter.press_next() }
        } else {
            Debouncer { buffer: b, counter: self.counter.remain_next() }
        }
    }

    /// The event one raw held sample emits.
    pub open spec fn press_event_spec(self) -> Event {
        let b = self.buffer.press_next();
        if b.is_pressed() && b.count() + 1 >= DT {
            self.counter.press_event()
        } else {
            self.counter.remain_event()
        }
    }

    /// The state after one raw free sample.
    pub open spec fn release_next_spec(self) -> Debouncer<DT> {
        let b = self.buffer.release_next();
        if !b.is_pressed() && b.count() + 1 >= DT {
            Debouncer { buffer: b, counter: self.counter.release_next() }
        } else {
            Debouncer { buffer: b, counter: self.counter.remain_next() }
        }
    }

    /// The event one raw free sample emits.
    pub open spec fn release_event_spec(self) -> Event {
        let b = self.buffer.release_next();
        if !b.is_pressed() && b.count() + 1 >= DT {
            self.counter.release_event()
        } else {
            self.counter.remain_event()
        }
    }

    pub fn new() -> (d: Debouncer<DT>)
        ensures
            d.buffer == Counter::Released(0usize),
            d.counter == Counter::Released(0usize),
    {
        Debouncer { buffer: Counter::new(), counter: Counter::new() }
    }

    /// Feed one raw held sample.
    pub fn press(&mut self) -> (e: Event)
        ensures
            *final(self) == old(self).press_next_spec(),
            e == old(self).press_event_spec(),
    {
        self.buffer.press();
        match self.buffer {
            Counter::Pressed(i) if i.saturating_add(1) >= DT => self.counter.press(),
            _ => self.counter.remain(),
        }
    }

    /// Feed one raw free sample.
    pub fn release(&mut self) -> (e: Event)
        ensures
            *final(self) == old(self).release_next_spec(),
            e == old(self).release_event_spec(),
    {
        self.buffer.release();
        match self.buffer {
            Counter::Released(i) if i.saturating_add(1) >= DT => self.counter.release(),
            _ => self.counter.remain(),
        }
    }
}

impl<const DT: usize> Default for Debouncer<DT> {
    /// A debouncer starts with both phase counters free and at zero.
    fn default() -> (d: Debouncer<DT>)
        ensures
            d.buffer == Counter::Released(0usize),
            d.counter == Counter::Released(0usize),
    {
        Debouncer { buffer: Counter::Released(0), counter: Counter::Released(0) }
    }
}

impl<const DT: usize> Debounce for Debouncer<DT> {
    open spec fn debounce_next(self, switch: bool) -> Debouncer<DT> {
        if switch {
            self.press_next_spec()
        } else {
            self.release_next_spec()
        }
    }

    open spec fn debounce_event(self, switch: bool) -> Event {
        if switch {
            self.press_event_spec()
        } else {
            self.release_event_spec()
        }
    }

    fn debounce(&mut self, switch: bool) -> (e: Event) {
        match switch {
            true => self.press(),
            false => self.release(),
        }
    }
}

/// The debouncer state after `k` consecutive raw held samples.
pub open spec fn feed_press<const DT: usize>(d: Debouncer<DT>, k: nat) -> Debouncer<DT>
    decreases k,
{
    if k == 0 {
        d
    } else {
        feed_press(d, (k - 1) as nat).press_next_spec()
    }
}

/// The events emitted over `k` consecutive raw held samples.
pub open spec fn press_events<const DT: usize>(d: Debouncer<DT>, k: nat) -> Seq<Event>
    decreases k,
{
    if k == 0 {
        Seq::empty()
    } else {
        press_events(d, (k - 1) as nat).push(feed_press(d, (k - 1) as nat).press_event_spec())
    }
}

/// The sample at which a run of flipped samples commits its edge: the
/// threshold itself, except that a threshold of 0 (no debounce) commits at
/// the first flipped sample.
pub open spec fn commit_sample(dt: nat) -> nat {
    if dt == 0 {
        1
    } else {
        dt
    }
}

/// Law: debounce stability for a rising signal. Starting from a steady free
/// state, a run of consecutive raw held samples emits steady `Released`
/// events while the run is shorter than `DT` samples; the single `Press`
/// edge is committed at sample `DT` exactly (at the first sample when `DT`
/// is 0); every later sample emits a steady `Pressed`. In particular a run
/// of `DT - 1` flipped samples leaves the reported phase untouched, and a
/// run of `DT` commits exactly one edge.
pub proof fn lemma_debounce_stability_press<const DT: usize>(d: Debouncer<DT>, m: nat)
    requires
        d.buffer is Released,
        d.counter is Released,
    ensures
        press_events(d, m).len() == m,
        forall|j: int|
            0 <= j < m ==> (j + 1 < commit_sample(DT as nat) ==> #[trigger] press_events(d, m)[j]
                is Released) && (j + 1 == commit_sample(DT as nat) ==> press_events(d, m)[j]
                is Press) && (j + 1 > commit_sample(DT as nat) ==> press_events(d, m)[j]
                is Pressed),
    decreases m,
{
    if m > 0 {
        lemma_debounce_stability_press(d, (m - 1) as nat);
        lemma_feed_press_state(d, (m - 1) as nat);
    }
}

/// The shape of the debouncer state after `k` consecutive raw held samples
/// from a steady free state: the raw buffer has flipped to the held phase
/// and counts `k - 1` further samples, while the stable counter stays free
/// until the commit at sample `DT`.
proof fn lemma_feed_press_state<const DT: usize>(d: Debouncer<DT>, k: nat)
    requires
        d.buffer is Released,
        d.counter is Released,
    ensures
        k == 0 ==> feed_press(d, k) == d,
        1 <= k < commit_sample(DT as nat) ==> feed_press(d, k).buffer == Counter::Pressed(
            ((k - 1) as usize),
        ) && feed_press(d, k).counter is Released,
        k >= commit_sample(DT as nat) ==> feed_press(d, k).buffer is Pressed && feed_press(
            d,
            k,
        ).buffer.count() + 1 >= DT && feed_press(d, k).counter is Pressed,
    decreases k,
{
    if k > 0 {
        lemma_feed_press_state(d, (k - 1) as nat);
    }
}

/// The debouncer state after `k` consecutive raw free samples.
pub open spec fn feed_release<const DT: usize>(d: Debouncer<DT>, k: nat) -> Debouncer<DT>
    decreases k,
{
    if k == 0 {
        d
    } else {
        feed_release(d, (k - 1) as nat).release_next_spec()
    }
}

/// The events emitted over `k` consecutive raw free samples.
pub open spec fn release_events<const DT: usize>(d: Debouncer<DT>, k: nat) -> Seq<Event>
    decreases k,
{
    if k == 0 {
        Seq::empty()
    } else {
        release_events(d, (k - 1) as nat).push(feed_release(d, (k - 1) as nat).release_event_spec())
    }
}

/// Law: debounce stability for a falling signal, the mirror image of
/// `lemma_debounce_stability_press`: the single `Release` edge is committed
/// at sample `DT` exactly.
pub proof fn lemma_debounce_stability_release<const DT: usize>(d: Debouncer<DT>, m: nat)
    requires
        d.buffer is Pressed,
        d.counter is Pressed,
    ensures
        release_events(d, m).len() == m,
        forall|j: int|
            0 <= j < m ==> (j + 1 < commit_sample(DT as nat) ==> #[trigger] release_events(d, m)[j]
                is Pressed) && (j + 1 == commit_sample(DT as nat) ==> release_events(d, m)[j]
                is Release) && (j + 1 > commit_sample(DT as nat) ==> release_events(d, m)[j]
                is Released),
    decreases m,
{
    if m > 0 {
        lemma_debounce_stability_release(d, (m - 1) as nat);
        lemma_feed_release_state(d, (m - 1) as nat);
    }
}

/// Mirror image of `lemma_feed_press_state` for a falling signal.
proof fn lemma_feed_release_state<const DT: usize>(d: Debouncer<DT>, k: nat)
    requires
        d.buffer is Pressed,
        d.counter is Pressed,
    ensures
        k == 0 ==> feed_release(d, k) == d,
        1 <= k < commit_sample(DT as nat) ==> feed_release(d, k).buffer == Counter::Released(
            ((k - 1) as usize),
        ) && feed_release(d, k).counter is Pressed,
        k >= commit_sample(DT as nat) ==> feed_release(d, k).buffer is Released && feed_release(
            d,
            k,
        ).buffer.count() + 1 >= DT && feed_release(d, k).counter is Released,
    decreases k,
{
    if k > 0 {
        lemma_feed_release_state(d, (k - 1) as nat);
    }
}

} // verus!
