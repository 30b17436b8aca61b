use vstd::prelude::*;

verus! {

/// One debounced observation of a single key for one tick.
///
/// The four phases split into two families: `Press`/`Pressed` mean the key is
/// logically held, `Release`/`Released` mean it is logically free. `Press` and
/// `Release` are the edge phases, reported exactly once per transition; the
/// counter they carry is the number of ticks spent in the phase that just
/// ended. `Pressed` and `Released` are the steady phases; their counter is the
/// number of ticks spent in the current phase since the edge.
#[derive(Debug, Clone, Copy, PartialEq, Eq, Structural)]
pub enum Event {
    Pressed(usize),
    Press(usize),
    Release(usize),
    Released(usize),
}

impl Event {
    /// The key is logically held (at or after a press edge).
    pub open spec fn is_held(self) -> bool {
        self is Press || self is Pressed
    }

    /// The key is logically free (at or after a release edge).
    pub open spec fn is_free(self) -> bool {
        self is Release || self is Released
    }

    /// The event is an edge: the first tick of a new phase.
    pub open spec fn is_edge(self) -> bool {
        self is Press || self is Release
    }

    /// The tick counter carried by the event.
    pub open spec fn count(self) -> usize {
        match self {
            Event::Pressed(n) => n,
            Event::Press(n) => n,
            Event::Release(n) => n,
            Event::Released(n) => n,
        }
    }

    pub fn new() -> (e: Event)
        ensures
            e == Event::Released(0usize),
    {
        Event::Released(0)
    }
}

impl Default for Event {
    /// A key starts out released, with no history.
    fn default() -> (e: Event)
        ensures
            e == Event::Released(0usize),
    {
        Event::Released(0)
    }
}

} // verus!
