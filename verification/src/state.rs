use vstd::prelude::*;

use crate::event::Event;

verus! {

/// Per-key bookkeeping for one tick: whether the key is still available for
/// ordinary resolution (a handler that claims the key clears this), the key's
/// debounced event, and the layer captured at its most recent press edge,
/// which governs its binding for the whole hold.
#[derive(Debug, Clone, Copy, PartialEq, Eq, Structural)]
pub struct State(pub bool, pub Event, pub usize);

impl State {
    pub fn new() -> (s: State)
        ensures
            s == State(false, Event::Released(0usize), 0usize),
    {
        State(false, Event::Released(0), 0)
    }

    /// Claim the key for this tick: ordinary resolution will skip it.
    pub fn disable(&mut self)
        ensures
            *final(self) == State(false, old(self).1, old(self).2),
    {
        self.0 = false;
    }

    /// Hand the key back to ordinary resolution.
    pub fn enable(&mut self)
        ensures
            *final(self) == State(true, old(self).1, old(self).2),
    {
        self.0 = true;
    }

    /// Record the key's debounced event for this tick.
    pub fn event(&mut self, event: Event)
        ensures
            *final(self) == State(old(self).0, event, old(self).2),
    {
        self.1 = event;
    }

    /// Capture the layer a press is resolved on: only a press edge freezes the
    /// layer; on every other event the previously captured layer stands.
    pub fn layer(&mut self, layer: usize)
        ensures
            old(self).1 is Press ==> *final(self) == State(old(self).0, old(self).1, layer),
            !(old(self).1 is Press) ==> *final(self) == *old(self),
    {
        if let Event::Press(_) = self.1 {
            self.2 = layer;
        }
    }
}

impl Default for State {
    /// A key slot starts unclaimed-and-idle: not enabled, released, layer 0.
    fn default() -> (s: State)
        ensures
            s == State(false, Event::Released(0usize), 0usize),
    {
        State(false, Event::Released(0), 0)
    }
}

} // verus!
