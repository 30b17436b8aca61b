use vstd::prelude::*;

use crate::event::Event;
use crate::function::Function;

pub mod chord;
pub mod comb;
pub mod holdtap;

verus! {

/// A per-key handler in the direct-dispatch style: decides, from the key's
/// event for this tick, which function fires. Every implementor gives the
/// decision as a spec function, and its executable `handle` is proved to
/// return exactly that.
pub trait Handle {
    /// Which function, if any, fires for this event.
    spec fn handle_spec(&self, event: Event) -> Option<Function>;

    fn handle(&self, event: &Event) -> (r: Option<Function>)
        ensures
            r == self.handle_spec(*event),
    ;
}

/// Fires its function on the press edge and on every held tick.
#[derive(Debug, Clone, Copy, PartialEq, Eq, Structural)]
pub struct Hold(pub Function);

/// Fires its function only on the press edge.
#[derive(Debug, Clone, Copy, PartialEq, Eq, Structural)]
pub struct Tap(pub Function);

/// Fires one function at the press edge and another at the release edge.
#[derive(Debug, Clone, Copy, PartialEq, Eq, Structural)]
pub struct OnOff(pub Function, pub Function);

impl Hold {
    pub fn new(f: Function) -> (h: Hold)
        ensures
            h == Hold(f),
    {
        Hold(f)
    }
}

impl Handle for Hold {
    open spec fn handle_spec(&self, event: Event) -> Option<Function> {
        if event.is_held() {
            Some(self.0)
        } else {
            None
        }
    }

    fn handle(&self, event: &Event) -> (r: Option<Function>) {
        match event {
            Event::Press(_) | Event::Pressed(_) => Some(self.0),
            _ => None,
        }
    }
}

impl Tap {
    pub fn new(f: Function) -> (t: Tap)
        ensures
            t == Tap(f),
    {
        Tap(f)
    }
}

impl Handle for Tap {
    open spec fn handle_spec(&self, event: Event) -> Option<Function> {
        if event is Press {
            Some(self.0)
        } else {
            None
        }
    }

    fn handle(&self, event: &Event) -> (r: Option<Function>) {
        match event {
            Event::Press(_) => Some(self.0),
            _ => None,
        }
    }
}

impl OnOff {
    pub fn new(f0: Function, f1: Function) -> (o: OnOff)
        ensures
            o == OnOff(f0, f1),
    {
        OnOff(f0, f1)
    }
}

impl Handle for OnOff {
    open spec fn handle_spec(&self, event: Event) -> Option<Function> {
        if event is Press {
            Some(self.0)
        } else if event is Release {
            Some(self.1)
        } else {
            None
        }
    }

    fn handle(&self, event: &Event) -> (r: Option<Function>) {
        match event {
            Event::Press(_) => Some(self.0),
            Event::Release(_) => Some(self.1),
            _ => None,
        }
    }
}

} // verus!
