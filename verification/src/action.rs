use vstd::prelude::*;

use crate::event::Event;
use crate::report::Report;

pub mod holdtap;

verus! {

/// A layer effect.
///
/// `Current` is a momentary switch: it changes only the active layer.
/// `Default` is a persistent switch: it changes the active and the fallback
/// layer together. `Undo` asks to revert the active layer to the fallback; it
/// takes effect only for the key that still owns the last layer change (see
/// `crate::layers::layer_transition`).
#[derive(Debug, Clone, Copy, PartialEq, Eq, Structural)]
pub enum Layer {
    Current(usize),
    Default(usize),
    Undo(usize),
}

/// The effect a resolved key binding can have: emit one report, or change the
/// layer state.
#[derive(Debug, Clone, Copy, PartialEq, Eq, Structural)]
pub enum Action {
    Report(Report),
    Layer(Layer),
}

/// A binding: decides, from the key's event for this tick, whether its action
/// fires. Every implementor gives the decision as a spec function, and its
/// executable `act` is proved to return exactly that.
pub trait Act {
    /// Which action, if any, fires for this event.
    spec fn act_spec(&self, event: Event) -> Option<Action>;

    fn act(&self, event: &Event) -> (r: Option<Action>)
        ensures
            r == self.act_spec(*event),
    ;
}

/// Fires only on the press edge.
#[derive(Debug, Clone, Copy, PartialEq, Eq, Structural)]
pub struct PressAction(pub Action);

/// Fires on the press edge and on every held tick.
#[derive(Debug, Clone, Copy, PartialEq, Eq, Structural)]
pub struct PressedAction(pub Action);

/// Fires only on the release edge.
#[derive(Debug, Clone, Copy, PartialEq, Eq, Structural)]
pub struct ReleaseAction(pub Action);

/// Fires on the release edge and on every free tick.
#[derive(Debug, Clone, Copy, PartialEq, Eq, Structural)]
pub struct ReleasedAction(pub Action);

/// Fires on both edges, never on steady ticks.
#[derive(Debug, Clone, Copy, PartialEq, Eq, Structural)]
pub struct PressReleaseAction(pub Action);

impl PressAction {
    pub fn new(action: Action) -> (a: PressAction)
        ensures
            a == PressAction(action),
    {
        PressAction(action)
    }
}

impl PressedAction {
    pub fn new(action: Action) -> (a: PressedAction)
        ensures
            a == PressedAction(action),
    {
        PressedAction(action)
    }
}

impl ReleaseAction {
    pub fn new(action: Action) -> (a: ReleaseAction)
        ensures
            a == ReleaseAction(action),
    {
        ReleaseAction(action)
    }
}

impl ReleasedAction {
    pub fn new(action: Action) -> (a: ReleasedAction)
        ensures
            a == ReleasedAction(action),
    {
        ReleasedAction(action)
    }
}

impl PressReleaseAction {
    pub fn new(action: Action) -> (a: PressReleaseAction)
        ensures
            a == PressReleaseAction(action),
    {
        PressReleaseAction(action)
    }
}

impl Act for PressAction {
    open spec fn act_spec(&self, event: Event) -> Option<Action> {
        if event is Press {
            Some(self.0)
        } else {
            None
        }
    }

    fn act(&self, event: &Event) -> (r: Option<Action>) {
        match event {
            Event::Press(_) => Some(self.0),
            _ => None,
        }
    }
}

impl Act for PressedAction {
    open spec fn act_spec(&self, event: Event) -> Option<Action> {
        if event.is_held() {
            Some(self.0)
        } else {
            None
        }
    }

    fn act(&self, event: &Event) -> (r: Option<Action>) {
        match event {
            Event::Press(_) | Event::Pressed(_) => Some(self.0),
            _ => None,
        }
    }
}

impl Act for ReleaseAction {
    open spec fn act_spec(&self, event: Event) -> Option<Action> {
        if event is Release {
            Some(self.0)
        } else {
            None
        }
    }

    fn act(&self, event: &Event) -> (r: Option<Action>) {
        match event {
            Event::Release(_) => Some(self.0),
            _ => None,
        }
    }
}

impl Act for ReleasedAction {
    open spec fn act_spec(&self, event: Event) -> Option<Action> {
        if event.is_free() {
            Some(self.0)
        } else {
            None
        }
    }

    fn act(&self, event: &Event) -> (r: Option<Action>) {
        match event {
            Event::Release(_) | Event::Released(_) => Some(self.0),
            _ => None,
        }
    }
}

impl Act for PressReleaseAction {
    open spec fn act_spec(&self, event: Event) -> Option<Action> {
        if event.is_edge() {
            Some(self.0)
        } else {
            None
        }
    }

    fn act(&self, event: &Event) -> (r: Option<Action>) {
        match event {
            Event::Press(_) | Event::Release(_) => Some(self.0),
            _ => None,
        }
    }
}

/// One cell of the keymap grid: an action wrapped in its activation policy,
/// as a closed tagged union so that resolution is a single match and the grid
/// needs no dynamic dispatch.
#[derive(Debug, Clone, Copy, PartialEq, Eq, Structural)]
pub enum KeyAction {
    /// Fires only on the press edge.
    Press(Action),
    /// Fires on the press edge and on every held tick.
    Pressed(Action),
    /// Fires only on the release edge.
    Release(Action),
    /// Fires on the release edge and on every free tick.
    Released(Action),
    /// Fires on both edges, never on steady ticks.
    PressRelease(Action),
    /// The dual-purpose hold/tap binding.
    HoldTap(holdtap::HoldTap),
}

impl KeyAction {
    /// Which action, if any, this binding fires for an event, before layer
    /// edge-gating.
    pub open spec fn act_spec(self, event: Event) -> Option<Action> {
        match self {
            KeyAction::Press(a) => if event is Press {
                Some(a)
            } else {
                None
            },
            KeyAction::Pressed(a) => if event.is_held() {
                Some(a)
            } else {
                None
            },
            KeyAction::Release(a) => if event is Release {
                Some(a)
            } else {
                None
            },
            KeyAction::Released(a) => if event.is_free() {
                Some(a)
            } else {
                None
            },
            KeyAction::PressRelease(a) => if event.is_edge() {
                Some(a)
            } else {
                None
            },
            KeyAction::HoldTap(h) => h.act_spec(event),
        }
    }

    pub fn act(&self, event: &Event) -> (r: Option<Action>)
        ensures
            r == self.act_spec(*event),
    {
        match *self {
            KeyAction::Press(a) => match event {
                Event::Press(_) => Some(a),
                _ => None,
            },
            KeyAction::Pressed(a) => match event {
                Event::Press(_) | Event::Pressed(_) => Some(a),
                _ => None,
            },
            KeyAction::Release(a) => match event {
                Event::Release(_) => Some(a),
                _ => None,
            },
            KeyAction::Released(a) => match event {
                Event::Release(_) | Event::Released(_) => Some(a),
                _ => None,
            },
            KeyAction::PressRelease(a) => match event {
                Event::Press(_) | Event::Release(_) => Some(a),
                _ => None,
            },
            KeyAction::HoldTap(h) => h.act(event),
        }
    }

    /// A binding whose undo request can actually reach a release edge. An
    /// `Undo` bound so that it can only ever fire on press or held ticks is a
    /// keymap mistake — the edge gate will drop it every time — so a keymap
    /// builder should check this rather than silently accept the binding
    /// (see `lemma_misbound_undo_never_fires`).
    pub open spec fn undo_well_bound_spec(self) -> bool {
        match self {
            KeyAction::Press(a) => !(a matches Action::Layer(Layer::Undo(_))),
            KeyAction::Pressed(a) => !(a matches Action::Layer(Layer::Undo(_))),
            KeyAction::HoldTap(h) => !(h.hold matches Action::Layer(Layer::Undo(_))),
            _ => true,
        }
    }

    pub fn undo_well_bound(&self) -> (r: bool)
        ensures
            r == self.undo_well_bound_spec(),
    {
        match *self {
            KeyAction::Press(Action::Layer(Layer::Undo(_))) => false,
            KeyAction::Pressed(Action::Layer(Layer::Undo(_))) => false,
            KeyAction::HoldTap(h) => !(matches!(h.hold, Action::Layer(Layer::Undo(_)))),
            _ => true,
        }
    }
}

/// Edge-gate a resolved action. Reports pass through unchanged. Layer effects
/// are tied to edges: a persistent (`Default`) switch applies only at the
/// press edge; an undo request applies only at the release edge; a momentary
/// (`Current`) switch applies at the press edge and turns into the matching
/// undo request at the release edge, so that one both-edges binding gives the
/// classic hold-for-layer key. Steady ticks never change layer state.
pub open spec fn gate_spec(event: Event, a: Action) -> Option<Action> {
    match a {
        Action::Report(_) => Some(a),
        Action::Layer(la) => match la {
            Layer::Current(l) => if event is Press {
                Some(a)
            } else if event is Release {
                Some(Action::Layer(Layer::Undo(l)))
            } else {
                None
            },
            Layer::Default(_) => if event is Press {
                Some(a)
            } else {
                None
            },
            Layer::Undo(_) => if event is Release {
                Some(a)
            } else {
                None
            },
        },
    }
}

pub fn gate(event: &Event, a: Action) -> (r: Option<Action>)
    ensures
        r == gate_spec(*event, a),
{
    match a {
        Action::Report(_) => Some(a),
        Action::Layer(la) => match la {
            Layer::Current(l) => match event {
                Event::Press(_) => Some(a),
                Event::Release(_) => Some(Action::Layer(Layer::Undo(l))),
                _ => None,
            },
            Layer::Default(_) => match event {
                Event::Press(_) => Some(a),
                _ => None,
            },
            Layer::Undo(_) => match event {
                Event::Release(_) => Some(a),
                _ => None,
            },
        },
    }
}

/// A dead undo binding stays dead: wrap an `Undo` action in a policy that
/// fires only while its key goes down or stays held, and no event can make
/// that action reach the layer state, because edge-gating keeps undo
/// requests for release edges. The `hold` arm of a hold-tap behaves the same
/// way, since it fires only on held ticks.
pub proof fn lemma_misbound_undo_never_fires(k: KeyAction, event: Event)
    requires
        !k.undo_well_bound_spec(),
    ensures
        (k matches KeyAction::Press(_)) || (k matches KeyAction::Pressed(_)) ==> (k.act_spec(event)
            matches Some(a) ==> gate_spec(event, a) is None),
        (k matches KeyAction::HoldTap(_)) && event is Pressed ==> (k.act_spec(event) matches Some(
            a,
        ) ==> gate_spec(event, a) is None),
{
}

} // verus!
