use vstd::prelude::*;

use crate::action::{Act, Action};
use crate::event::Event;

verus! {

/// A dual-purpose binding: `hold` fires at the single tick at which the held
/// run reaches `thold`; `tap` fires at the release edge if the key never
/// stayed held that long. At most one of the two fires per press/release
/// cycle, and the decision is made at an edge tick only (see
/// `lemma_holdtap_boundary`).
#[derive(Debug, Clone, Copy, PartialEq, Eq, Structural)]
pub struct HoldTap {
    pub thold: usize,
    pub hold: Action,
    pub tap: Action,
}

impl HoldTap {
    pub fn new(thold: usize, hold: Action, tap: Action) -> (h: HoldTap)
        ensures
            h == (HoldTap { thold, hold, tap }),
    {
        HoldTap { thold, hold, tap }
    }
}

impl Act for HoldTap {
    open spec fn act_spec(&self, event: Event) -> Option<Action> {
        match event {
            Event::Pressed(i) => if i == self.thold {
                Some(self.hold)
            } else {
                None
            },
            Event::Release(i) => if i < self.thold {
                Some(self.tap)
            } else {
                None
            },
            _ => None,
        }
    }

    fn act(&self, event: &Event) -> (r: Option<Action>) {
        match event {
            Event::Pressed(i) if *i == self.thold => Some(self.hold),
            Event::Release(i) if *i < self.thold => Some(self.tap),
            _ => None,
        }
    }
}

/// The events one full press/release cycle of a key presents to its binding:
/// the press edge, `d` steady held ticks counting up from 1, and the release
/// edge carrying the held duration `d`. This is exactly what a `Debouncer`
/// emits over a committed press followed by a committed release.
pub open spec fn cycle_events(p: usize, d: usize) -> Seq<Event> {
    Seq::new(
        (d + 2) as nat,
        |j: int|
            if j == 0 {
                Event::Press(p)
            } else if j <= d {
                Event::Pressed(j as usize)
            } else {
                Event::Release(d)
            },
    )
}

/// With threshold 0 a hold-tap binding never fires at all over a full
/// cycle: held run counts start at 1, so the hold arm's threshold tick
/// never occurs, and no release duration lies below 0 for the tap arm.
/// This is why the boundary law below asks for a threshold of at least 1.
pub proof fn lemma_holdtap_zero_threshold(ht: HoldTap, p: usize, d: usize)
    requires
        ht.thold == 0,
    ensures
        forall|j: int|
            0 <= j < cycle_events(p, d).len() ==> #[trigger] ht.act_spec(cycle_events(p, d)[j])
                is None,
{
}

/// Law: the tap/hold boundary. Over one full press/release cycle of held
/// duration `d`, a hold-tap binding with threshold at least 1 fires exactly
/// once: the `hold` action at the tick the held run reaches the threshold if
/// the key stayed held that long, the `tap` action at the release edge
/// otherwise — never both, and never at any other tick.
pub proof fn lemma_holdtap_boundary(ht: HoldTap, p: usize, d: usize)
    requires
        ht.thold >= 1,
    ensures
        d >= ht.thold ==> ht.act_spec(cycle_events(p, d)[ht.thold as int]) == Some(ht.hold),
        d < ht.thold ==> ht.act_spec(cycle_events(p, d)[d + 1]) == Some(ht.tap),
        forall|j: int|
            0 <= j < cycle_events(p, d).len() && j != (if d >= ht.thold {
                ht.thold as int
            } else {
                d + 1
            }) ==> #[trigger] ht.act_spec(cycle_events(p, d)[j]) is None,
{
}

} // verus!
