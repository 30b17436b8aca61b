use vstd::prelude::*;

use crate::event::Event;
use crate::function::Function;
use crate::handler::Handle;

verus! {

/// The hold/tap decision in the direct-dispatch handler style: `hold` fires
/// at the single tick the held run reaches `thold`, `tap` fires at the
/// release edge of a shorter press. The boundary law for this shape of
/// binding is `crate::action::holdtap::lemma_holdtap_boundary`; the decision
/// function here is the same one over `Function` instead of `Action`.
#[derive(Debug, Clone, Copy, PartialEq, Eq, Structural)]
pub struct HoldTap {
    pub thold: usize,
    pub hold: Function,
    pub tap: Function,
}

impl HoldTap {
    pub fn new(thold: usize, hold: Function, tap: Function) -> (h: HoldTap)
        ensures
            h == (HoldTap { thold, hold, tap }),
    {
        HoldTap { thold, hold, tap }
    }
}

impl Handle for HoldTap {
    open spec fn handle_spec(&self, event: Event) -> Option<Function> {
        match event {
            Event::Pressed(i) => if i == self.thold {
                Some(self.hold)
            } else {
                None
            },
            Event::Release(i) => if i < self.thold {
                Some(self.tap)
            } else {
                None
            },
            _ => None,
        }
    }

    fn handle(&self, event: &Event) -> (r: Option<Function>) {
        match event {
            Event::Pressed(i) if *i == self.thold => Some(self.hold),
            Event::Release(i) if *i < self.thold => Some(self.tap),
            _ => None,
        }
    }
}

} // verus!
