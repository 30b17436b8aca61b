use vstd::prelude::*;

use crate::report::Report;

verus! {

/// The effect a simple handler fires: emit one report, or switch the active
/// layer directly to the given index.
#[derive(Debug, Clone, Copy, PartialEq, Eq, Structural)]
pub enum Function {
    Report(Report),
    Layer(usize),
}

} // verus!
