use vstd::prelude::*;

verus! {

/// One second of WWVB transmission.
#[derive(Clone, Copy, Debug, PartialEq, Eq, Structural)]
pub enum Symbol {
    Low,
    High,
    Mark,
}

} // verus!
