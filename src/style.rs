//! The two faces a bit control can show.
use vstd::prelude::*;

verus! {

/// Look of a control: light for a set bit, dark for a clear one.
#[derive(Clone, Copy, Debug, PartialEq, Eq, Structural)]
pub enum Theme {
    Light,
    Dark,
}

} // verus!
