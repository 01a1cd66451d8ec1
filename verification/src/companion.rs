//! The companion firmware role: a node that an app drives over BLE.
use vstd::prelude::*;

verus! {

/// The companion role.
pub struct Companion {}

impl Companion {
    /// A companion node.
    pub fn new() -> (r: Self)
        ensures
            r == (Companion {}),
    {
        Companion {}
    }
}

} // verus!
