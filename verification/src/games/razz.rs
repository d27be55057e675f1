use vstd::prelude::*;

verus! {

/// Markers for the lowball game razz, where the wheel is the best hand.
pub struct Razz;

impl Razz {
    /// The rank signature of the wheel: the ace plays low beside the
    /// five, four, trey and deuce.
    pub const WHEEL: u32 = 0b1_0000_0000_1111;
}

} // verus!
