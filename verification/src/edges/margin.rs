use super::edge::Edge;
use vstd::prelude::*;

verus! {

/// The space a node keeps free outside its own box.
#[derive(Clone, Copy, Debug, PartialEq, Eq, Structural)]
pub struct Margin {
    pub left: u32,
    pub right: u32,
    pub top: u32,
    pub bottom: u32,
}

impl Edge for Margin {
    open spec fn spec_horizontal(&self) -> nat {
        (self.left + self.right) as nat
    }

    open spec fn spec_vertical(&self) -> nat {
        (self.top + self.bottom) as nat
    }

    fn horizontal(&self) -> (sum: u64) {
        let left: u64 = self.left as u64;
        let right: u64 = self.right as u64;
        left + right
    }

    fn vertical(&self) -> (sum: u64) {
        let top: u64 = self.top as u64;
        let bottom: u64 = self.bottom as u64;
        top + bottom
    }
}

impl Margin {
    /// The margin with all four offsets zero.
    pub open spec fn zero() -> Margin {
        Margin { left: 0, right: 0, top: 0, bottom: 0 }
    }

    /// A margin with the same offset on all four sides.
    pub fn from_value(value: u32) -> (margin: Margin)
        ensures
            margin == (Margin { left: value, right: value, top: value, bottom: value }),
    {
        Margin { left: value, right: value, top: value, bottom: value }
    }
}

impl Default for Margin {
    fn default() -> (margin: Margin)
        ensures
            margin == Margin::zero(),
    {
        Margin { left: 0, right: 0, top: 0, bottom: 0 }
    }
}

} // verus!
