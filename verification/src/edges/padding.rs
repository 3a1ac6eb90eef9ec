use super::edge::Edge;
use vstd::prelude::*;

verus! {

/// The space a node keeps free between its border and its children.
#[derive(Clone, Copy, Debug, PartialEq, Eq, Structural)]
pub struct Padding {
    pub left: u32,
    pub right: u32,
    pub top: u32,
    pub bottom: u32,
}

impl Edge for Padding {
    open spec fn spec_horizontal(&self) -> nat {
        (self.left + self.right) as nat
    }

    open spec fn spec_vertical(&self) -> nat {
        (self.bottom + self.top) as nat
    }

    fn horizontal(&self) -> (sum: u64) {
        let left: u64 = self.left as u64;
        let right: u64 = self.right as u64;
        left + right
    }

    fn vertical(&self) -> (sum: u64) {
        let bottom: u64 = self.bottom as u64;
        let top: u64 = self.top as u64;
        bottom + top
    }
}

impl Padding {
    /// The padding with all four offsets zero.
    pub open spec fn zero() -> Padding {
        Padding { left: 0, right: 0, top: 0, bottom: 0 }
    }

    /// The padding with the given offset on all four sides.
    pub open spec fn uniform(value: u32) -> Padding {
        Padding { left: value, right: value, top: value, bottom: value }
    }

    /// A padding with the same offset on all four sides.
    pub fn from_value(value: u32) -> (padding: Padding)
        ensures
            padding == Padding::uniform(value),
    {
        Padding { left: value, right: value, top: value, bottom: value }
    }

    /// The padding round the window: `background_padding` on all four
    /// sides where it is given, else the horizontal value left and right and
    /// the vertical value above and below.
    pub fn from_config(
        horizontal_background_padding: u32,
        vertical_background_padding: u32,
        background_padding: Option<u32>,
    ) -> (padding: Padding)
        ensures
            padding == match background_padding {
                Some(value) => Padding::uniform(value),
                None => (Padding {
                    left: horizontal_background_padding,
                    right: horizontal_background_padding,
                    top: vertical_background_padding,
                    bottom: vertical_background_padding,
                }),
            },
    {
        match background_padding {
            Some(padding) => Padding::from_value(padding),
            None => Padding {
                top: vertical_background_padding,
                bottom: vertical_background_padding,
                left: horizontal_background_padding,
                right: horizontal_background_padding,
            },
        }
    }
}

impl Default for Padding {
    fn default() -> (padding: Padding)
        ensures
            padding == Padding::zero(),
    {
        Padding { left: 0, right: 0, top: 0, bottom: 0 }
    }
}

} // verus!
