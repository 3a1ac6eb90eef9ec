use vstd::prelude::*;

verus! {

/// The spacing a box keeps on its four sides.
///
/// Every offset is a whole number of logical pixels, so the sum of two of
/// them always fits in a `u64`.
pub trait Edge {
    /// The left offset plus the right offset.
    spec fn spec_horizontal(&self) -> nat;

    /// The top offset plus the bottom offset.
    spec fn spec_vertical(&self) -> nat;

    fn horizontal(&self) -> (sum: u64)
        ensures
            sum == self.spec_horizontal(),
    ;

    fn vertical(&self) -> (sum: u64)
        ensures
            sum == self.spec_vertical(),
    ;
}

} // verus!
