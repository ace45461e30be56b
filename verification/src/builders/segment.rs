//! Base builder method for segments.

use vstd::prelude::*;

use crate::builders::SegmentModifier;
use crate::builders::spec_apply_all;
use crate::builders::spec_base;
use crate::features::Segment;

verus! {

impl Segment {
    /// Construct a new segment from a collection of builder
    /// modifiers, applied to an entirely unmarked base segment in the
    /// order they are given (left to right). For cases where two
    /// modifiers touch the same field, the later one wins.
    pub fn new(builders: &[SegmentModifier], sym: char) -> (r: Segment)
        ensures
            r == spec_apply_all(builders@, spec_base(sym)),
    {
        crate::builders::SegmentBuilder::segment(builders, sym)
    }
}

} // verus!
