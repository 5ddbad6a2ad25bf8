//! The room a frame leaves for a round dial.

use vstd::prelude::*;
use crate::canvas::{Frame, Size};

verus! {

/// Half the shorter side of a surface of `size`.
pub open spec fn radius_of(size: Size) -> u32 {
    if size.width <= size.height {
        size.width / 2
    } else {
        size.height / 2
    }
}

/// The radius of the largest circle that fits in `frame`.
pub fn radius(frame: &Frame) -> (r: u32)
    ensures
        r == radius_of(frame.spec_size()),
{
    let w = frame.width();
    let h = frame.height();
    if w <= h {
        w / 2
    } else {
        h / 2
    }
}

} // verus!
