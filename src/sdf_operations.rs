//! The operators that merge an element of a field with everything before it.

use vstd::prelude::*;

verus! {

/// How an element's distance merges with the distance accumulated from the
/// elements before it: union keeps the smaller of the two, subtraction the
/// larger of the accumulated distance and the element's negated distance (the
/// element is cut out of what came before), intersection the larger.
#[derive(Clone, Copy, Debug, PartialEq, Eq, Structural)]
pub enum SDFOperators {
    /// A hard union of the two shapes.
    Union,
    /// The element cut out of the shape before it.
    Subtraction,
    /// A hard intersection of the two shapes.
    Intersection,
}

} // verus!
