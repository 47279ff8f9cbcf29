//! Angle value kept together with the bounds it is meant to stay within.
use vstd::prelude::*;

verus! {

/// An angle value together with its tolerated range.
pub struct BoundedAngle<T> {
    /// Actual angle value in °
    pub value: T,
    /// Min tolerated value in °
    pub min: T,
    /// Max value tolerated in °
    pub max: T,
}

impl<T: PartialOrd + PartialEq + Clone> BoundedAngle<T> {
    /// Builds a bounded angle whose value starts at the lower bound.
    pub fn new(min: T, max: T) -> (r: Self)
        ensures
            cloned(min, r.value),
            cloned(min, r.min),
            r.max == max,
    {
        BoundedAngle { value: min.clone(), min: min.clone(), max: max }
    }
}

} // verus!
