use vstd::prelude::*;

verus! {

/// A position in the pan. The coordinate type is left to the caller: the
/// optimiser uses floating-point coordinates, while the logic of this library
/// only moves points around without reading them.
#[derive(Clone, Copy, Debug, PartialEq)]
pub struct Point<T> {
    pub x: T,
    pub y: T,
}

impl<T> Point<T> {
    /// The point with the given coordinates.
    pub fn new(x: T, y: T) -> (r: Self)
        ensures
            r.x == x,
            r.y == y,
    {
        Point { x, y }
    }
}

} // verus!
