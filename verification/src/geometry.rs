use vstd::prelude::*;

verus! {

/// A two-component numeric pair with value semantics and no identity.
///
/// Two instantiations are used: a signed one for a cell's offset relative to
/// a piece's local origin (offsets can be negative), and an unsigned one for
/// a piece's anchor on the board (board cells are never negative).
#[derive(Copy, Clone, Debug)]
pub struct Point2D<T> {
    pub x: T,
    pub y: T,
}

impl<T> Point2D<T> {
    pub fn new(x: T, y: T) -> (p: Point2D<T>)
        ensures
            p.x == x,
            p.y == y,
    {
        Point2D { x, y }
    }
}

} // verus!
