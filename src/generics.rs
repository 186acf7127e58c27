use vstd::prelude::*;

verus! {

/// A point whose two coordinates share one type.
#[derive(Debug)]
pub struct Point<T> {
    pub x: T,
    pub y: T,
}

/// A pair of coordinates of one type, by position.
#[derive(Debug)]
pub struct PointA<T>(pub T, pub T);

impl<T> PointA<T> {
    /// The first coordinate.
    pub fn x(&self) -> (r: &T)
        ensures
            *r == self.0,
    {
        &self.0
    }

    /// The second coordinate.
    pub fn y(&self) -> (r: &T)
        ensures
            *r == self.1,
    {
        &self.1
    }

    /// Replaces the first coordinate.
    pub fn set_x(&mut self, x: T)
        ensures
            final(self).0 == x,
            final(self).1 == old(self).1,
    {
        self.0 = x
    }
}

} // verus!
