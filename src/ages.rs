use vstd::prelude::*;

verus! {

/// An age counted in whole years.
pub struct Years(pub i64);

/// A span counted in days.
pub struct Days(pub i64);

impl Years {
    /// The number of days in this many years of 365 days.
    pub fn to_days(&self) -> (r: Days)
        requires
            i64::MIN <= self.0 * 365 <= i64::MAX,
        ensures
            r.0 == self.0 * 365,
    {
        Days(self.0 * 365)
    }
}

impl Days {
    /// The number of whole years of 365 days in this span, rounded toward zero.
    pub fn to_years(&self) -> (r: Years)
        ensures
            r.0 == (if self.0 >= 0 { self.0 / 365 } else { -((-self.0) / 365) }),
    {
        Years(self.0 / 365)
    }
}

/// Whether an age is at least eighteen years.
pub fn old_enough(age: &Years) -> (r: bool)
    ensures
        r == (age.0 >= 18),
{
    age.0 >= 18
}

} // verus!
