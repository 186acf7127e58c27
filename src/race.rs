use vstd::prelude::*;

verus! {

/// The sum of the lap times.
pub open spec fn total(laps: Seq<i32>) -> int
    decreases laps.len(),
{
    if laps.len() == 0 {
        0
    } else {
        total(laps.drop_last()) + laps.last()
    }
}

/// Whether every running total of the lap times, from the first lap on, fits
/// in an `i32`.
pub open spec fn totals_fit(laps: Seq<i32>) -> bool {
    forall|k: int| 0 <= k <= laps.len() ==> i32::MIN <= #[trigger] total(laps.take(k)) <= i32::MAX
}

/// A race: a name and the lap times recorded so far, in seconds.
#[derive(Debug)]
pub struct Race {
    name: String,
    laps: Vec<i32>,
}

impl Race {
    /// The name.
    pub closed spec fn name_spec(&self) -> Seq<char> {
        self.name@
    }

    /// The lap times, in the order they were recorded.
    pub closed spec fn laps_spec(&self) -> Seq<i32> {
        self.laps@
    }

    pub fn new(name: &str) -> (r: Race)
        ensures
            r.name_spec() == name@,
            r.laps_spec() == Seq::<i32>::empty(),
    {
        Race { name: name.to_owned(), laps: Vec::new() }
    }

    pub fn add_lap(&mut self, lap: i32)
        ensures
            final(self).name_spec() == old(self).name_spec(),
            final(self).laps_spec() == old(self).laps_spec().push(lap),
    {
        self.laps.push(lap);
    }

    pub fn name(&self) -> (r: &str)
        ensures
            r@ == self.name_spec(),
    {
        self.name.as_str()
    }

    pub fn laps(&self) -> (r: &[i32])
        ensures
            r@ == self.laps_spec(),
    {
        self.laps.as_slice()
    }

    /// Ends the race and gives the total time of its laps.
    pub fn finish(self) -> (r: i32)
        requires
            totals_fit(self.laps_spec()),
        ensures
            r == total(self.laps_spec()),
    {
        let mut sum: i32 = 0;
        let mut i: usize = 0;
        while i < self.laps.len()
            invariant
                totals_fit(self.laps@),
                i <= self.laps@.len(),
                sum == total(self.laps@.take(i as int)),
            decreases self.laps.len() - i,
        {
            assert(self.laps@.take(i + 1).drop_last() =~= self.laps@.take(i as int));
            assert(i32::MIN <= total(self.laps@.take(i + 1)) <= i32::MAX);
            sum = sum + self.laps[i];
            i = i + 1;
        }
        assert(self.laps@.take(self.laps@.len() as int) =~= self.laps@);
        sum
    }
}

/// Runs a race of three laps, of 70, 55 and 35 seconds, and gives its total time.
pub fn fn_race() -> (r: i32)
    ensures
        r == 160,
{
    let mut race = Race::new("Monaco Grand Prix");
    race.add_lap(70);
    race.add_lap(55);
    race.add_lap(35);
    proof {
        let laps = race.laps_spec();
        assert(laps == seq![70i32, 55i32, 35i32]);
        assert(laps.take(0) =~= Seq::<i32>::empty());
        assert(laps.take(1).drop_last() =~= laps.take(0));
        assert(laps.take(2).drop_last() =~= laps.take(1));
        assert(laps.take(3).drop_last() =~= laps.take(2));
        assert(laps.take(3) =~= laps);
        assert(total(laps.take(0)) == 0);
        assert(laps.take(1).last() == 70i32);
        assert(laps.take(2).last() == 55i32);
        assert(laps.take(3).last() == 35i32);
        assert(total(laps.take(1)) == 70);
        assert(total(laps.take(2)) == 125);
        assert(total(laps) == 160);
        assert forall|k: int| 0 <= k <= laps.len() implies i32::MIN <= #[trigger] total(laps.take(k)) <= i32::MAX by {
            if k == 3 {
                assert(laps.take(k) == laps);
            }
        }
    }
    race.finish()
}

} // verus!
