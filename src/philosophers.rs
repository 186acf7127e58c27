use vstd::prelude::*;
use crate::text::push_str;

verus! {

/// A philosopher at the table, known by name.
pub struct Philosopher {
    pub name: String,
}

impl Philosopher {
    /// The thought the philosopher shares: `Eureka! <name> has a new idea!`.
    pub fn think(&self) -> (r: String)
        ensures
            r@ == "Eureka! "@ + self.name@ + " has a new idea!"@,
    {
        let mut r = String::new();
        push_str(&mut r, "Eureka! ");
        push_str(&mut r, self.name.as_str());
        push_str(&mut r, " has a new idea!");
        r
    }
}

/// The forks that the philosopher at `seat` of `n` takes, in the order taken:
/// the fork at its own place, then the one at the next place round the table;
/// the last philosopher takes them the other way round, which breaks the
/// symmetry that could deadlock the table.
pub fn fork_pair(seat: usize, n: usize) -> (r: (usize, usize))
    requires
        seat < n,
    ensures
        r == if seat == n - 1 { (((seat + 1) % n as int) as usize, seat) } else { (seat, ((seat + 1) % n as int) as usize) },
        r.0 < n && r.1 < n,
        n >= 2 ==> r.0 < r.1,
{
    let left = seat;
    let right = (seat + 1) % n;
    if seat == n - 1 {
        assert(right == 0) by {
            vstd::arithmetic::div_mod::lemma_mod_self_0(n as int);
        }
        (right, left)
    } else {
        assert(right == seat + 1) by {
            vstd::arithmetic::div_mod::lemma_small_mod((seat + 1) as nat, n as nat);
        }
        (left, right)
    }
}

} // verus!
