use vstd::prelude::*;

verus! {

/// The number of characters in `s`.
pub fn count_chars(s: &str) -> (r: usize)
    ensures
        r == s@.len(),
{
    s.unicode_len()
}

/// Exchanges the two values.
pub fn swap(a: &mut u8, b: &mut u8)
    ensures
        *final(a) == *old(b),
        *final(b) == *old(a),
{
    let temp = *a;
    *a = *b;
    *b = temp;
}

} // verus!
