use vstd::prelude::*;

verus! {

/// Whether `w` is the first word of `text`: the part before its first space,
/// or the whole text where it has no space.
pub open spec fn is_first_word(text: Seq<char>, w: Seq<char>) -> bool {
    &&& w.len() <= text.len()
    &&& w == text.take(w.len() as int)
    &&& forall|i: int| 0 <= i < w.len() ==> #[trigger] w[i] != ' '
    &&& (w.len() == text.len() || text[w.len() as int] == ' ')
}

/// The part of `text` before its first space, or all of it where it has none.
pub fn first_word(text: &str) -> (r: &str)
    ensures
        is_first_word(text@, r@),
{
    let n = text.unicode_len();
    let mut i: usize = 0;
    while i < n && text.get_char(i) != ' '
        invariant
            n == text@.len(),
            i <= n,
            forall|j: int| 0 <= j < i ==> #[trigger] text@[j] != ' ',
        decreases n - i,
    {
        i = i + 1;
    }
    text.substring_char(0, i)
}

} // verus!
