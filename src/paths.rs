use vstd::prelude::*;
use crate::text::{chars_equal, pieces_view, split, split_on};

verus! {

/// The single-segment pattern that matches any segment.
pub open spec fn wildcard() -> Seq<char> {
    seq!['*']
}

/// Whether a request path starts with the segments of a prefix, where a prefix
/// segment `*` stands for any one segment.
pub open spec fn prefix_matches_spec(prefix: Seq<char>, request_path: Seq<char>) -> bool {
    let ps = split(prefix, '/');
    let rs = split(request_path, '/');
    &&& ps.len() <= rs.len()
    &&& forall|i: int| 0 <= i < ps.len() ==> (#[trigger] rs[i] == ps[i] || ps[i] == wildcard())
}

/// Whether `request_path` starts with the `/`-separated segments of `prefix`;
/// a prefix segment `*` matches any one segment.
pub fn prefix_matches(prefix: &str, request_path: &str) -> (r: bool)
    ensures
        r == prefix_matches_spec(prefix@, request_path@),
{
    let ps = split_on(prefix, '/');
    let rs = split_on(request_path, '/');
    let star: Vec<char> = vec!['*'];
    let mut i: usize = 0;
    while i < ps.len()
        invariant
            pieces_view(ps@) == split(prefix@, '/'),
            pieces_view(rs@) == split(request_path@, '/'),
            star@ == wildcard(),
            i <= ps@.len(),
            i <= rs@.len(),
            forall|j: int| 0 <= j < i ==> (#[trigger] rs@[j]@ == ps@[j]@ || ps@[j]@ == wildcard()),
        decreases ps.len() - i,
    {
        if i >= rs.len() {
            return false;
        }
        if !chars_equal(&rs[i], &ps[i]) && !chars_equal(&ps[i], &star) {
            assert(pieces_view(rs@)[i as int] == rs@[i as int]@);
            assert(pieces_view(ps@)[i as int] == ps@[i as int]@);
            return false;
        }
        i = i + 1;
    }
    if i > rs.len() {
        return false;
    }
    proof {
        assert forall|j: int| 0 <= j < ps@.len() implies
            (#[trigger] split(request_path@, '/')[j] == split(prefix@, '/')[j]
            || split(prefix@, '/')[j] == wildcard()) by {
            assert(rs@[j]@ == ps@[j]@ || ps@[j]@ == wildcard());
            assert(pieces_view(rs@)[j] == rs@[j]@);
            assert(pieces_view(ps@)[j] == ps@[j]@);
        }
    }
    true
}

} // verus!
