use vstd::prelude::*;

verus! {

/// The pieces of `s` between occurrences of `sep`, as `str::split` yields them:
/// an empty text gives one empty piece, and a separator at either end gives an
/// empty piece there.
pub open spec fn split(s: Seq<char>, sep: char) -> Seq<Seq<char>>
    decreases s.len(),
{
    if s.len() == 0 {
        seq![Seq::empty()]
    } else {
        let prev = split(s.drop_last(), sep);
        if s.last() == sep {
            prev.push(Seq::empty())
        } else {
            prev.update(prev.len() - 1, prev.last().push(s.last()))
        }
    }
}

/// `split` always yields at least one piece.
pub proof fn lemma_split_nonempty(s: Seq<char>, sep: char)
    ensures
        split(s, sep).len() >= 1,
    decreases s.len(),
{
    if s.len() > 0 {
        lemma_split_nonempty(s.drop_last(), sep);
    }
}

/// The characters of each piece.
pub open spec fn pieces_view(v: Seq<Vec<char>>) -> Seq<Seq<char>> {
    v.map_values(|x: Vec<char>| x@)
}

/// The pieces of `s` between occurrences of `sep`.
pub fn split_on(s: &str, sep: char) -> (r: Vec<Vec<char>>)
    ensures
        pieces_view(r@) == split(s@, sep),
{
    let n = s.unicode_len();
    let mut segs: Vec<Vec<char>> = Vec::new();
    let mut cur: Vec<char> = Vec::new();
    let mut i: usize = 0;
    while i < n
        invariant
            n == s@.len(),
            i <= n,
            pieces_view(segs@).push(cur@) == split(s@.take(i as int), sep),
        decreases n - i,
    {
        let c = s.get_char(i);
        proof {
            lemma_split_nonempty(s@.take(i as int), sep);
            assert(s@.take(i as int + 1).drop_last() == s@.take(i as int));
            assert(s@.take(i as int + 1).last() == c);
        }
        let ghost before = pieces_view(segs@).push(cur@);
        if c == sep {
            let done = cur;
            segs.push(done);
            cur = Vec::new();
            assert(pieces_view(segs@) =~= before);
            assert(pieces_view(segs@).push(cur@) =~= before.push(Seq::empty()));
        } else {
            cur.push(c);
            assert(pieces_view(segs@).push(cur@) =~= before.update(before.len() - 1, before.last().push(c)));
        }
        i = i + 1;
    }
    assert(s@.take(n as int) == s@);
    let ghost before = pieces_view(segs@).push(cur@);
    segs.push(cur);
    assert(pieces_view(segs@) =~= before);
    segs
}

/// Whether two character sequences are equal.
pub fn chars_equal(a: &Vec<char>, b: &Vec<char>) -> (r: bool)
    ensures
        r == (a@ == b@),
{
    if a.len() != b.len() {
        return false;
    }
    let mut i: usize = 0;
    while i < a.len()
        invariant
            a@.len() == b@.len(),
            i <= a@.len(),
            forall|j: int| 0 <= j < i ==> a@[j] == b@[j],
        decreases a.len() - i,
    {
        if a[i] != b[i] {
            return false;
        }
        i = i + 1;
    }
    assert(a@ == b@);
    true
}

/// The parts one after another.
pub open spec fn concat(parts: Seq<Seq<char>>) -> Seq<char>
    decreases parts.len(),
{
    if parts.len() == 0 {
        Seq::empty()
    } else {
        concat(parts.drop_last()) + parts.last()
    }
}

/// The concatenation of the first `i + 1` parts adds part `i` to that of the first `i`.
pub proof fn lemma_concat_step(parts: Seq<Seq<char>>, i: int)
    requires
        0 <= i < parts.len(),
    ensures
        concat(parts.take(i + 1)) == concat(parts.take(i)) + parts[i],
{
    assert(parts.take(i + 1).drop_last() =~= parts.take(i));
}

/// The character of a decimal digit.
pub open spec fn digit_char(d: nat) -> char {
    seq!['0', '1', '2', '3', '4', '5', '6', '7', '8', '9'][d as int]
}

/// The decimal digits of `n`, without leading zeros.
pub open spec fn digits(n: nat) -> Seq<char>
    decreases n,
{
    if n < 10 {
        seq![digit_char(n)]
    } else {
        digits(n / 10).push(digit_char(n % 10))
    }
}

/// `n` written in decimal, with a leading `-` where it is negative.
pub open spec fn decimal(n: int) -> Seq<char> {
    if n < 0 {
        seq!['-'] + digits((-n) as nat)
    } else {
        digits(n as nat)
    }
}

/// Relies on the `Display` of `i64`, through `ToString::to_string`: the decimal
/// digits, after a `-` for a negative number.
#[verifier::external_body]
pub(crate) fn decimal_string(n: i64) -> (r: String)
    ensures
        r@ == decimal(n as int),
{
    n.to_string()
}

/// Appends the characters of `s`.
pub fn push_str(buffer: &mut String, s: &str)
    ensures
        final(buffer)@ == old(buffer)@ + s@,
{
    let chars = to_chars(s);
    push_chars(buffer, &chars);
}

/// A line without the carriage return that ends it, if any.
pub open spec fn strip_cr(l: Seq<char>) -> Seq<char> {
    if l.len() > 0 && l.last() == '\r' {
        l.drop_last()
    } else {
        l
    }
}

/// The lines of `s`, as `str::lines` yields them: the text is cut at each
/// `\n`, a `\r` just before a `\n` is dropped, and a final empty piece (the
/// whole of an empty text, or what follows a final `\n`) is no line.
pub open spec fn lines(s: Seq<char>) -> Seq<Seq<char>> {
    let ps = split(s, '\n');
    let init = ps.drop_last().map_values(|p: Seq<char>| strip_cr(p));
    if ps.last().len() == 0 {
        init
    } else {
        init.push(ps.last())
    }
}

/// The length of the longest of `ls`, or zero where there is none.
pub open spec fn widest(ls: Seq<Seq<char>>) -> nat
    decreases ls.len(),
{
    if ls.len() == 0 {
        0
    } else {
        let m = widest(ls.drop_last());
        if ls.last().len() > m {
            ls.last().len()
        } else {
            m
        }
    }
}

/// `n` copies of `c`.
pub open spec fn repeat(c: char, n: nat) -> Seq<char> {
    Seq::new(n, |i: int| c)
}

/// `s` centred in a field of `w` characters, as `{:^w$}` formats it: of the
/// spaces that fill the field, the smaller half goes to the left.
pub open spec fn center(s: Seq<char>, w: nat) -> Seq<char> {
    if s.len() >= w {
        s
    } else {
        let pad = (w - s.len()) as nat;
        repeat(' ', pad / 2) + s + repeat(' ', (pad - pad / 2) as nat)
    }
}

/// `s` left-aligned in a field of `w` characters, as `{:w$}` formats it.
pub open spec fn pad_right(s: Seq<char>, w: nat) -> Seq<char> {
    if s.len() >= w {
        s
    } else {
        s + repeat(' ', (w - s.len()) as nat)
    }
}

/// The characters of `s`.
pub fn to_chars(s: &str) -> (r: Vec<char>)
    ensures
        r@ == s@,
{
    let n = s.unicode_len();
    let mut r: Vec<char> = Vec::new();
    let mut i: usize = 0;
    while i < n
        invariant
            n == s@.len(),
            i <= n,
            r@ == s@.take(i as int),
        decreases n - i,
    {
        r.push(s.get_char(i));
        i = i + 1;
        assert(r@ =~= s@.take(i as int));
    }
    assert(s@.take(n as int) =~= s@);
    r
}

/// The first `n` characters of `v`.
fn copy_prefix(v: &Vec<char>, n: usize) -> (r: Vec<char>)
    requires
        n <= v@.len(),
    ensures
        r@ == v@.take(n as int),
{
    let mut r: Vec<char> = Vec::new();
    let mut i: usize = 0;
    while i < n
        invariant
            n <= v@.len(),
            i <= n,
            r@ == v@.take(i as int),
        decreases n - i,
    {
        r.push(v[i]);
        i = i + 1;
        assert(r@ =~= v@.take(i as int));
    }
    r
}

/// The lines of `s`; see `lines`.
pub fn text_lines(s: &str) -> (r: Vec<Vec<char>>)
    ensures
        pieces_view(r@) == lines(s@),
{
    let ps = split_on(s, '\n');
    proof {
        lemma_split_nonempty(s@, '\n');
    }
    let k = ps.len() - 1;
    let ghost all = split(s@, '\n');
    let ghost init = all.drop_last().map_values(|p: Seq<char>| strip_cr(p));
    assert(all.len() == ps@.len());
    assert(init.len() == k);
    let mut r: Vec<Vec<char>> = Vec::new();
    let mut i: usize = 0;
    while i < k
        invariant
            pieces_view(ps@) == all,
            k + 1 == ps@.len(),
            all.len() == k + 1,
            init.len() == k,
            init == all.drop_last().map_values(|p: Seq<char>| strip_cr(p)),
            i <= k,
            pieces_view(r@) == init.take(i as int),
        decreases k - i,
    {
        let p = &ps[i];
        let n = p.len();
        let line = if n > 0 && p[n - 1] == '\r' {
            let l = copy_prefix(p, n - 1);
            assert(p@.take(n - 1) =~= p@.drop_last());
            l
        } else {
            let l = copy_prefix(p, n);
            assert(p@.take(n as int) =~= p@);
            l
        };
        proof {
            assert(pieces_view(ps@)[i as int] == p@);
            assert(line@ == strip_cr(p@));
            assert(init[i as int] == strip_cr(all[i as int]));
        }
        let ghost before = pieces_view(r@);
        r.push(line);
        assert(pieces_view(r@) =~= before.push(line@));
        assert(pieces_view(r@) =~= init.take(i + 1));
        i = i + 1;
    }
    assert(init.take(k as int) =~= init);
    let last = &ps[k];
    assert(pieces_view(ps@)[k as int] == last@);
    if last.len() > 0 {
        let line = copy_prefix(last, last.len());
        assert(last@.take(last@.len() as int) =~= last@);
        let ghost before = pieces_view(r@);
        r.push(line);
        assert(pieces_view(r@) =~= before.push(line@));
    }
    r
}

/// The length of the longest of `ls`, or zero where there is none.
pub fn widest_of(ls: &Vec<Vec<char>>) -> (r: usize)
    ensures
        r == widest(pieces_view(ls@)),
{
    let mut m: usize = 0;
    let mut i: usize = 0;
    while i < ls.len()
        invariant
            i <= ls@.len(),
            m == widest(pieces_view(ls@).take(i as int)),
        decreases ls.len() - i,
    {
        let ghost pre = pieces_view(ls@).take(i as int);
        assert(pieces_view(ls@).take(i + 1).drop_last() =~= pre);
        assert(pieces_view(ls@)[i as int] == ls@[i as int]@);
        if ls[i].len() > m {
            m = ls[i].len();
        }
        i = i + 1;
    }
    assert(pieces_view(ls@).take(ls@.len() as int) =~= pieces_view(ls@));
    m
}

/// Relies on `String::push`: the character is appended at the end.
#[verifier::external_body]
pub(crate) fn push_char(buffer: &mut String, c: char)
    ensures
        final(buffer)@ == old(buffer)@.push(c),
{
    buffer.push(c)
}

/// Appends the characters of `v`.
pub fn push_chars(buffer: &mut String, v: &Vec<char>)
    ensures
        final(buffer)@ == old(buffer)@ + v@,
{
    let mut i: usize = 0;
    while i < v.len()
        invariant
            i <= v@.len(),
            buffer@ == old(buffer)@ + v@.take(i as int),
        decreases v.len() - i,
    {
        push_char(buffer, v[i]);
        i = i + 1;
        assert(buffer@ =~= old(buffer)@ + v@.take(i as int));
    }
    assert(v@.take(v@.len() as int) =~= v@);
}

/// Appends `n` copies of `c`.
pub fn push_repeat(buffer: &mut String, c: char, n: usize)
    ensures
        final(buffer)@ == old(buffer)@ + repeat(c, n as nat),
{
    let mut i: usize = 0;
    while i < n
        invariant
            i <= n,
            buffer@ == old(buffer)@ + repeat(c, i as nat),
        decreases n - i,
    {
        push_char(buffer, c);
        i = i + 1;
        assert(buffer@ =~= old(buffer)@ + repeat(c, i as nat));
    }
}

/// Appends `v` centred in a field of `w` characters.
pub fn push_centered(buffer: &mut String, v: &Vec<char>, w: usize)
    ensures
        final(buffer)@ == old(buffer)@ + center(v@, w as nat),
{
    if v.len() >= w {
        push_chars(buffer, v);
    } else {
        let pad = w - v.len();
        push_repeat(buffer, ' ', pad / 2);
        push_chars(buffer, v);
        push_repeat(buffer, ' ', pad - pad / 2);
        assert(buffer@ =~= old(buffer)@ + center(v@, w as nat));
    }
}

/// Appends `v` left-aligned in a field of `w` characters.
pub fn push_left(buffer: &mut String, v: &Vec<char>, w: usize)
    ensures
        final(buffer)@ == old(buffer)@ + pad_right(v@, w as nat),
{
    push_chars(buffer, v);
    if v.len() < w {
        push_repeat(buffer, ' ', w - v.len());
    }
    assert(buffer@ =~= old(buffer)@ + pad_right(v@, w as nat));
}

} // verus!
