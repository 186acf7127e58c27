use vstd::prelude::*;
use vstd::string::StringSliceAdditionalSpecFns;
use crate::text::{decimal, decimal_string, push_char, push_str};

verus! {

/// A 3 × 3 matrix, row by row.
pub type Matrix = [[i32; 3]; 3];

/// Whether `t` is the transpose of `m`: the entry of `t` at row `i`, column
/// `j` is that of `m` at row `j`, column `i`.
pub open spec fn is_transpose(m: Matrix, t: Matrix) -> bool {
    forall|i: int, j: int| 0 <= i < 3 && 0 <= j < 3 ==> #[trigger] t[i][j] == m[j][i]
}

/// The transpose of a 3 × 3 matrix.
pub fn transpose(matrix: &Matrix) -> (r: Matrix)
    ensures
        is_transpose(*matrix, r),
{
    let mut result: Matrix = [[0; 3]; 3];
    let mut i: usize = 0;
    while i < 3
        invariant
            0 <= i <= 3,
            forall|a: int, b: int| 0 <= a < 3 && 0 <= b < i ==> #[trigger] result[a][b] == matrix[b][a],
        decreases 3 - i,
    {
        let mut j: usize = 0;
        while j < 3
            invariant
                0 <= i < 3,
                0 <= j <= 3,
                forall|a: int, b: int| 0 <= a < 3 && 0 <= b < i ==> #[trigger] result[a][b] == matrix[b][a],
                forall|a: int| 0 <= a < j ==> #[trigger] result[a][i as int] == matrix[i as int][a],
            decreases 3 - j,
        {
            let mut row = result[j];
            row[i] = matrix[i][j];
            result[j] = row;
            j = j + 1;
        }
        i = i + 1;
    }
    result
}

/// The number of bytes in a digest.
pub const DIGEST_SIZE: usize = 3;

/// The digest of `bytes`: three bytes that start at 42, to which each byte of
/// the input is added in turn, wrapping around, the byte at position `i`
/// going to the digest byte at position `i % 3`.
pub open spec fn digest_of(bytes: Seq<u8>) -> Seq<u8>
    decreases bytes.len(),
{
    if bytes.len() == 0 {
        seq![42u8, 42u8, 42u8]
    } else {
        let d = digest_of(bytes.drop_last());
        let k = (bytes.len() - 1) % 3;
        d.update(k, ((d[k] + bytes.last()) % 256) as u8)
    }
}

/// The digest is always three bytes long.
pub proof fn lemma_digest_len(bytes: Seq<u8>)
    ensures
        digest_of(bytes).len() == 3,
    decreases bytes.len(),
{
    if bytes.len() > 0 {
        lemma_digest_len(bytes.drop_last());
    }
}

/// The digest of the UTF-8 bytes of `test_str`.
pub fn compute_digest(test_str: &str) -> (r: [u8; DIGEST_SIZE])
    ensures
        r@ == digest_of(test_str.spec_bytes()),
{
    let bytes = test_str.as_bytes();
    let mut digest: [u8; DIGEST_SIZE] = [42; DIGEST_SIZE];
    let mut idx: usize = 0;
    assert(digest@ =~= digest_of(bytes@.take(0)));
    while idx < bytes.len()
        invariant
            bytes@ == test_str.spec_bytes(),
            idx <= bytes@.len(),
            digest@ == digest_of(bytes@.take(idx as int)),
        decreases bytes.len() - idx,
    {
        proof {
            lemma_digest_len(bytes@.take(idx as int));
            assert(bytes@.take(idx + 1).drop_last() =~= bytes@.take(idx as int));
        }
        let k = idx % DIGEST_SIZE;
        let b = bytes[idx];
        digest[k] = digest[k].wrapping_add(b);
        idx = idx + 1;
        assert(digest@ =~= digest_of(bytes@.take(idx as int)));
    }
    assert(bytes@.take(bytes@.len() as int) =~= bytes@);
    digest
}

/// A point given by its two coordinates.
#[derive(Copy, Clone, Debug, PartialEq, Eq, Structural)]
pub struct Point(pub i32, pub i32);

/// Of two points, the one whose first coordinate is strictly greater, and the
/// second one on a tie.
pub fn left_most<'a>(p1: &'a Point, p2: &'a Point) -> (r: &'a Point)
    ensures
        *r == if p1.0 > p2.0 { *p1 } else { *p2 },
{
    if p1.0 > p2.0 {
        p1
    } else {
        p2
    }
}

/// A person, with a name and an age in years.
#[derive(Debug)]
pub struct Person {
    pub name: String,
    pub age: u8,
}

impl Default for Person {
    fn default() -> (r: Self)
        ensures
            r.name@ == "Default_Name"@,
            r.age == 0,
    {
        Person { name: "Default_Name".to_owned(), age: 0 }
    }
}

impl Person {
    /// The person's greeting: `Hello, my name is ` and the name.
    pub fn say_hello(&self) -> (r: String)
        ensures
            r@ == "Hello, my name is "@ + self.name@,
    {
        let mut r = String::new();
        push_str(&mut r, "Hello, my name is ");
        push_str(&mut r, self.name.as_str());
        r
    }
}

/// Peter's greeting.
pub fn method() -> (r: String)
    ensures
        r@ == "Hello, my name is "@ + "Peter"@,
{
    let peter = Person { name: "Peter".to_owned(), age: 27 };
    peter.say_hello()
}

/// The side a coin falls on.
#[derive(Debug, PartialEq, Eq, Structural, Clone, Copy)]
pub enum CoinFlip {
    Heads,
    Tails,
}

/// The side for a drawn number: heads for an even one, tails for an odd one.
pub fn coin_from(random_number: i32) -> (r: CoinFlip)
    ensures
        r == if random_number % 2 == 0 { CoinFlip::Heads } else { CoinFlip::Tails },
{
    if random_number % 2 == 0 {
        CoinFlip::Heads
    } else {
        CoinFlip::Tails
    }
}

/// A flip with the fixed number 4 standing for a drawn one: heads.
pub fn flip_coin() -> (r: CoinFlip)
    ensures
        r == CoinFlip::Heads,
{
    coin_from(4)
}

/// Something that happened on a web page.
#[derive(Debug, PartialEq, Eq, Structural, Clone, Copy)]
pub enum WebEvent {
    PageLoad,
    KeyPress(char),
    Click { x: i64, y: i64 },
}

/// What an event is reported as.
pub open spec fn event_text(event: WebEvent) -> Seq<char> {
    match event {
        WebEvent::PageLoad => "page loaded"@,
        WebEvent::KeyPress(c) => "pressed '"@ + seq![c, '\''],
        WebEvent::Click { x, y } => "clicked at x="@ + decimal(x as int) + ", y="@ + decimal(y as int),
    }
}

/// The report of an event.
pub fn inspect(event: WebEvent) -> (r: String)
    ensures
        r@ == event_text(event),
{
    let mut r = String::new();
    match event {
        WebEvent::PageLoad => {
            push_str(&mut r, "page loaded");
        },
        WebEvent::KeyPress(c) => {
            push_str(&mut r, "pressed '");
            push_char(&mut r, c);
            push_char(&mut r, '\'');
            assert(r@ =~= "pressed '"@ + seq![c, '\'']);
        },
        WebEvent::Click { x, y } => {
            push_str(&mut r, "clicked at x=");
            let xs = decimal_string(x);
            push_str(&mut r, xs.as_str());
            push_str(&mut r, ", y=");
            let ys = decimal_string(y);
            push_str(&mut r, ys.as_str());
        },
    }
    r
}

/// The reports of a page load, a press of `x`, and a click at (20, 80).
pub fn variant_payloads() -> (r: Vec<String>)
    ensures
        r@.len() == 3,
        r@[0]@ == event_text(WebEvent::PageLoad),
        r@[1]@ == event_text(WebEvent::KeyPress('x')),
        r@[2]@ == event_text(WebEvent::Click { x: 20, y: 80 }),
{
    let load = WebEvent::PageLoad;
    let press = WebEvent::KeyPress('x');
    let click = WebEvent::Click { x: 20, y: 80 };
    let mut r: Vec<String> = Vec::new();
    r.push(inspect(load));
    r.push(inspect(press));
    r.push(inspect(click));
    r
}

/// The outcome of halving a number.
#[derive(Debug)]
pub enum Division {
    Half(i32),
    Uneven(String),
}

/// Half of `n` where `n` is even; otherwise a message that names `n`.
pub fn divide_in_two(n: i32) -> (r: Division)
    ensures
        n % 2 == 0 <==> r is Half,
        r matches Division::Half(h) ==> h * 2 == n,
        r matches Division::Uneven(msg) ==> msg@ == "cannot divide "@ + decimal(n as int) + " into two equal parts"@,
{
    if n % 2 == 0 {
        Division::Half(n / 2)
    } else {
        let mut msg = String::new();
        push_str(&mut msg, "cannot divide ");
        let ns = decimal_string(n as i64);
        push_str(&mut msg, ns.as_str());
        push_str(&mut msg, " into two equal parts");
        Division::Uneven(msg)
    }
}

/// What a key stands for: `q` quits, `a`, `s`, `w` and `d` move, a digit is
/// a number, and anything else is something else.
pub fn pattern_matching(input: char) -> (r: &'static str)
    ensures
        r@ == if input == 'q' {
            "Quitting"@
        } else if input == 'a' || input == 's' || input == 'w' || input == 'd' {
            "Moving around"@
        } else if '0' <= input && input <= '9' {
            "Number input"@
        } else {
            "Something else"@
        },
{
    match input {
        'q' => "Quitting",
        'a' | 's' | 'w' | 'd' => "Moving around",
        '0'..='9' => "Number input",
        _ => "Something else",
    }
}

/// What a pair of numbers is: twins when equal, antimatter when they sum to
/// zero, and otherwise whether the first is odd (a positive odd number, as
/// `x % 2 == 1` sees it) or unrelated.
pub fn match_guards(pair: (i32, i32)) -> (r: &'static str)
    ensures
        r@ == if pair.0 == pair.1 {
            "These are twins"@
        } else if pair.0 + pair.1 == 0 {
            "Antimatter, kaboom!"@
        } else if pair.0 > 0 && pair.0 % 2 == 1 {
            "The first one is odd"@
        } else {
            "No correlation..."@
        },
{
    match pair {
        (x, y) if x == y => "These are twins",
        (x, y) if x as i64 + y as i64 == 0 => "Antimatter, kaboom!",
        (x, _) if x % 2 == 1 => "The first one is odd",
        _ => "No correlation...",
    }
}

/// A pair and a number, to take apart by patterns.
#[derive(Debug, Clone, Copy)]
pub struct Foo {
    pub x: (u32, u32),
    pub y: u32,
}

/// `y` where the pair starts with 1; otherwise the pair's second number where
/// `y` is 2; otherwise `y`.
pub fn destructure_struct(foo: Foo) -> (r: u32)
    ensures
        r == if foo.x.0 == 1 { foo.y } else if foo.y == 2 { foo.x.1 } else { foo.y },
{
    match foo {
        Foo { x: (1, _), y } => y,
        Foo { y: 2, x: i } => i.1,
        Foo { y, .. } => y,
    }
}

/// The report on an array that starts with 0, then `y` and `z`.
pub open spec fn zero_first_text(y: i32, z: i32) -> Seq<char> {
    "First is 0, y = "@ + decimal(y as int) + ", and z = "@ + decimal(z as int)
}

/// Appends the report on an array that starts with 0, then `y` and `z`.
fn push_zero_first(buffer: &mut String, y: i32, z: i32)
    ensures
        final(buffer)@ == old(buffer)@ + zero_first_text(y, z),
{
    push_str(buffer, "First is 0, y = ");
    let ys = decimal_string(y as i64);
    push_str(buffer, ys.as_str());
    push_str(buffer, ", and z = ");
    let zs = decimal_string(z as i64);
    push_str(buffer, zs.as_str());
    assert(buffer@ =~= old(buffer)@ + zero_first_text(y, z));
}

/// What the patterns `[0, y, z]`, `[1, ..]` and `_` make of three numbers.
pub fn destructure_tuple(triple: [i32; 3]) -> (r: String)
    ensures
        r@ == if triple[0] == 0 {
            zero_first_text(triple[1], triple[2])
        } else if triple[0] == 1 {
            "First is 1 and the rest were ignored"@
        } else {
            "All elements were ignored"@
        },
{
    let mut r = String::new();
    if triple[0] == 0 {
        push_zero_first(&mut r, triple[1], triple[2]);
    } else if triple[0] == 1 {
        push_str(&mut r, "First is 1 and the rest were ignored");
    } else {
        push_str(&mut r, "All elements were ignored");
    }
    r
}

/// What the patterns `[0, y, z, ..]`, `[1, ..]`, `[.., 1]` and `_` make of
/// four numbers.
pub fn destructure_array(array: [i32; 4]) -> (r: String)
    ensures
        r@ == if array[0] == 0 {
            zero_first_text(array[1], array[2])
        } else if array[0] == 1 {
            "First is 1 and the rest were ignored"@
        } else if array[3] == 1 {
            "Last is 1 and the rest were ignored"@
        } else {
            "All elements were ignored"@
        },
{
    let mut r = String::new();
    if array[0] == 0 {
        push_zero_first(&mut r, array[1], array[2]);
    } else if array[0] == 1 {
        push_str(&mut r, "First is 1 and the rest were ignored");
    } else if array[3] == 1 {
        push_str(&mut r, "Last is 1 and the rest were ignored");
    } else {
        push_str(&mut r, "All elements were ignored");
    }
    r
}

/// The greeting for `name`: `Hello, <name>!`.
pub fn greeting(name: &str) -> (r: String)
    ensures
        r@ == "Hello, "@ + name@ + seq!['!'],
{
    let mut r = String::new();
    push_str(&mut r, "Hello, ");
    push_str(&mut r, name);
    push_char(&mut r, '!');
    r
}

} // verus!
