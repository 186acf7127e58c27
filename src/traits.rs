use vstd::prelude::*;
use crate::text::push_str;
use vstd::std_specs::convert::IntoSpec;
use vstd::string::to_string_from_display_ensures;

verus! {

/// An animal that answers to a name.
pub trait Pet {
    /// The name the pet answers to.
    spec fn name_spec(&self) -> Seq<char>;

    fn name(&self) -> (r: String)
        ensures
            r@ == self.name_spec(),
    ;
}

/// A dog, with a name of its own.
pub struct Dog {
    pub name: String,
}

/// A cat, which has no name.
pub struct Cat;

impl Pet for Dog {
    open spec fn name_spec(&self) -> Seq<char> {
        self.name@
    }

    fn name(&self) -> (r: String) {
        self.name.clone()
    }
}

impl Pet for Cat {
    open spec fn name_spec(&self) -> Seq<char> {
        "The cat"@
    }

    fn name(&self) -> (r: String) {
        "The cat".to_owned()
    }
}

/// How a pet is greeted: `Who's a cutie? <name> is!`.
pub fn greet<P: Pet>(pet: &P) -> (r: String)
    ensures
        r@ == "Who's a cutie? "@ + pet.name_spec() + " is!"@,
{
    let mut r = String::new();
    push_str(&mut r, "Who's a cutie? ");
    let name = pet.name();
    push_str(&mut r, name.as_str());
    push_str(&mut r, " is!");
    r
}

/// A comparison for equality, with its negation given once for all.
pub trait Equals {
    /// Whether the two values are equal.
    spec fn equal_spec(&self, other: &Self) -> bool;

    fn equal(&self, other: &Self) -> (r: bool)
        ensures
            r == self.equal_spec(other),
    ;

    fn not_equal(&self, other: &Self) -> (r: bool)
        ensures
            r == !self.equal_spec(other),
    {
        !self.equal(other)
    }
}

/// A length in whole centimetres.
#[derive(Debug)]
pub struct Centimeter(pub i16);

impl Equals for Centimeter {
    open spec fn equal_spec(&self, other: &Self) -> bool {
        self.0 == other.0
    }

    fn equal(&self, other: &Self) -> (r: bool) {
        self.0 == other.0
    }
}

/// Two clones of `a`.
pub fn duplicate<T: Clone>(a: T) -> (r: (T, T))
    ensures
        cloned(a, r.0),
        cloned(a, r.1),
{
    (a.clone(), a.clone())
}

/// The number that `x` converts to, plus 42 000 000.
pub fn add_42_millions<T>(x: T) -> (r: i32)
    where
        T: Into<i32>,
    requires
        T::obeys_into_spec(),
        x.into_spec() <= i32::MAX - 42_000_000,
    ensures
        r == x.into_spec() + 42_000_000,
{
    x.into() + 42_000_000
}

/// Applies `func` to `input`.
pub fn apply_with_log<F: FnOnce(i32) -> i32>(func: F, input: i32) -> (r: i32)
    requires
        func.requires((input,)),
    ensures
        func.ensures((input,), r),
{
    func(input)
}

/// The greeting for anything that can be displayed: `HEllo ` and its text.
pub fn get_x<T: std::fmt::Display>(name: T) -> (r: String)
    ensures
        exists|s: String| to_string_from_display_ensures::<T>(&name, s) && r@ == "HEllo "@ + s@,
{
    let shown = name.to_string();
    let mut r = String::new();
    push_str(&mut r, "HEllo ");
    push_str(&mut r, shown.as_str());
    r
}

/// The Fibonacci numbers: zero, one, and then each the sum of the two before.
pub open spec fn fib(n: nat) -> nat
    decreases n,
{
    if n == 0 {
        0
    } else if n == 1 {
        1
    } else {
        fib((n - 2) as nat) + fib((n - 1) as nat)
    }
}

/// A walk along the Fibonacci numbers.
pub struct Fibonacci {
    pub curr: u32,
    pub next: u32,
}

impl Fibonacci {
    /// Whether the walk stands at Fibonacci number `k`: `curr` is that number
    /// and `next` the one after it.
    pub open spec fn at(&self, k: nat) -> bool {
        self.curr == fib(k) && self.next == fib(k + 1)
    }

    /// The walk from the start: zero, then one.
    pub fn new() -> (r: Fibonacci)
        ensures
            r.at(0),
    {
        Fibonacci { curr: 0, next: 1 }
    }

    /// Steps to the next Fibonacci number and gives it.
    pub fn next(&mut self) -> (r: Option<u32>)
        requires
            old(self).curr + old(self).next <= u32::MAX,
        ensures
            final(self).curr == old(self).next,
            final(self).next == old(self).curr + old(self).next,
            r == Some(final(self).curr),
            forall|k: nat| old(self).at(k) ==> final(self).at(k + 1),
    {
        let new_next = self.curr + self.next;
        self.curr = self.next;
        self.next = new_next;
        Some(self.curr)
    }
}

/// The first six Fibonacci numbers after zero.
pub fn iterators() -> (r: Vec<u32>)
    ensures
        r@.len() == 6,
        forall|i: int| 0 <= i < 6 ==> r@[i] == fib((i + 1) as nat),
{
    let mut fib_walk = Fibonacci::new();
    let mut r: Vec<u32> = Vec::new();
    let mut i: usize = 0;
    while i < 6
        invariant
            i <= 6,
            fib_walk.at(i as nat),
            r@.len() == i,
            forall|j: int| 0 <= j < i ==> r@[j] == fib((j + 1) as nat),
        decreases 6 - i,
    {
        proof {
            lemma_fib_small(i as nat);
            assert(fib((i + 2) as nat) == fib(i as nat) + fib((i + 1) as nat));
        }
        let n = fib_walk.next();
        match n {
            Some(v) => r.push(v),
            None => {},
        }
        i = i + 1;
    }
    r
}

/// The Fibonacci numbers up to the eighth are at most 21.
proof fn lemma_fib_small(k: nat)
    requires
        k <= 6,
    ensures
        fib(k) + fib(k + 1) <= 21,
{
    reveal_with_fuel(fib, 9);
}

/// A user of a service.
#[derive(Debug, Clone, Default)]
pub struct User {
    pub id: u32,
    pub name: String,
}

/// A body to be sent as JSON.
#[derive(Debug, Clone, Copy, Default)]
pub struct Json<T>(pub T);

/// The answer when what was asked for does not exist.
#[derive(Debug)]
pub struct NotFoundError {
    pub msg: String,
}

/// The answer when the service itself failed.
#[derive(Debug)]
pub struct InternalError {
    pub msg: String,
}

/// An HTTP status code.
#[derive(Debug, Clone, Copy, PartialEq, Eq, Structural)]
pub struct StatusCode(pub u16);

/// The code of a request that succeeded.
pub const OK: u16 = 200;

/// The code of a request for something that does not exist.
pub const NOT_FOUND: u16 = 404;

/// A pairing of a status with a body that is sent as JSON.
pub trait ResponseJson<T> {
    fn response(code: StatusCode, body: T) -> (r: (StatusCode, Json<T>))
        ensures
            r.0 == code,
            r.1.0 == body,
    ;
}

impl<T, U> ResponseJson<T> for U {
    fn response(code: StatusCode, body: T) -> (r: (StatusCode, Json<T>)) {
        (code, Json(body))
    }
}

/// The answer of a service that finds user 1, `foo`, when `found` holds, and
/// otherwise reports that it was not found.
pub fn res(found: bool) -> (r: Result<(StatusCode, User), (StatusCode, NotFoundError)>)
    ensures
        found <==> r is Ok,
        r matches Ok((code, user)) ==> code == StatusCode(OK) && user.id == 1 && user.name@ == "foo"@,
        r matches Err((code, err)) ==> code == StatusCode(NOT_FOUND) && err.msg@ == "not found"@,
{
    let user = User { id: 1, name: "foo".to_owned() };
    let err_res = NotFoundError { msg: "not found".to_owned() };
    let backend = if found {
        Ok(user)
    } else {
        Err(err_res)
    };
    match backend {
        Ok(user) => Ok((StatusCode(OK), user)),
        Err(err) => Err((StatusCode(NOT_FOUND), err)),
    }
}

} // verus!
