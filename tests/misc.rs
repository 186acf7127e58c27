use rust_basics::generics::PointA;
use rust_basics::library;
use rust_basics::philosophers::{fork_pair, Philosopher};
use rust_basics::race::{fn_race, Race};
use rust_basics::traits::{
    add_42_millions, apply_with_log, duplicate, get_x, greet, iterators, res, Cat, Centimeter,
    Dog, Equals, Fibonacci, Pet, ResponseJson, StatusCode, NOT_FOUND, OK,
};
use rust_basics::unsafes::{count_chars, swap};
use rust_basics::username::{username_from, ReadUsernameError};

#[test]
fn race_totals() {
    assert_eq!(fn_race(), 160);
    let mut race = Race::new("Test");
    race.add_lap(-5);
    race.add_lap(12);
    assert_eq!(race.name(), "Test");
    assert_eq!(race.laps(), &[-5, 12]);
    assert_eq!(race.finish(), 7);
    assert_eq!(Race::new("Empty").finish(), 0);
}

#[test]
fn book_is_shown_with_its_year() {
    let book = library::Book::new("A sample book", 1985);
    assert_eq!(book.to_string(), "A sample book (1985)");
    assert_eq!(library::Book::new("", 0).to_string(), " (0)");
    let mut lib = library::Library::new();
    lib.add_book(book);
    assert_eq!(lib.books.len(), 1);
}

#[test]
fn philosophers_share_thoughts_and_forks() {
    let p = Philosopher { name: String::from("Plato") };
    assert_eq!(p.think(), "Eureka! Plato has a new idea!");
    assert_eq!(fork_pair(0, 5), (0, 1));
    assert_eq!(fork_pair(3, 5), (3, 4));
    assert_eq!(fork_pair(4, 5), (0, 4));
    assert_eq!(fork_pair(0, 1), (0, 0));
}

#[test]
fn generic_point_accessors() {
    let mut p = PointA(5, 10);
    assert_eq!((*p.x(), *p.y()), (5, 10));
    p.set_x(8);
    assert_eq!((*p.x(), *p.y()), (8, 10));
}

#[test]
fn pets_and_traits() {
    let fido = Dog { name: String::from("Fido") };
    assert_eq!(fido.name(), "Fido");
    assert_eq!(greet(&fido), "Who's a cutie? Fido is!");
    assert_eq!(greet(&Cat), "Who's a cutie? The cat is!");
    let a = Centimeter(10);
    let b = Centimeter(20);
    assert!(!a.equal(&b));
    assert!(a.not_equal(&b));
    assert!(a.equal(&Centimeter(10)));
    assert_eq!(duplicate(String::from("foo")), (String::from("foo"), String::from("foo")));
    assert_eq!(add_42_millions(42_i8), 42_000_042);
    assert_eq!(add_42_millions(10_000_000), 52_000_000);
    assert_eq!(apply_with_log(|x| x + 3, 10), 13);
    assert_eq!(get_x(1), "HEllo 1");
}

#[test]
fn fibonacci_walk() {
    assert_eq!(iterators(), vec![1, 1, 2, 3, 5, 8]);
    let mut f = Fibonacci::new();
    f.next();
    f.next();
    assert_eq!(f.next(), Some(2));
    assert_eq!((f.curr, f.next), (2, 3));
}

#[test]
fn responses() {
    match res(true) {
        Ok((code, user)) => {
            assert_eq!(code, StatusCode(OK));
            assert_eq!(user.id, 1);
            assert_eq!(user.name, "foo");
        }
        Err(_) => panic!("expected a user"),
    }
    match res(false) {
        Err((code, err)) => {
            assert_eq!(code, StatusCode(NOT_FOUND));
            assert_eq!(err.msg, "not found");
        }
        Ok(_) => panic!("expected an error"),
    }
    let (code, body) = <() as ResponseJson<u8>>::response(StatusCode(201), 7);
    assert_eq!(code, StatusCode(201));
    assert_eq!(body.0, 7);
}

#[test]
fn chars_and_swaps() {
    assert_eq!(count_chars("🗻∈"), 2);
    assert_eq!(count_chars(""), 0);
    let mut a = 42;
    let mut b = 66;
    swap(&mut a, &mut b);
    assert_eq!((a, b), (66, 42));
}

#[test]
fn usernames() {
    assert_eq!(username_from("p", Ok(String::from("alice"))).unwrap(), "alice");
    match username_from("conf.dat", Ok(String::new())) {
        Err(ReadUsernameError::EmptyUsername(p)) => assert_eq!(p, "conf.dat"),
        other => panic!("unexpected {other:?}"),
    }
    let err = std::io::Error::new(std::io::ErrorKind::NotFound, "gone");
    match username_from("p", Err(err)) {
        Err(ReadUsernameError::IoError(e)) => assert_eq!(e.kind(), std::io::ErrorKind::NotFound),
        other => panic!("unexpected {other:?}"),
    }
}
