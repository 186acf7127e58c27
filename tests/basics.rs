use rust_basics::ages::{old_enough, Days, Years};
use rust_basics::array_for_loops;
use rust_basics::basics::{
    coin_from, compute_digest, destructure_array, destructure_struct, destructure_tuple, divide_in_two, flip_coin, greeting, inspect,
    left_most, match_guards, method, pattern_matching, transpose, variant_payloads, CoinFlip,
    Division, Foo, Person, Point, WebEvent,
};

#[test]
fn test_transpose() {
    let matrix = [
        [101, 102, 103], //
        [201, 202, 203],
        [301, 302, 303],
    ];
    let transposed = transpose(&matrix);

    assert_eq!(
        transposed,
        [
            [101, 201, 301], //
            [102, 202, 302],
            [103, 203, 303],
        ]
    )
}

#[test]
fn transpose_by_value_agrees() {
    let matrix = [[1, 2, 3], [4, 5, 6], [7, 8, 9]];
    assert_eq!(array_for_loops::transpose(matrix), [[1, 4, 7], [2, 5, 8], [3, 6, 9]]);
    assert_eq!(array_for_loops::transpose(matrix), transpose(&matrix));
}

#[test]
fn digest_values() {
    assert_eq!(compute_digest(""), [42, 42, 42]);
    assert_eq!(compute_digest("Hello"), [222, 254, 150]);
    assert_eq!(compute_digest("zzzz"), [30, 164, 164]);
}

#[test]
fn left_most_keeps_the_greater_first_coordinate() {
    let a = Point(10, 10);
    let b = Point(20, 20);
    assert_eq!(*left_most(&a, &b), b);
    assert_eq!(*left_most(&b, &a), b);
    let c = Point(20, 0);
    assert_eq!(*left_most(&b, &c), c);
}

#[test]
fn ages_convert() {
    assert_eq!(Years(5).to_days().0, 1825);
    assert_eq!(Days(1825).to_years().0, 5);
    assert_eq!(Days(-400).to_years().0, -1);
    assert!(!old_enough(&Years(17)));
    assert!(old_enough(&Years(18)));
    assert!(!old_enough(&Years(5).to_days().to_years()));
}

#[test]
fn coins() {
    assert_eq!(flip_coin(), CoinFlip::Heads);
    assert_eq!(coin_from(7), CoinFlip::Tails);
    assert_eq!(coin_from(-3), CoinFlip::Tails);
    assert_eq!(coin_from(-4), CoinFlip::Heads);
}

#[test]
fn events_are_reported() {
    assert_eq!(inspect(WebEvent::PageLoad), "page loaded");
    assert_eq!(inspect(WebEvent::KeyPress('q')), "pressed 'q'");
    assert_eq!(inspect(WebEvent::Click { x: -3, y: 0 }), "clicked at x=-3, y=0");
    assert_eq!(
        variant_payloads(),
        vec!["page loaded", "pressed 'x'", "clicked at x=20, y=80"]
    );
}

#[test]
fn halving() {
    match divide_in_two(10) {
        Division::Half(h) => assert_eq!(h, 5),
        Division::Uneven(_) => panic!("10 is even"),
    }
    match divide_in_two(-6) {
        Division::Half(h) => assert_eq!(h, -3),
        Division::Uneven(_) => panic!("-6 is even"),
    }
    match divide_in_two(101) {
        Division::Uneven(msg) => assert_eq!(msg, "cannot divide 101 into two equal parts"),
        Division::Half(_) => panic!("101 is odd"),
    }
}

#[test]
fn people_greet() {
    let p = Person::default();
    assert_eq!(p.name, "Default_Name");
    assert_eq!(p.age, 0);
    assert_eq!(p.say_hello(), "Hello, my name is Default_Name");
    assert_eq!(method(), "Hello, my name is Peter");
    assert_eq!(greeting("Ada"), "Hello, Ada!");
}

#[test]
fn keys_are_classified() {
    assert_eq!(pattern_matching('q'), "Quitting");
    assert_eq!(pattern_matching('w'), "Moving around");
    assert_eq!(pattern_matching('9'), "Number input");
    assert_eq!(pattern_matching('Q'), "Something else");
}

#[test]
fn pairs_are_described() {
    assert_eq!(match_guards((3, 3)), "These are twins");
    assert_eq!(match_guards((2, -2)), "Antimatter, kaboom!");
    assert_eq!(match_guards((i32::MIN, i32::MAX)), "No correlation...");
    assert_eq!(match_guards((5, 1)), "The first one is odd");
    assert_eq!(match_guards((-5, 1)), "No correlation...");
}

#[test]
fn foo_is_taken_apart() {
    assert_eq!(destructure_struct(Foo { x: (1, 2), y: 4 }), 4);
    assert_eq!(destructure_struct(Foo { x: (3, 7), y: 2 }), 7);
    assert_eq!(destructure_struct(Foo { x: (3, 7), y: 9 }), 9);
}

#[test]
fn arrays_are_taken_apart() {
    assert_eq!(destructure_tuple([0, -2, -3]), "First is 0, y = -2, and z = -3");
    assert_eq!(destructure_tuple([1, 5, 6]), "First is 1 and the rest were ignored");
    assert_eq!(destructure_tuple([2, 0, 1]), "All elements were ignored");
    assert_eq!(destructure_array([2, -2, 3, 1]), "Last is 1 and the rest were ignored");
    assert_eq!(destructure_array([0, 7, 8, 1]), "First is 0, y = 7, and z = 8");
    assert_eq!(destructure_array([1, 0, 0, 1]), "First is 1 and the rest were ignored");
    assert_eq!(destructure_array([2, 2, 2, 2]), "All elements were ignored");
}
