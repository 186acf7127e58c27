use rust_basics::polygon::{Circle, Point, Polygon, Shape};

fn round_two_digits(x: f64) -> f64 {
    (x * 100.0).round() / 100.0
}

fn magnitude(p: &Point) -> f64 {
    f64::from(p.squared_magnitude()).sqrt()
}

fn dist(a: &Point, b: Point) -> f64 {
    (a.squared_dist(b) as f64).sqrt()
}

fn perimeter(shape: &Shape) -> f64 {
    match shape {
        Shape::Polygon(poly) => poly.sides().iter().map(|(a, b)| dist(a, *b)).sum(),
        Shape::Circle(circle) => 2.0 * std::f64::consts::PI * f64::from(circle.radius()),
    }
}

#[test]
fn test_point_magnitude() {
    let p1 = Point::new(12, 13);
    assert_eq!(round_two_digits(magnitude(&p1)), 17.69);
}

#[test]
fn test_point_dist() {
    let p1 = Point::new(10, 10);
    let p2 = Point::new(14, 13);
    assert_eq!(round_two_digits(dist(&p1, p2)), 5.00);
}

#[test]
fn test_point_add() {
    let p1 = Point::new(16, 16);
    let p2 = p1 + Point::new(-4, 3);
    assert_eq!(p2, Point::new(12, 19));
}

#[test]
fn point_sub_takes_coordinates_apart() {
    let p = Point::new(16, 16) - Point::new(-4, 3);
    assert_eq!(p, Point::new(20, 13));
}

#[test]
fn squared_values_are_exact() {
    assert_eq!(Point::new(12, 13).squared_magnitude(), 313);
    assert_eq!(Point::new(10, 10).squared_dist(Point::new(14, 13)), 25);
    assert_eq!(Point::new(i32::MAX, 0).squared_dist(Point::new(0, 0)), (i32::MAX as u64) * (i32::MAX as u64));
}

#[test]
fn test_polygon_left_most_point() {
    let p1 = Point::new(12, 13);
    let p2 = Point::new(16, 16);

    let mut poly = Polygon::new();
    assert_eq!(poly.left_most_point(), None);
    poly.add_point(p1);
    poly.add_point(p2);
    assert_eq!(poly.left_most_point(), Some(p1));
}

#[test]
fn left_most_point_takes_the_first_of_equals() {
    let mut poly = Polygon::new();
    poly.add_point(Point::new(5, 1));
    poly.add_point(Point::new(3, 2));
    poly.add_point(Point::new(3, 9));
    poly.add_point(Point::new(4, 0));
    assert_eq!(poly.left_most_point(), Some(Point::new(3, 2)));
}

#[test]
fn test_polygon_iter() {
    let p1 = Point::new(12, 13);
    let p2 = Point::new(16, 16);

    let mut poly = Polygon::new();
    poly.add_point(p1);
    poly.add_point(p2);

    let points = poly.iter().cloned().collect::<Vec<_>>();
    assert_eq!(points, vec![Point::new(12, 13), Point::new(16, 16)]);
}

#[test]
fn sides_close_the_path() {
    let mut poly = Polygon::new();
    assert!(poly.sides().is_empty());
    poly.add_point(Point::new(1, 1));
    assert_eq!(poly.sides(), vec![(Point::new(1, 1), Point::new(1, 1))]);
    poly.add_point(Point::new(2, 3));
    poly.add_point(Point::new(4, 5));
    assert_eq!(
        poly.sides(),
        vec![
            (Point::new(1, 1), Point::new(2, 3)),
            (Point::new(2, 3), Point::new(4, 5)),
            (Point::new(4, 5), Point::new(1, 1)),
        ]
    );
}

#[test]
fn test_shape_perimeters() {
    let mut poly = Polygon::new();
    poly.add_point(Point::new(12, 13));
    poly.add_point(Point::new(17, 11));
    poly.add_point(Point::new(16, 16));
    let shapes = vec![
        Shape::Polygon(poly),
        Shape::Circle(Circle::new(Point::new(10, 20), 5)),
    ];
    let perimeters = shapes
        .iter()
        .map(perimeter)
        .map(round_two_digits)
        .collect::<Vec<_>>();
    assert_eq!(perimeters, vec![15.48, 31.42]);
}

#[test]
fn shapes_come_from_their_parts() {
    let circle = Circle::new(Point::new(1, 2), 3);
    match Shape::from(circle) {
        Shape::Circle(c) => {
            assert_eq!(c.radius(), 3);
            assert_eq!(c.center(), Point::new(1, 2));
        }
        Shape::Polygon(_) => panic!("expected a circle"),
    }
    let mut poly = Polygon::new();
    poly.add_point(Point::new(7, 8));
    match Shape::from(poly) {
        Shape::Polygon(p) => assert_eq!(p.left_most_point(), Some(Point::new(7, 8))),
        Shape::Circle(_) => panic!("expected a polygon"),
    }
}
