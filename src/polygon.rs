use vstd::prelude::*;
use vstd::arithmetic::div_mod::{lemma_mod_self_0, lemma_small_mod};
use vstd::std_specs::iter::IteratorSpec;

verus! {

/// A point of the integer plane.
#[derive(Debug, PartialEq, Eq, Structural, Copy, Clone)]
pub struct Point {
    pub x: i32,
    pub y: i32,
}

impl Point {
    pub fn new(x: i32, y: i32) -> (r: Self)
        ensures
            r.x == x,
            r.y == y,
    {
        Self { x, y }
    }

    /// The square of the distance from the origin; the magnitude is its square root.
    pub fn squared_magnitude(&self) -> (r: i32)
        requires
            self.x * self.x + self.y * self.y <= i32::MAX,
        ensures
            r == self.x * self.x + self.y * self.y,
    {
        proof {
            assert(0 <= self.x * self.x) by (nonlinear_arith);
            assert(0 <= self.y * self.y) by (nonlinear_arith);
        }
        self.x * self.x + self.y * self.y
    }

    /// The square of the distance to `p`; the distance is its square root.
    pub fn squared_dist(&self, p: Point) -> (r: u64)
        requires
            i32::MIN <= p.x - self.x <= i32::MAX,
            i32::MIN <= p.y - self.y <= i32::MAX,
        ensures
            r == (p.x - self.x) * (p.x - self.x) + (p.y - self.y) * (p.y - self.y),
    {
        let dx = p.x - self.x;
        let dy = p.y - self.y;
        let ax: u64 = if dx < 0 { (-(dx as i64)) as u64 } else { dx as u64 };
        let ay: u64 = if dy < 0 { (-(dy as i64)) as u64 } else { dy as u64 };
        proof {
            assert(ax * ax == dx * dx) by (nonlinear_arith)
                requires ax == dx || ax == -dx;
            assert(ay * ay == dy * dy) by (nonlinear_arith)
                requires ay == dy || ay == -dy;
            assert(ax * ax <= 0x4000_0000_0000_0000) by (nonlinear_arith)
                requires ax <= 0x8000_0000;
            assert(ay * ay <= 0x4000_0000_0000_0000) by (nonlinear_arith)
                requires ay <= 0x8000_0000;
        }
        ax * ax + ay * ay
    }
}

impl std::ops::Add for Point {
    type Output = Self;

    fn add(self, other: Self) -> (r: Self::Output) {
        Self { x: self.x + other.x, y: self.y + other.y }
    }
}

impl vstd::std_specs::ops::AddSpecImpl for Point {
    open spec fn obeys_add_spec() -> bool {
        true
    }

    /// Both sums of coordinates fit in an `i32`.
    open spec fn add_req(self, other: Point) -> bool {
        &&& i32::MIN <= self.x + other.x <= i32::MAX
        &&& i32::MIN <= self.y + other.y <= i32::MAX
    }

    /// The point whose coordinates are the sums of the two points' coordinates.
    open spec fn add_spec(self, other: Point) -> Point {
        Point { x: (self.x + other.x) as i32, y: (self.y + other.y) as i32 }
    }
}

impl std::ops::Sub for Point {
    type Output = Self;

    fn sub(self, other: Self) -> (r: Self::Output) {
        Self { x: self.x - other.x, y: self.y - other.y }
    }
}

impl vstd::std_specs::ops::SubSpecImpl for Point {
    open spec fn obeys_sub_spec() -> bool {
        true
    }

    /// Both differences of coordinates fit in an `i32`.
    open spec fn sub_req(self, other: Point) -> bool {
        &&& i32::MIN <= self.x - other.x <= i32::MAX
        &&& i32::MIN <= self.y - other.y <= i32::MAX
    }

    /// The point whose coordinates are the differences of the two points' coordinates.
    open spec fn sub_spec(self, other: Point) -> Point {
        Point { x: (self.x - other.x) as i32, y: (self.y - other.y) as i32 }
    }
}

/// A closed path through points, in the order they were added.
pub struct Polygon {
    points: Vec<Point>,
}

impl View for Polygon {
    type V = Seq<Point>;

    closed spec fn view(&self) -> Seq<Point> {
        self.points@
    }
}

/// Whether `i` is the first position of a point with the least horizontal
/// coordinate in `s`.
pub open spec fn is_first_leftmost(s: Seq<Point>, i: int) -> bool {
    &&& 0 <= i < s.len()
    &&& forall|j: int| 0 <= j < s.len() ==> s[i].x <= #[trigger] s[j].x
    &&& forall|j: int| 0 <= j < i ==> s[i].x < #[trigger] s[j].x
}

/// The sides of the closed path through `s`: each point to the next, and the
/// last back to the first.
pub open spec fn sides_of(s: Seq<Point>) -> Seq<(Point, Point)> {
    Seq::new(s.len(), |i: int| (s[i], s[(i + 1) % (s.len() as int)]))
}

impl Polygon {
    pub fn new() -> (r: Self)
        ensures
            r@ == Seq::<Point>::empty(),
    {
        Polygon { points: Vec::new() }
    }

    pub fn add_point(&mut self, point: Point)
        ensures
            final(self)@ == old(self)@.push(point),
    {
        self.points.push(point)
    }

    /// The first of the points with the least horizontal coordinate, if any.
    pub fn left_most_point(&self) -> (r: Option<Point>)
        ensures
            r is None <==> self@.len() == 0,
            r matches Some(p) ==> exists|i: int| is_first_leftmost(self@, i) && self@[i] == p,
    {
        if self.points.len() == 0 {
            return None;
        }
        let mut best: usize = 0;
        let mut i: usize = 1;
        while i < self.points.len()
            invariant
                1 <= i <= self.points@.len(),
                best < i,
                forall|j: int| 0 <= j < i ==> self.points@[best as int].x <= #[trigger] self.points@[j].x,
                forall|j: int| 0 <= j < best ==> self.points@[best as int].x < #[trigger] self.points@[j].x,
            decreases self.points.len() - i,
        {
            if self.points[i].x < self.points[best].x {
                best = i;
            }
            i = i + 1;
        }
        assert(is_first_leftmost(self@, best as int));
        Some(self.points[best])
    }

    /// The points, in order.
    pub fn iter(&self) -> (r: std::slice::Iter<'_, Point>)
        ensures
            r.remaining() == self@.as_ref(),
    {
        self.points.iter()
    }

    /// The sides of the closed path: each point to the next, and the last back
    /// to the first; the perimeter is the sum of their lengths.
    pub fn sides(&self) -> (r: Vec<(Point, Point)>)
        ensures
            r@ == sides_of(self@),
    {
        let n = self.points.len();
        let mut r: Vec<(Point, Point)> = Vec::new();
        let mut i: usize = 0;
        while i < n
            invariant
                n == self.points@.len(),
                i <= n,
                r@ == sides_of(self@).take(i as int),
            decreases n - i,
        {
            let next = if i + 1 == n { 0 } else { i + 1 };
            proof {
                if i + 1 < n {
                    lemma_small_mod((i + 1) as nat, n as nat);
                } else {
                    lemma_mod_self_0(n as int);
                }
            }
            r.push((self.points[i], self.points[next]));
            i = i + 1;
            assert(r@ =~= sides_of(self@).take(i as int));
        }
        assert(sides_of(self@).take(n as int) =~= sides_of(self@));
        r
    }
}

/// A circle given by its centre and radius.
pub struct Circle {
    center: Point,
    radius: i32,
}

impl Circle {
    /// The centre.
    pub closed spec fn center_spec(&self) -> Point {
        self.center
    }

    /// The radius.
    pub closed spec fn radius_spec(&self) -> int {
        self.radius as int
    }

    pub fn new(center: Point, radius: i32) -> (r: Self)
        ensures
            r.center_spec() == center,
            r.radius_spec() == radius,
    {
        Circle { center, radius }
    }

    pub fn center(&self) -> (r: Point)
        ensures
            r == self.center_spec(),
    {
        self.center
    }

    pub fn radius(&self) -> (r: i32)
        ensures
            r == self.radius_spec(),
    {
        self.radius
    }
}

/// A polygon or a circle.
pub enum Shape {
    Polygon(Polygon),
    Circle(Circle),
}

impl From<Polygon> for Shape {
    fn from(polygon: Polygon) -> (r: Self) {
        Shape::Polygon(polygon)
    }
}

impl vstd::std_specs::convert::FromSpecImpl<Polygon> for Shape {
    open spec fn obeys_from_spec() -> bool {
        true
    }

    open spec fn from_spec(polygon: Polygon) -> Shape {
        Shape::Polygon(polygon)
    }
}

impl From<Circle> for Shape {
    fn from(circle: Circle) -> (r: Self) {
        Shape::Circle(circle)
    }
}

impl vstd::std_specs::convert::FromSpecImpl<Circle> for Shape {
    open spec fn obeys_from_spec() -> bool {
        true
    }

    open spec fn from_spec(circle: Circle) -> Shape {
        Shape::Circle(circle)
    }
}

} // verus!
