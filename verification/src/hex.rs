//! Axial hexagonal coordinates, the six directions and the six relative
//! angles, computed by the `hex2d` crate.

use vstd::prelude::*;

verus! {

/// Largest absolute value of a coordinate component for which the
/// number of steps between any two hexes is computed within 32 bits:
/// the sum of the three absolute differences is at most eight times
/// this, which is the largest multiple of eight below two to the 31.
pub const COORD_LIMIT: i32 = 268_435_455;

/// A hex of the lattice, in axial coordinates.
#[derive(Clone, Copy, Debug, PartialEq, Eq, Hash, Structural)]
pub struct Coordinate {
    pub x: i32,
    pub y: i32,
}

/// One of the six directions in which a hex has a neighbour, clockwise.
#[derive(Clone, Copy, Debug, PartialEq, Eq, Hash, Structural)]
pub enum Direction {
    YZ,
    XZ,
    XY,
    ZY,
    ZX,
    YX,
}

/// A turn relative to a direction, in steps of sixty degrees clockwise.
#[derive(Clone, Copy, Debug, PartialEq, Eq, Hash, Structural)]
pub enum Angle {
    Forward,
    Right,
    RightBack,
    Back,
    LeftBack,
    Left,
}

/// The non-negative remainder of `i` divided by six.
pub open spec fn sixth(i: int) -> int {
    i % 6
}

/// The absolute value of `i`.
pub open spec fn magnitude(i: int) -> int {
    if i < 0 {
        -i
    } else {
        i
    }
}

impl Direction {
    /// The place of this direction in the clockwise order, from 0 to 5.
    pub open spec fn index(self) -> int {
        match self {
            Direction::YZ => 0,
            Direction::XZ => 1,
            Direction::XY => 2,
            Direction::ZY => 3,
            Direction::ZX => 4,
            Direction::YX => 5,
        }
    }

    /// The direction whose place in the clockwise order is `sixth(i)`.
    pub open spec fn at(i: int) -> Direction {
        let k = sixth(i);
        if k == 0 {
            Direction::YZ
        } else if k == 1 {
            Direction::XZ
        } else if k == 2 {
            Direction::XY
        } else if k == 3 {
            Direction::ZY
        } else if k == 4 {
            Direction::ZX
        } else {
            Direction::YX
        }
    }

    /// The change of the `x` component on one step in this direction.
    pub open spec fn dx(self) -> int {
        match self {
            Direction::YZ => 0,
            Direction::XZ => 1,
            Direction::XY => 1,
            Direction::ZY => 0,
            Direction::ZX => -1,
            Direction::YX => -1,
        }
    }

    /// The change of the `y` component on one step in this direction.
    pub open spec fn dy(self) -> int {
        match self {
            Direction::YZ => 1,
            Direction::XZ => 0,
            Direction::XY => -1,
            Direction::ZY => -1,
            Direction::ZX => 0,
            Direction::YX => 1,
        }
    }

    /// This direction after a turn by `angle`.
    pub open spec fn turned(self, angle: Angle) -> Direction {
        Direction::at(self.index() + angle.index())
    }

    /// The place of this direction in the clockwise order.
    pub fn to_int(&self) -> (i: i32)
        ensures
            i == self.index(),
            0 <= i < 6,
    {
        match self {
            Direction::YZ => 0,
            Direction::XZ => 1,
            Direction::XY => 2,
            Direction::ZY => 3,
            Direction::ZX => 4,
            Direction::YX => 5,
        }
    }

    /// The direction at place `i` of the clockwise order.
    fn from_index(i: i32) -> (d: Direction)
        requires
            0 <= i < 6,
        ensures
            d == Direction::at(i as int),
            d.index() == i,
    {
        if i == 0 {
            Direction::YZ
        } else if i == 1 {
            Direction::XZ
        } else if i == 2 {
            Direction::XY
        } else if i == 3 {
            Direction::ZY
        } else if i == 4 {
            Direction::ZX
        } else {
            Direction::YX
        }
    }

    /// The direction that a rotation counter stands for: the counter is
    /// taken modulo six, so that every integer names a direction.
    pub fn from_int(rotation: i32) -> (d: Direction)
        ensures
            d == Direction::at(rotation as int),
    {
        Direction::from_index(direction_index(rotation))
    }

    /// This direction after a turn by `angle`.
    pub fn turn(self, angle: Angle) -> (d: Direction)
        ensures
            d == self.turned(angle),
    {
        Direction::from_index(turn_index(self.to_int(), angle.to_int()))
    }
}

impl Angle {
    /// The number of sixty-degree steps clockwise, from 0 to 5.
    pub open spec fn index(self) -> int {
        match self {
            Angle::Forward => 0,
            Angle::Right => 1,
            Angle::RightBack => 2,
            Angle::Back => 3,
            Angle::LeftBack => 4,
            Angle::Left => 5,
        }
    }

    /// The angle of `sixth(i)` steps clockwise.
    pub open spec fn at(i: int) -> Angle {
        let k = sixth(i);
        if k == 0 {
            Angle::Forward
        } else if k == 1 {
            Angle::Right
        } else if k == 2 {
            Angle::RightBack
        } else if k == 3 {
            Angle::Back
        } else if k == 4 {
            Angle::LeftBack
        } else {
            Angle::Left
        }
    }

    /// The number of sixty-degree steps clockwise.
    pub fn to_int(&self) -> (i: i32)
        ensures
            i == self.index(),
            0 <= i < 6,
    {
        match self {
            Angle::Forward => 0,
            Angle::Right => 1,
            Angle::RightBack => 2,
            Angle::Back => 3,
            Angle::LeftBack => 4,
            Angle::Left => 5,
        }
    }

    /// The angle that a rotation counter stands for, the counter taken
    /// modulo six.
    pub fn from_int(rotation: i32) -> (a: Angle)
        ensures
            a == Angle::at(rotation as int),
    {
        let i = angle_index(rotation);
        if i == 0 {
            Angle::Forward
        } else if i == 1 {
            Angle::Right
        } else if i == 2 {
            Angle::RightBack
        } else if i == 3 {
            Angle::Back
        } else if i == 4 {
            Angle::LeftBack
        } else {
            Angle::Left
        }
    }
}

impl Coordinate {
    /// The centre of the lattice.
    pub open spec fn origin() -> Coordinate {
        Coordinate { x: 0, y: 0 }
    }

    /// Whether both components are within `COORD_LIMIT` of zero.
    pub open spec fn in_bounds(self) -> bool {
        &&& -COORD_LIMIT <= self.x <= COORD_LIMIT
        &&& -COORD_LIMIT <= self.y <= COORD_LIMIT
    }

    /// Whether every neighbour of the hex has components of 32 bits.
    pub open spec fn steps_fit(self) -> bool {
        &&& i32::MIN < self.x < i32::MAX
        &&& i32::MIN < self.y < i32::MAX
    }

    /// The third cube component, which makes the three sum to zero.
    pub open spec fn z(self) -> int {
        -self.x - self.y
    }

    /// The neighbouring hex in direction `d`.
    pub open spec fn moved(self, d: Direction) -> Coordinate {
        Coordinate { x: (self.x + d.dx()) as i32, y: (self.y + d.dy()) as i32 }
    }

    /// The number of steps between two hexes.
    pub open spec fn span(self, other: Coordinate) -> int {
        (magnitude(self.x - other.x) + magnitude(self.y - other.y) + magnitude(
            self.z() - other.z(),
        )) / 2
    }

    /// The number of steps from the centre of the lattice.
    pub open spec fn reach(self) -> int {
        self.span(Coordinate::origin())
    }

    pub fn new(x: i32, y: i32) -> (c: Coordinate)
        ensures
            c == (Coordinate { x, y }),
    {
        Coordinate { x, y }
    }

    /// Whether both components are within `COORD_LIMIT` of zero.
    pub fn is_in_bounds(&self) -> (b: bool)
        ensures
            b == self.in_bounds(),
    {
        -COORD_LIMIT <= self.x && self.x <= COORD_LIMIT && -COORD_LIMIT <= self.y && self.y
            <= COORD_LIMIT
    }

    /// The neighbouring hex in direction `d`.
    pub fn neighbor(&self, d: Direction) -> (c: Coordinate)
        requires
            self.steps_fit(),
        ensures
            c == self.moved(d),
            c.x == self.x + d.dx(),
            c.y == self.y + d.dy(),
    {
        let (x, y) = step(self.x, self.y, d.to_int());
        Coordinate { x, y }
    }

    /// The number of steps between two hexes. Both are kept within
    /// `COORD_LIMIT`, so that the sum of the three differences fits 32
    /// bits.
    pub fn distance(&self, other: Coordinate) -> (n: i32)
        requires
            self.in_bounds(),
            other.in_bounds(),
        ensures
            n == self.span(other),
    {
        distance_between(self.x, self.y, other.x, other.y)
    }

    /// Every hex at most `radius` steps from this one, each once. The
    /// hex and the radius are kept within `COORD_LIMIT`, so that the
    /// components of every hex on the way are far from the ends of the
    /// 32-bit range.
    pub fn range(&self, radius: i32) -> (hexes: Vec<Coordinate>)
        requires
            self.in_bounds(),
            0 <= radius <= COORD_LIMIT,
        ensures
            hexes@.no_duplicates(),
            forall|c: Coordinate| hexes@.contains(c) <==> self.span(c) <= radius,
    {
        range_around(*self, radius)
    }

    /// Every hex exactly `radius` steps from this one, each once. The
    /// hex and the radius are kept within `COORD_LIMIT`, so that the
    /// components of every hex on the way are far from the ends of the
    /// 32-bit range.
    pub fn ring(&self, radius: i32) -> (hexes: Vec<Coordinate>)
        requires
            self.in_bounds(),
            0 <= radius <= COORD_LIMIT,
        ensures
            hexes@.no_duplicates(),
            forall|c: Coordinate| hexes@.contains(c) <==> self.span(c) == radius,
    {
        ring_around(*self, radius)
    }
}

/// The number of steps between hexes is a metric: it is zero only
/// from a hex to itself, the same in both directions, and never
/// shortened by a detour.
pub proof fn lemma_span_is_metric(a: Coordinate, b: Coordinate, c: Coordinate)
    ensures
        a.span(b) >= 0,
        a.span(b) == 0 <==> a == b,
        a.span(b) == b.span(a),
        a.span(c) <= a.span(b) + b.span(c),
{
}

/// A neighbour is one step away, and the neighbour's neighbour in the
/// opposite direction is the hex itself.
pub proof fn lemma_neighbor_is_one_step(c: Coordinate, d: Direction)
    requires
        c.steps_fit(),
    ensures
        c.span(c.moved(d)) == 1,
        c.moved(d).moved(d.turned(Angle::Back)) == c,
{
}

/// The direction and the angle that an integer stands for have the
/// integer's remainder modulo six as their place.
pub proof fn lemma_place_of(i: int)
    ensures
        Direction::at(i).index() == sixth(i),
        Angle::at(i).index() == sixth(i),
{
}

/// Turning is adding modulo six: a turn forward changes nothing, and
/// two turns are the turn by the sum of the angles.
pub proof fn lemma_turns_add_up(d: Direction, a: Angle, b: Angle)
    ensures
        d.turned(Angle::Forward) == d,
        Direction::at(d.index()) == d,
        Angle::at(a.index()) == a,
        d.turned(a).turned(b) == d.turned(Angle::at(a.index() + b.index())),
{
    let i = d.index();
    let j = a.index();
    let k = b.index();
    lemma_place_of(i + j);
    lemma_place_of(j + k);
    assert(sixth(sixth(i + j) + k) == sixth(i + sixth(j + k)));
}

/// Six turns to the right, and two turns back, come back to the start.
pub proof fn lemma_full_turn(d: Direction)
    ensures
        d.turned(Angle::Right).turned(Angle::Right).turned(Angle::Right).turned(
            Angle::Right,
        ).turned(Angle::Right).turned(Angle::Right) == d,
        d.turned(Angle::Back).turned(Angle::Back) == d,
{
    let d1 = d.turned(Angle::Right);
    let d2 = d1.turned(Angle::Right);
    let d3 = d2.turned(Angle::Right);
    let d4 = d3.turned(Angle::Right);
    let d5 = d4.turned(Angle::Right);
    lemma_place_of(d.index() + 1);
    lemma_place_of(d1.index() + 1);
    lemma_place_of(d2.index() + 1);
    lemma_place_of(d3.index() + 1);
    lemma_place_of(d4.index() + 1);
    lemma_place_of(d5.index() + 1);
    lemma_place_of(d.index() + 3);
    lemma_place_of(d.turned(Angle::Back).index() + 3);
}

/// Calls `hex2d`'s `Coordinate + Direction`, the direction given by its
/// place in the clockwise order. Claimed of it: the sum is the coordinate
/// moved by the direction's unit step, which is (0, 1), (1, 0), (1, -1),
/// (0, -1), (-1, 0), (-1, 1) for the places 0 to 5.
#[verifier::external_body]
fn step(x: i32, y: i32, direction: i32) -> (r: (i32, i32))
    requires
        0 <= direction < 6,
        i32::MIN < x < i32::MAX,
        i32::MIN < y < i32::MAX,
    ensures
        r.0 == x + Direction::at(direction as int).dx(),
        r.1 == y + Direction::at(direction as int).dy(),
{
    let c = hex2d::Coordinate::new(x, y) + hex2d::Direction::from_int(direction);
    (c.x, c.y)
}

/// Calls `hex2d`'s `Direction + Angle`, both given by their places in the
/// clockwise order. Claimed of it: the places add up modulo six.
#[verifier::external_body]
fn turn_index(direction: i32, angle: i32) -> (r: i32)
    requires
        0 <= direction < 6,
        0 <= angle < 6,
    ensures
        r == sixth(direction + angle),
{
    (hex2d::Direction::from_int(direction) + hex2d::Angle::from_int(angle)).to_int()
}

/// Calls `hex2d`'s `Direction::from_int`. Claimed of it: the direction
/// made from an integer has the integer's non-negative remainder modulo
/// six as its place.
#[verifier::external_body]
fn direction_index(rotation: i32) -> (r: i32)
    ensures
        r == sixth(rotation as int),
{
    hex2d::Direction::from_int(rotation).to_int()
}

/// Calls `hex2d`'s `Angle::from_int`. Claimed of it: the angle made from
/// an integer has the integer's non-negative remainder modulo six as its
/// number of steps.
#[verifier::external_body]
fn angle_index(rotation: i32) -> (r: i32)
    ensures
        r == sixth(rotation as int),
{
    hex2d::Angle::from_int(rotation).to_int()
}

/// Calls `hex2d`'s `Coordinate::distance`. Claimed of it: half the sum of
/// the absolute differences of the three cube components.
#[verifier::external_body]
fn distance_between(x1: i32, y1: i32, x2: i32, y2: i32) -> (n: i32)
    requires
        -COORD_LIMIT <= x1 <= COORD_LIMIT,
        -COORD_LIMIT <= y1 <= COORD_LIMIT,
        -COORD_LIMIT <= x2 <= COORD_LIMIT,
        -COORD_LIMIT <= y2 <= COORD_LIMIT,
    ensures
        n == (Coordinate { x: x1, y: y1 }).span(Coordinate { x: x2, y: y2 }),
{
    hex2d::Coordinate::new(x1, y1).distance(hex2d::Coordinate::new(x2, y2))
}

/// Calls `hex2d`'s `Coordinate::range_iter` and collects what it yields.
/// Claimed of it: it yields every hex at most `radius` steps from the
/// centre, and each of them once.
#[verifier::external_body]
fn range_around(center: Coordinate, radius: i32) -> (hexes: Vec<Coordinate>)
    requires
        center.in_bounds(),
        0 <= radius <= COORD_LIMIT,
    ensures
        hexes@.no_duplicates(),
        forall|c: Coordinate| hexes@.contains(c) <==> center.span(c) <= radius,
{
    hex2d::Coordinate::new(center.x, center.y).range_iter(radius).map(
        |c| Coordinate { x: c.x, y: c.y },
    ).collect()
}

/// Calls `hex2d`'s `Coordinate::ring_iter`, clockwise from direction
/// `XY`, and collects what it yields. Claimed of it: it yields every hex
/// exactly `radius` steps from the centre, and each of them once.
#[verifier::external_body]
fn ring_around(center: Coordinate, radius: i32) -> (hexes: Vec<Coordinate>)
    requires
        center.in_bounds(),
        0 <= radius <= COORD_LIMIT,
    ensures
        hexes@.no_duplicates(),
        forall|c: Coordinate| hexes@.contains(c) <==> center.span(c) == radius,
{
    hex2d::Coordinate::new(center.x, center.y).ring_iter(
        radius,
        hex2d::Spin::CW(hex2d::Direction::XY),
    ).map(|c| Coordinate { x: c.x, y: c.y }).collect()
}

} // verus!
