//! Trucks, and the treads they leave behind.
//!
//! A truck stands at a hex and travels towards the neighbour it faces.
//! How far it has come is `move_progress`, in millionths of the way. Its
//! place in the plane is exact: a pair `(a, b)` stands for the point
//! `a / (2 * PROGRESS_FULL)` hex widths to the right of the board's
//! centre and `b * sqrt(3) / (2 * PROGRESS_FULL)` hex widths below it.

use crate::economy::Item;
use crate::hex::{Coordinate, Direction};
use vstd::prelude::*;

verus! {

/// The progress of a truck that has reached the next hex.
pub const PROGRESS_FULL: u32 = 1_000_000;

/// The progress from which on the centre of a truck is over the next hex.
pub const PROGRESS_HALF: u32 = 500_000;

/// How far a truck that was placed from a card moves per tick: a
/// fortieth of the way.
pub const TRUCK_SPEED: u32 = 25_000;

/// Twice the distance at which two trucks crash, in millionths of a hex
/// width.
pub const CRASH_REACH: i64 = 1_000_000;

/// How far in front of a truck's centre its treads are laid, in
/// millionths of a hex width.
pub const TREAD_OFFSET: i64 = 156_250;

/// How long a tread lives for, in frames.
pub const TREAD_LIFETIME: u64 = 300;

/// A truck carrying an item around.
#[derive(Debug, Clone, Copy, PartialEq, Eq)]
pub struct Truck {
    /// What it's holding.
    pub cargo: Option<Item>,
    /// How far to move per tick, in millionths of the way to the next hex.
    pub speed: u32,
    /// Where it's facing.
    pub facing: Direction,
    /// The hex this truck is based on.
    pub position: Coordinate,
    /// How far this truck is on the way to the next hex, in millionths:
    /// 0 is directly on this one, `PROGRESS_FULL` all the way on the
    /// other one.
    pub move_progress: u32,
    /// If it's ok to be off the board right now.
    pub out_of_bounds_immunity: bool,
}

/// The first planar component of the point `progress` millionths of the
/// way from `position` towards `facing`.
pub open spec fn planar_a(position: Coordinate, facing: Direction, progress: int) -> int {
    (position.x - position.y) * PROGRESS_FULL + (facing.dx() - facing.dy()) * progress
}

/// The second planar component of the point `progress` millionths of
/// the way from `position` towards `facing`.
pub open spec fn planar_b(position: Coordinate, facing: Direction, progress: int) -> int {
    -(position.x + position.y) * PROGRESS_FULL - (facing.dx() + facing.dy()) * progress
}

/// Whether two points of the plane are less than the crash distance,
/// half a hex width, apart.
pub open spec fn points_crash(p: (i64, i64), q: (i64, i64)) -> bool {
    (p.0 - q.0) * (p.0 - q.0) + 3 * ((p.1 - q.1) * (p.1 - q.1)) < CRASH_REACH * CRASH_REACH
}

impl Truck {
    /// The hex towards which the truck travels.
    pub open spec fn target(self) -> Coordinate {
        self.position.moved(self.facing)
    }

    /// The hex this truck's centre is over.
    pub open spec fn hex(self) -> Coordinate {
        if self.move_progress >= PROGRESS_HALF {
            self.target()
        } else {
            self.position
        }
    }

    /// The point of the plane at which the truck's centre is.
    pub open spec fn xy(self) -> (i64, i64) {
        (
            planar_a(self.position, self.facing, self.move_progress as int) as i64,
            planar_b(self.position, self.facing, self.move_progress as int) as i64,
        )
    }

    /// Whether the centres of two trucks are less than the crash
    /// distance apart.
    pub open spec fn crashes_with(self, other: Truck) -> bool {
        points_crash(self.xy(), other.xy())
    }

    /// The truck that a card puts on the board: at rest on `position`,
    /// facing the direction that `rotation` stands for.
    pub open spec fn placed(position: Coordinate, cargo: Option<Item>, rotation: i32) -> Truck {
        Truck {
            cargo,
            facing: Direction::at(rotation as int),
            move_progress: 0,
            out_of_bounds_immunity: false,
            position,
            speed: TRUCK_SPEED,
        }
    }

    /// Get the hex this truck's centre is over.
    pub fn get_hex(&self) -> (c: Coordinate)
        requires
            self.position.steps_fit(),
        ensures
            c == self.hex(),
    {
        let target = self.position.neighbor(self.facing);
        if self.move_progress >= PROGRESS_HALF {
            target
        } else {
            self.position
        }
    }

    /// Get the point of the plane at which the truck's centre is.
    pub fn get_xy(&self) -> (p: (i64, i64))
        ensures
            p == self.xy(),
            p.0 == planar_a(self.position, self.facing, self.move_progress as int),
            p.1 == planar_b(self.position, self.facing, self.move_progress as int),
            -0x20_0000_0000_0000 <= p.0 <= 0x20_0000_0000_0000,
            -0x20_0000_0000_0000 <= p.1 <= 0x20_0000_0000_0000,
    {
        planar(self.position, self.facing, self.move_progress as i64)
    }

    /// Whether the centres of this truck and of `other` are less than
    /// the crash distance apart.
    pub fn collides_with(&self, other: &Truck) -> (b: bool)
        ensures
            b == self.crashes_with(*other),
    {
        too_close(self.get_xy(), other.get_xy())
    }

    pub fn from_rot(position: Coordinate, cargo: Option<Item>, rotation: i32) -> (truck: Truck)
        ensures
            truck == Truck::placed(position, cargo, rotation),
    {
        Truck {
            cargo,
            facing: Direction::from_int(rotation),
            move_progress: 0,
            out_of_bounds_immunity: false,
            position,
            speed: TRUCK_SPEED,
        }
    }
}

/// The change of the two planar components on one step in a direction.
fn planar_step(facing: Direction) -> (d: (i64, i64))
    ensures
        d.0 == facing.dx() - facing.dy(),
        d.1 == -(facing.dx() + facing.dy()),
        -2 <= d.0 <= 2,
        -1 <= d.1 <= 1,
{
    match facing {
        Direction::YZ => (-1, -1),
        Direction::XZ => (1, -1),
        Direction::XY => (2, 0),
        Direction::ZY => (1, 1),
        Direction::ZX => (-1, 1),
        Direction::YX => (-2, 0),
    }
}

/// The point of the plane `progress` millionths of the way from
/// `position` towards `facing`.
pub(crate) fn planar(position: Coordinate, facing: Direction, progress: i64) -> (p: (i64, i64))
    requires
        0 <= progress <= 0x2_0000_0000,
    ensures
        p.0 == planar_a(position, facing, progress as int),
        p.1 == planar_b(position, facing, progress as int),
        -0x20_0000_0000_0000 <= p.0 <= 0x20_0000_0000_0000,
        -0x20_0000_0000_0000 <= p.1 <= 0x20_0000_0000_0000,
{
    let (da, db) = planar_step(facing);
    let x: i64 = position.x as i64;
    let y: i64 = position.y as i64;
    let p: i64 = progress;
    let full: i64 = PROGRESS_FULL as i64;
    assert(da * p == (facing.dx() - facing.dy()) * progress && -0x4_0000_0000 <= da * p
        <= 0x4_0000_0000) by (nonlinear_arith)
        requires
            da == facing.dx() - facing.dy(),
            -2 <= da <= 2,
            p == progress,
            0 <= p <= 0x2_0000_0000,
    ;
    assert(db * p == -((facing.dx() + facing.dy()) * progress) && -0x2_0000_0000 <= db * p
        <= 0x2_0000_0000) by (nonlinear_arith)
        requires
            db == -(facing.dx() + facing.dy()),
            -1 <= db <= 1,
            p == progress,
            0 <= p <= 0x2_0000_0000,
    ;
    assert((x - y) * full == (position.x - position.y) * PROGRESS_FULL && -(x + y) * full == -(
    position.x + position.y) * PROGRESS_FULL && -0x1_0000_0000 * 1_000_000 <= (x - y) * full
        <= 0x1_0000_0000 * 1_000_000 && -0x1_0000_0000 * 1_000_000 <= -(x + y) * full
        <= 0x1_0000_0000 * 1_000_000) by (nonlinear_arith)
        requires
            x == position.x,
            y == position.y,
            full == 1_000_000,
            PROGRESS_FULL == 1_000_000,
            -0x8000_0000 <= x < 0x8000_0000,
            -0x8000_0000 <= y < 0x8000_0000,
    ;
    ((x - y) * full + da * p, -(x + y) * full + db * p)
}

/// Whether two points of the plane are less than the crash distance
/// apart.
pub(crate) fn too_close(p: (i64, i64), q: (i64, i64)) -> (b: bool)
    requires
        -0x2000_0000_0000_0000 <= p.0 <= 0x2000_0000_0000_0000,
        -0x2000_0000_0000_0000 <= p.1 <= 0x2000_0000_0000_0000,
        -0x2000_0000_0000_0000 <= q.0 <= 0x2000_0000_0000_0000,
        -0x2000_0000_0000_0000 <= q.1 <= 0x2000_0000_0000_0000,
    ensures
        b == points_crash(p, q),
{
    let da: i64 = p.0 - q.0;
    let db: i64 = p.1 - q.1;
    if da >= CRASH_REACH || da <= -CRASH_REACH || db >= CRASH_REACH || db <= -CRASH_REACH {
        assert(!points_crash(p, q)) by (nonlinear_arith)
            requires
                da == p.0 - q.0,
                db == p.1 - q.1,
                da >= 1_000_000 || da <= -1_000_000 || db >= 1_000_000 || db <= -1_000_000,
                points_crash(p, q) == (da * da + 3 * (db * db) < 1_000_000 * 1_000_000),
        ;
        false
    } else {
        assert(0 <= da * da <= 1_000_000 * 1_000_000 && 0 <= db * db <= 1_000_000 * 1_000_000)
            by (nonlinear_arith)
            requires
                -1_000_000 < da < 1_000_000,
                -1_000_000 < db < 1_000_000,
        ;
        da * da + 3 * (db * db) < CRASH_REACH * CRASH_REACH
    }
}

/// A mark that a truck has left on the board.
#[derive(Debug, Clone, Copy, PartialEq, Eq)]
pub struct Treads {
    /// The point of the plane at the centre of this tread.
    pub pos: (i64, i64),
    /// Direction the truck was facing.
    pub facing: Direction,
    /// Frames left alive.
    pub lifetime: u64,
}

impl Treads {
    /// The tread that a truck lays: `TREAD_OFFSET` in front of its
    /// centre, with a full lifetime.
    pub open spec fn laid_by(truck: Truck) -> Treads {
        Treads {
            pos: (
                planar_a(truck.position, truck.facing, truck.move_progress + TREAD_OFFSET) as i64,
                planar_b(truck.position, truck.facing, truck.move_progress + TREAD_OFFSET) as i64,
            ),
            facing: truck.facing,
            lifetime: TREAD_LIFETIME,
        }
    }

    /// The tread that `truck` lays.
    pub fn lay(truck: &Truck) -> (tread: Treads)
        ensures
            tread == Treads::laid_by(*truck),
    {
        let pos = planar(truck.position, truck.facing, truck.move_progress as i64 + TREAD_OFFSET);
        Treads { pos, facing: truck.facing, lifetime: TREAD_LIFETIME }
    }
}

} // verus!
