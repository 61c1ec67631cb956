use gridlock::economy::Item;
use gridlock::hex::{Coordinate, Direction};
use gridlock::trucks::{Treads, Truck, PROGRESS_FULL, PROGRESS_HALF, TRUCK_SPEED};

fn truck(x: i32, y: i32, facing: Direction, move_progress: u32) -> Truck {
    Truck {
        cargo: None,
        speed: TRUCK_SPEED,
        facing,
        position: Coordinate::new(x, y),
        move_progress,
        out_of_bounds_immunity: false,
    }
}

#[test]
fn truck_from_a_card() {
    let t = Truck::from_rot(Coordinate::new(2, -1), Some(Item::Orange), 8);
    assert_eq!(
        t,
        Truck {
            cargo: Some(Item::Orange),
            speed: 25_000,
            facing: Direction::XY,
            position: Coordinate::new(2, -1),
            move_progress: 0,
            out_of_bounds_immunity: false,
        }
    );
    assert_eq!(Truck::from_rot(Coordinate::new(0, 0), None, -1).facing, Direction::YX);
    assert_eq!(TRUCK_SPEED * 40, PROGRESS_FULL);
}

#[test]
fn centre_changes_hex_half_way() {
    let mut t = truck(1, 1, Direction::XZ, 0);
    assert_eq!(t.get_hex(), Coordinate::new(1, 1));
    t.move_progress = PROGRESS_HALF - 1;
    assert_eq!(t.get_hex(), Coordinate::new(1, 1));
    t.move_progress = PROGRESS_HALF;
    assert_eq!(t.get_hex(), Coordinate::new(2, 1));
    t.move_progress = PROGRESS_FULL;
    assert_eq!(t.get_hex(), Coordinate::new(2, 1));
}

#[test]
fn place_in_the_plane() {
    assert_eq!(truck(0, 0, Direction::XY, 0).get_xy(), (0, 0));
    assert_eq!(truck(1, 0, Direction::XY, 0).get_xy(), (1_000_000, -1_000_000));
    assert_eq!(truck(0, 1, Direction::XY, 0).get_xy(), (-1_000_000, -1_000_000));
    assert_eq!(truck(1, -1, Direction::XY, 0).get_xy(), (2_000_000, 0));
    assert_eq!(truck(0, 0, Direction::XY, 250_000).get_xy(), (500_000, 0));
    assert_eq!(truck(0, 0, Direction::YX, 250_000).get_xy(), (-500_000, 0));
    assert_eq!(truck(0, 0, Direction::YZ, 250_000).get_xy(), (-250_000, -250_000));
    assert_eq!(truck(0, 0, Direction::XZ, 250_000).get_xy(), (250_000, -250_000));
    assert_eq!(truck(0, 0, Direction::ZY, 250_000).get_xy(), (250_000, 250_000));
    assert_eq!(truck(0, 0, Direction::ZX, 250_000).get_xy(), (-250_000, 250_000));
    assert_eq!(
        truck(3, -5, Direction::ZY, 400_000).get_xy(),
        (8_400_000, 2_400_000)
    );
}

#[test]
fn a_truck_at_the_end_of_its_way_is_on_the_next_hex() {
    let directions = [
        Direction::YZ,
        Direction::XZ,
        Direction::XY,
        Direction::ZY,
        Direction::ZX,
        Direction::YX,
    ];
    for d in directions {
        let there = truck(2, -7, d, PROGRESS_FULL);
        let next = Coordinate::new(2, -7).neighbor(d);
        assert_eq!(there.get_xy(), truck(next.x, next.y, d, 0).get_xy());
    }
}

#[test]
fn place_in_the_plane_at_the_ends_of_the_lattice() {
    let far = truck(i32::MAX, i32::MIN, Direction::XY, u32::MAX);
    assert_eq!(
        far.get_xy(),
        (
            (i32::MAX as i64 - i32::MIN as i64) * 1_000_000 + 2 * u32::MAX as i64,
            1_000_000
        )
    );
}

#[test]
fn trucks_crash_within_half_a_hex_width() {
    let a = truck(0, 0, Direction::XY, 750_000);
    let b = truck(2, -2, Direction::YX, 750_000);
    assert!(!a.collides_with(&b));
    assert!(!b.collides_with(&a));
    let a = truck(0, 0, Direction::XY, 750_001);
    assert!(a.collides_with(&b));
    assert!(b.collides_with(&a));
    assert!(a.collides_with(&a));
}

#[test]
fn trucks_on_neighbouring_hexes_do_not_crash_at_rest() {
    let directions = [
        Direction::YZ,
        Direction::XZ,
        Direction::XY,
        Direction::ZY,
        Direction::ZX,
        Direction::YX,
    ];
    let a = truck(0, 0, Direction::XY, 0);
    for d in directions {
        let next = Coordinate::new(0, 0).neighbor(d);
        assert!(!a.collides_with(&truck(next.x, next.y, d, 0)));
    }
}

#[test]
fn crash_distance_across_rows() {
    let a = truck(0, 0, Direction::YZ, 0);
    let mut b = truck(0, 1, Direction::ZY, 0);
    let mut first = None;
    for step in 0..=40 {
        b.move_progress = step * TRUCK_SPEED;
        if a.collides_with(&b) && first.is_none() {
            first = Some(step);
        }
    }
    assert_eq!(first, Some(21));
}

#[test]
fn far_trucks_do_not_crash() {
    let a = truck(i32::MAX, i32::MIN, Direction::XY, u32::MAX);
    let b = truck(i32::MIN, i32::MAX, Direction::YX, u32::MAX);
    assert!(!a.collides_with(&b));
}

#[test]
fn treads_are_laid_in_front_of_the_centre() {
    let t = truck(0, 0, Direction::XY, 25_000);
    assert_eq!(
        Treads::lay(&t),
        Treads { pos: (362_500, 0), facing: Direction::XY, lifetime: 300 }
    );
    let t = truck(1, 0, Direction::ZY, 0);
    assert_eq!(
        Treads::lay(&t),
        Treads { pos: (1_156_250, -843_750), facing: Direction::ZY, lifetime: 300 }
    );
}

#[test]
fn advancing_a_truck() {
    let mut t = truck(0, 0, Direction::XY, 450_000);
    t.out_of_bounds_immunity = true;
    let t = t.advance();
    assert_eq!(t.move_progress, 475_000);
    assert!(t.out_of_bounds_immunity);
    let t = t.advance();
    assert_eq!(t.move_progress, 500_000);
    assert!(!t.out_of_bounds_immunity);
    assert_eq!(t.position, Coordinate::new(0, 0));
    let mut fast = truck(0, 0, Direction::XY, u32::MAX - 3);
    fast.speed = 10;
    assert_eq!(fast.advance().move_progress, u32::MAX);
}
