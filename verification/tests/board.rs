use gridlock::board::Board;
use gridlock::fleet::TAX_CRASH;
use gridlock::spawn::Blueprint;
use gridlock::cells::{Cell, CellMap, Instruction};
use gridlock::economy::{Factory, Item, ItemFilter, Market, Pricer};
use gridlock::hex::{Angle, Coordinate, Direction};
use gridlock::motion::{
    is_passable, TAX_BAD_SELL, TAX_COLLISION, TAX_OVERLOAD, TAX_SHORTSELL,
};
use gridlock::trucks::{Treads, Truck};

const UNIT: u64 = 1_000_000;

fn hex(x: i32, y: i32) -> Coordinate {
    Coordinate::new(x, y)
}

/// Runs `frames` frames on which neither treads are laid nor buildings
/// added, and returns what they have earned and incurred.
fn run(board: &mut Board, frames: usize) -> (u32, u32) {
    let mut money = 0;
    let mut tax = 0;
    for _ in 0..frames {
        let (m, t) = board.update(1);
        money += m;
        tax += t;
    }
    (money, tax)
}

fn steady_prices() -> Pricer {
    Pricer::with_rates(0, 30 * UNIT, 1_500_000, 1_200_000, 2_500_000)
}

fn count_cells(board: &Board, wanted: fn(&Cell) -> bool) -> usize {
    board
        .coordinates()
        .iter()
        .filter(|c| wanted(&board.cell_at(**c).unwrap()))
        .count()
}

fn is_wreckage(cell: &Cell) -> bool {
    matches!(cell, Cell::Wreckage)
}

fn is_building(cell: &Cell) -> bool {
    matches!(cell, Cell::Factory(_) | Cell::Market(_))
}

#[test]
fn new_board_is_an_empty_disc() {
    let board = Board::new(5);
    assert_eq!(board.radius(), 5);
    assert!(board.trucks().is_empty());
    assert!(board.treads().is_empty());
    let hexes = board.coordinates();
    assert_eq!(hexes.len(), 91);
    for c in hexes {
        assert!(hex(0, 0).distance(c) <= 5);
        assert_eq!(board.cell_at(c), Some(Cell::Empty));
    }
    assert_eq!(board.cell_at(hex(6, 0)), None);
    assert_eq!(board.cell_at(hex(3, 3)), None);
    assert_eq!(Board::new(0).coordinates(), vec![hex(0, 0)]);
}

#[test]
fn passable_cells() {
    let mut cells = CellMap::new();
    cells.insert(hex(0, 0), Cell::Empty);
    cells.insert(hex(1, 0), Cell::Wreckage);
    cells.insert(hex(2, 0), Cell::Instruction(Instruction::Rotate(Angle::Left)));
    cells.insert(
        hex(3, 0),
        Cell::Factory(Factory { product: Item::Orange, stock: 1 }),
    );
    for immunity in [false, true] {
        assert!(is_passable(&cells, hex(0, 0), immunity));
        assert!(!is_passable(&cells, hex(1, 0), immunity));
        assert!(is_passable(&cells, hex(2, 0), immunity));
        assert!(is_passable(&cells, hex(3, 0), immunity));
        assert_eq!(is_passable(&cells, hex(4, 0), immunity), immunity);
    }
}

#[test]
fn cell_map_files_cells_by_hex() {
    let mut cells = CellMap::new();
    let corners = [
        hex(i32::MIN, i32::MIN),
        hex(i32::MIN, i32::MAX),
        hex(i32::MAX, i32::MIN),
        hex(i32::MAX, i32::MAX),
        hex(0, 0),
        hex(-1, 0),
        hex(0, -1),
    ];
    for (i, c) in corners.iter().enumerate() {
        assert!(!cells.contains_key(*c));
        cells.insert(*c, Cell::Factory(Factory { product: Item::Orange, stock: i }));
    }
    for (i, c) in corners.iter().enumerate() {
        assert_eq!(
            cells.get(*c),
            Some(Cell::Factory(Factory { product: Item::Orange, stock: i }))
        );
    }
    let mut listed = cells.coordinates();
    let mut expected = corners.to_vec();
    listed.sort_by_key(|c| (c.x, c.y));
    expected.sort_by_key(|c| (c.x, c.y));
    assert_eq!(listed, expected);
    cells.remove(hex(0, 0));
    assert_eq!(cells.get(hex(0, 0)), None);
    assert_eq!(cells.coordinates().len(), 6);
    cells.insert(hex(-1, 0), Cell::Wreckage);
    assert_eq!(cells.get(hex(-1, 0)), Some(Cell::Wreckage));
    assert_eq!(cells.coordinates().len(), 6);
}

#[test]
fn truck_follows_a_direct_instruction() {
    let mut board = Board::new(3);
    assert!(board.place_instruction(hex(1, -1), Instruction::Direct(Direction::YZ)));
    assert!(board.place_truck(hex(0, 0), None, 2));
    assert_eq!(run(&mut board, 39), (0, 0));
    let truck = board.trucks()[0];
    assert_eq!(truck.position, hex(0, 0));
    assert_eq!(truck.move_progress, 975_000);
    assert_eq!(truck.facing, Direction::XY);
    assert_eq!(run(&mut board, 1), (0, 0));
    let truck = board.trucks()[0];
    assert_eq!(truck.position, hex(1, -1));
    assert_eq!(truck.move_progress, 0);
    assert_eq!(truck.facing, Direction::YZ);
    assert_eq!(
        board.cell_at(hex(1, -1)),
        Some(Cell::Instruction(Instruction::Direct(Direction::YZ)))
    );
    assert_eq!(run(&mut board, 40), (0, 0));
    assert_eq!(board.trucks()[0].position, hex(1, 0));
}

#[test]
fn truck_follows_a_rotate_instruction() {
    let mut board = Board::new(3);
    assert!(board.place_instruction(hex(1, -1), Instruction::Rotate(Angle::LeftBack)));
    assert!(board.place_truck(hex(0, 0), None, 2));
    assert_eq!(run(&mut board, 40), (0, 0));
    let truck = board.trucks()[0];
    assert_eq!(truck.position, hex(1, -1));
    assert_eq!(truck.facing, Direction::YZ);
}

#[test]
fn truck_is_shunted_aside() {
    let mut board = Board::new(3);
    assert!(board.place_instruction(hex(1, -1), Instruction::Shunt(Direction::YZ)));
    assert!(board.place_truck(hex(0, 0), None, 2));
    assert_eq!(run(&mut board, 40), (0, 0));
    let truck = board.trucks()[0];
    assert_eq!(truck.position, hex(1, 0));
    assert_eq!(truck.move_progress, 0);
    assert_eq!(truck.facing, Direction::XY);
    assert_eq!(
        board.cell_at(hex(1, -1)),
        Some(Cell::Instruction(Instruction::Shunt(Direction::YZ)))
    );
}

#[test]
fn truck_shunted_into_the_void_is_lost() {
    let mut board = Board::new(1);
    assert!(board.place_instruction(hex(1, -1), Instruction::Shunt(Direction::XY)));
    assert!(board.place_truck(hex(0, 0), None, 2));
    assert_eq!(run(&mut board, 39), (0, 0));
    assert_eq!(run(&mut board, 1), (0, TAX_COLLISION));
    assert!(board.trucks().is_empty());
    assert_eq!(board.cell_at(hex(1, -1)), Some(Cell::Wreckage));
    assert_eq!(count_cells(&board, is_wreckage), 1);
}

#[test]
fn truck_driving_off_the_board_is_lost_half_way() {
    let mut board = Board::new(1);
    assert!(board.place_truck(hex(1, 0), None, 1));
    assert_eq!(run(&mut board, 19), (0, 0));
    assert_eq!(board.trucks().len(), 1);
    assert_eq!(board.trucks()[0].move_progress, 475_000);
    assert_eq!(run(&mut board, 1), (0, TAX_COLLISION));
    assert!(board.trucks().is_empty());
    assert_eq!(board.cell_at(hex(1, 0)), Some(Cell::Wreckage));
    assert_eq!(board.cell_at(hex(2, 0)), None);
    assert_eq!(run(&mut board, 5), (0, 0));
}

#[test]
fn truck_driving_into_wreckage_is_lost() {
    let mut board = Board::new(2);
    assert!(board.place_truck(hex(2, 0), None, 1));
    assert_eq!(run(&mut board, 20), (0, TAX_COLLISION));
    assert_eq!(board.cell_at(hex(2, 0)), Some(Cell::Wreckage));
    assert!(board.place_truck(hex(0, 0), None, 1));
    assert_eq!(run(&mut board, 40 + 19), (0, 0));
    assert_eq!(board.trucks()[0].position, hex(1, 0));
    assert_eq!(run(&mut board, 1), (0, TAX_COLLISION));
    assert!(board.trucks().is_empty());
    assert_eq!(board.cell_at(hex(1, 0)), Some(Cell::Wreckage));
    assert_eq!(count_cells(&board, is_wreckage), 2);
}

#[test]
fn progress_stays_short_of_the_next_hex() {
    let mut board = Board::new(4);
    assert!(board.place_truck(hex(0, 0), None, 0));
    assert!(board.place_truck(hex(-2, 1), Some(Item::Orange), 3));
    for _ in 0..150 {
        board.update(1);
        for truck in board.trucks() {
            assert!(truck.move_progress < 1_000_000);
            assert!(!truck.out_of_bounds_immunity || truck.move_progress < 500_000);
            assert!(board.cell_at(truck.get_hex()).is_some() || truck.out_of_bounds_immunity);
        }
    }
}

#[test]
fn factory_gives_one_unit_per_pickup() {
    let mut board = Board::new(1);
    let factory = Factory { product: Item::Orange, stock: 2 };
    assert!(board.place_building(hex(2, 0), Cell::Factory(factory)));
    assert!(board.place_truck(hex(1, 0), None, 1));
    assert_eq!(run(&mut board, 39), (0, 0));
    assert_eq!(board.cell_at(hex(2, 0)), Some(Cell::Factory(factory)));
    assert_eq!(run(&mut board, 1), (0, 0));
    assert_eq!(
        board.cell_at(hex(2, 0)),
        Some(Cell::Factory(Factory { product: Item::Orange, stock: 1 }))
    );
    assert_eq!(
        board.trucks()[0],
        Truck {
            cargo: Some(Item::Orange),
            speed: 25_000,
            facing: Direction::ZX,
            position: hex(2, 0),
            move_progress: 0,
            out_of_bounds_immunity: false,
        }
    );
}

#[test]
fn factory_is_gone_with_its_last_unit() {
    let mut board = Board::new(1);
    let factory = Factory { product: Item::GreenLettuce, stock: 1 };
    assert!(board.place_building(hex(2, 0), Cell::Factory(factory)));
    assert!(board.place_truck(hex(1, 0), Some(Item::Orange), 1));
    assert_eq!(run(&mut board, 40), (0, TAX_OVERLOAD));
    assert_eq!(board.cell_at(hex(2, 0)), None);
    let truck = board.trucks()[0];
    assert_eq!(truck.cargo, Some(Item::GreenLettuce));
    assert_eq!(truck.position, hex(2, 0));
    assert_eq!(truck.facing, Direction::ZX);
    assert!(truck.out_of_bounds_immunity);
    assert_eq!(run(&mut board, 19), (0, 0));
    assert!(board.trucks()[0].out_of_bounds_immunity);
    assert_eq!(run(&mut board, 1), (0, 0));
    let truck = board.trucks()[0];
    assert_eq!(truck.move_progress, 500_000);
    assert!(!truck.out_of_bounds_immunity);
    assert_eq!(truck.get_hex(), hex(1, 0));
    assert_eq!(run(&mut board, 20), (0, 0));
    assert_eq!(board.trucks()[0].position, hex(1, 0));
    assert_eq!(count_cells(&board, is_wreckage), 0);
    assert_eq!(count_cells(&board, is_building), 0);
}

#[test]
fn market_buys_what_it_asks_for() {
    let mut board = Board::new(1);
    let market = Market {
        request: ItemFilter::Specific(Item::Orange),
        demand: 2,
        prices: steady_prices(),
    };
    assert!(board.place_building(hex(2, 0), Cell::Market(market)));
    assert!(board.place_truck(hex(1, 0), Some(Item::Orange), 1));
    assert_eq!(run(&mut board, 39), (0, 0));
    assert_eq!(run(&mut board, 1), (11, 0));
    assert_eq!(
        board.cell_at(hex(2, 0)),
        Some(Cell::Market(Market { demand: 1, ..market }))
    );
    let truck = board.trucks()[0];
    assert_eq!(truck.cargo, None);
    assert_eq!(truck.facing, Direction::ZX);
    assert!(!truck.out_of_bounds_immunity);
}

#[test]
fn market_is_gone_with_its_last_sale() {
    let mut board = Board::new(1);
    let market = Market { request: ItemFilter::Any, demand: 1, prices: steady_prices() };
    assert!(board.place_building(hex(2, 0), Cell::Market(market)));
    assert!(board.place_truck(hex(1, 0), Some(Item::BrownTater), 1));
    assert_eq!(run(&mut board, 40), (11, 0));
    assert_eq!(board.cell_at(hex(2, 0)), None);
    let truck = board.trucks()[0];
    assert_eq!(truck.cargo, None);
    assert!(truck.out_of_bounds_immunity);
}

#[test]
fn market_turns_the_wrong_item_away() {
    let mut board = Board::new(1);
    let market = Market {
        request: ItemFilter::Specific(Item::Orange),
        demand: 1,
        prices: steady_prices(),
    };
    assert!(board.place_building(hex(2, 0), Cell::Market(market)));
    assert!(board.place_truck(hex(1, 0), Some(Item::RedApple), 1));
    assert_eq!(run(&mut board, 40), (0, TAX_BAD_SELL));
    assert_eq!(board.cell_at(hex(2, 0)), Some(Cell::Market(market)));
    let truck = board.trucks()[0];
    assert_eq!(truck.cargo, None);
    assert_eq!(truck.facing, Direction::ZX);
    assert!(!truck.out_of_bounds_immunity);
}

#[test]
fn market_turns_an_empty_truck_away() {
    let mut board = Board::new(1);
    let market = Market { request: ItemFilter::Any, demand: 1, prices: steady_prices() };
    assert!(board.place_building(hex(2, 0), Cell::Market(market)));
    assert!(board.place_truck(hex(1, 0), None, 1));
    assert_eq!(run(&mut board, 40), (0, TAX_SHORTSELL));
    assert_eq!(board.cell_at(hex(2, 0)), Some(Cell::Market(market)));
    assert_eq!(board.trucks()[0].cargo, None);
}

#[test]
fn market_prices_move_with_the_frames() {
    let mut board = Board::new(1);
    let prices = Pricer::with_rates(25_000, 30 * UNIT, 1_500_000, 1_200_000, 2_500_000);
    let market = Market { request: ItemFilter::Any, demand: 3, prices };
    assert!(board.place_building(hex(2, 0), Cell::Market(market)));
    assert!(board.place_truck(hex(1, 0), Some(Item::Orange), 1));
    assert_eq!(run(&mut board, 39), (0, 0));
    match board.cell_at(hex(2, 0)) {
        Some(Cell::Market(m)) => assert_eq!(m.prices.time, 975_000),
        _ => panic!(),
    }
    assert_eq!(run(&mut board, 1), (15, 0));
    match board.cell_at(hex(2, 0)) {
        Some(Cell::Market(m)) => {
            assert_eq!(m.prices.time, 1_000_000);
            assert_eq!(m.demand, 2);
        }
        _ => panic!(),
    }
}

#[test]
fn a_truck_behind_the_last_customer_is_lost_with_the_factory() {
    let mut board = Board::new(2);
    let factory = Factory { product: Item::Orange, stock: 1 };
    assert!(board.place_building(hex(3, 0), Cell::Factory(factory)));
    assert!(board.place_truck(hex(1, 0), None, 1));
    assert_eq!(run(&mut board, 20), (0, 0));
    assert!(board.place_truck(hex(2, 0), None, 1));
    assert_eq!(run(&mut board, 40), (0, 0));
    assert_eq!(board.cell_at(hex(3, 0)), None);
    assert_eq!(board.trucks().len(), 2);
    let behind = board.trucks()[0];
    let customer = board.trucks()[1];
    assert_eq!(behind.get_hex(), hex(3, 0));
    assert_eq!(behind.move_progress, 500_000);
    assert!(!behind.out_of_bounds_immunity);
    assert_eq!(customer.position, hex(3, 0));
    assert_eq!(customer.cargo, Some(Item::Orange));
    assert!(customer.out_of_bounds_immunity);
    assert_eq!(run(&mut board, 1), (0, TAX_COLLISION));
    assert_eq!(board.trucks().len(), 1);
    assert_eq!(board.trucks()[0].cargo, Some(Item::Orange));
    assert_eq!(board.cell_at(hex(2, 0)), Some(Cell::Wreckage));
    assert_eq!(run(&mut board, 18), (0, 0));
    assert_eq!(run(&mut board, 1), (0, TAX_COLLISION));
    assert!(board.trucks().is_empty());
    assert_eq!(board.cell_at(hex(3, 0)), None);
    assert_eq!(count_cells(&board, is_wreckage), 1);
}

#[test]
fn two_trucks_crash_head_on() {
    let mut board = Board::new(3);
    assert!(board.place_truck(hex(0, 0), None, 2));
    assert!(board.place_truck(hex(2, -2), None, 5));
    assert_eq!(run(&mut board, 30), (0, 0));
    assert_eq!(board.trucks().len(), 2);
    assert_eq!(board.update(1), (0, 2 * TAX_CRASH));
    assert!(board.trucks().is_empty());
    assert_eq!(board.cell_at(hex(1, -1)), Some(Cell::Wreckage));
    assert_eq!(board.cell_at(hex(0, 0)), Some(Cell::Empty));
    assert_eq!(board.cell_at(hex(2, -2)), Some(Cell::Empty));
    assert_eq!(count_cells(&board, is_wreckage), 1);
    assert_eq!(run(&mut board, 3), (0, 0));
}

#[test]
fn a_truck_away_from_a_crash_drives_on() {
    let mut board = Board::new(3);
    assert!(board.place_truck(hex(0, 0), None, 2));
    assert!(board.place_truck(hex(-3, 0), None, 1));
    assert!(board.place_truck(hex(2, -2), None, 5));
    assert_eq!(run(&mut board, 31), (0, 2 * TAX_CRASH));
    assert_eq!(board.trucks().len(), 1);
    assert_eq!(board.trucks()[0].position, hex(-3, 0));
    assert_eq!(board.trucks()[0].move_progress, 775_000);
}

#[test]
fn three_trucks_in_one_crash() {
    let mut board = Board::new(3);
    assert!(board.place_truck(hex(0, 0), None, 2));
    assert!(board.place_truck(hex(0, 0), None, 2));
    assert!(board.place_truck(hex(0, 0), Some(Item::Orange), 4));
    assert_eq!(board.update(1), (0, 3 * TAX_CRASH));
    assert!(board.trucks().is_empty());
    assert_eq!(board.cell_at(hex(0, 0)), Some(Cell::Wreckage));
    assert_eq!(count_cells(&board, is_wreckage), 1);
}

#[test]
fn a_crash_over_a_building_leaves_wreckage() {
    let mut board = Board::new(1);
    let factory = Factory { product: Item::Orange, stock: 4 };
    assert!(board.place_building(hex(2, 0), Cell::Factory(factory)));
    assert!(board.place_truck(hex(1, 0), None, 1));
    assert!(board.place_truck(hex(1, 0), None, 1));
    assert_eq!(board.update(1), (0, 2 * TAX_CRASH));
    assert_eq!(board.cell_at(hex(1, 0)), Some(Cell::Wreckage));
    assert_eq!(board.cell_at(hex(2, 0)), Some(Cell::Factory(factory)));
}

#[test]
fn treads_are_laid_on_every_third_frame() {
    let mut board = Board::new(3);
    assert!(board.place_truck(hex(0, 0), None, 2));
    board.update(3);
    assert_eq!(
        board.treads(),
        &vec![Treads { pos: (362_500, 0), facing: Direction::XY, lifetime: 299 }]
    );
    board.update(4);
    board.update(5);
    assert_eq!(board.treads().len(), 1);
    assert_eq!(board.treads()[0].lifetime, 297);
    board.update(6);
    assert_eq!(board.treads().len(), 2);
    assert_eq!(
        board.treads()[1],
        Treads { pos: (512_500, 0), facing: Direction::XY, lifetime: 299 }
    );
    assert_eq!(board.treads()[0].lifetime, 296);
}

#[test]
fn treads_fade_away() {
    let mut board = Board::new(3);
    assert!(board.place_truck(hex(0, 0), None, 2));
    board.update(3);
    assert_eq!(board.treads().len(), 1);
    for _ in 0..299 {
        board.update(1);
    }
    assert_eq!(board.treads().len(), 1);
    assert_eq!(board.treads()[0].lifetime, 0);
    board.update(1);
    assert!(board.treads().is_empty());
}

#[test]
fn a_lost_truck_still_lays_its_tread() {
    let mut board = Board::new(0);
    assert!(board.place_truck(hex(0, 0), None, 2));
    assert_eq!(run(&mut board, 19), (0, 0));
    assert_eq!(board.update(3), (0, TAX_COLLISION));
    assert!(board.trucks().is_empty());
    assert_eq!(
        board.treads(),
        &vec![Treads { pos: (1_312_500, 0), facing: Direction::XY, lifetime: 299 }]
    );
}

#[test]
fn placing_on_the_board() {
    let mut board = Board::new(2);
    assert!(!board.place_truck(hex(3, 0), None, 0));
    assert!(!board.place_truck(hex(i32::MAX, i32::MIN), None, 0));
    assert!(board.trucks().is_empty());
    assert!(board.place_truck(hex(2, 0), Some(Item::Orange), -4));
    assert_eq!(
        board.trucks(),
        &vec![Truck::from_rot(hex(2, 0), Some(Item::Orange), -4)]
    );
    let direct = Instruction::Direct(Direction::ZX);
    let shunt = Instruction::Shunt(Direction::YX);
    assert!(!board.place_instruction(hex(3, 0), direct));
    assert!(board.place_instruction(hex(1, 0), direct));
    assert_eq!(board.cell_at(hex(1, 0)), Some(Cell::Instruction(direct)));
    assert!(board.place_instruction(hex(1, 0), shunt));
    assert_eq!(board.cell_at(hex(1, 0)), Some(Cell::Instruction(shunt)));
    assert_eq!(board.take_instruction(hex(1, 0)), Some(shunt));
    assert_eq!(board.cell_at(hex(1, 0)), Some(Cell::Empty));
    assert_eq!(board.take_instruction(hex(1, 0)), None);
    assert_eq!(board.take_instruction(hex(3, 0)), None);
    assert!(!board.cleanup(hex(3, 0)));
    assert_eq!(board.cell_at(hex(3, 0)), None);
}

#[test]
fn cleanup_clears_wreckage() {
    let mut board = Board::new(1);
    assert!(board.place_truck(hex(1, 0), None, 1));
    assert_eq!(run(&mut board, 20), (0, TAX_COLLISION));
    assert_eq!(board.cell_at(hex(1, 0)), Some(Cell::Wreckage));
    assert!(!board.place_instruction(hex(1, 0), Instruction::Direct(Direction::ZX)));
    assert!(board.cleanup(hex(1, 0)));
    assert_eq!(board.cell_at(hex(1, 0)), Some(Cell::Empty));
}

#[test]
fn buildings_stand_on_the_ring_only() {
    let mut board = Board::new(2);
    let factory = Cell::Factory(Factory { product: Item::Orange, stock: 3 });
    assert!(!board.place_building(hex(2, 0), factory));
    assert!(!board.place_building(hex(4, 0), factory));
    assert!(!board.place_building(hex(3, 0), Cell::Empty));
    assert!(!board.place_building(hex(3, 0), Cell::Wreckage));
    assert!(!board.place_building(
        hex(3, 0),
        Cell::Factory(Factory { product: Item::Orange, stock: 0 })
    ));
    assert!(!board.place_building(
        hex(3, 0),
        Cell::Market(Market { request: ItemFilter::Any, demand: 0, prices: steady_prices() })
    ));
    assert_eq!(board.cell_at(hex(3, 0)), None);
    assert!(board.place_building(hex(3, 0), factory));
    assert_eq!(board.cell_at(hex(3, 0)), Some(factory));
    assert!(!board.place_building(hex(3, 0), factory));
    assert_eq!(board.coordinates().len(), 20);
}

#[test]
fn items_that_lack_a_factory() {
    let mut board = Board::new(2);
    assert_eq!(board.lacking_items(), vec![]);
    let market = |item| {
        Cell::Market(Market {
            request: ItemFilter::Specific(item),
            demand: 3,
            prices: steady_prices(),
        })
    };
    assert!(board.place_building(hex(3, 0), market(Item::YellowLemon)));
    assert!(board.place_building(hex(3, -1), market(Item::RedApple)));
    assert!(board.place_building(hex(3, -2), market(Item::PurpleGrape)));
    assert!(board.place_building(
        hex(3, -3),
        Cell::Market(Market { request: ItemFilter::Any, demand: 3, prices: steady_prices() })
    ));
    assert!(board.place_building(
        hex(0, 3),
        Cell::Factory(Factory { product: Item::PurpleGrape, stock: 1 })
    ));
    assert!(board.place_building(
        hex(-3, 3),
        Cell::Factory(Factory { product: Item::Orange, stock: 1 })
    ));
    assert_eq!(board.lacking_items(), vec![Item::RedApple, Item::YellowLemon]);
}

#[test]
fn plans_for_the_next_building() {
    let lacking = vec![Item::RedApple, Item::YellowLemon];
    assert_eq!(
        Board::plan(&lacking, 0, false, true, Item::Orange),
        Blueprint::Factory(Item::RedApple)
    );
    assert_eq!(
        Board::plan(&lacking, 1, false, true, Item::Orange),
        Blueprint::Factory(Item::YellowLemon)
    );
    assert_eq!(
        Board::plan(&lacking, 2, true, false, Item::Orange),
        Blueprint::Factory(Item::RedApple)
    );
    let none = vec![];
    assert_eq!(
        Board::plan(&none, 0, true, true, Item::Orange),
        Blueprint::Factory(Item::Orange)
    );
    assert_eq!(
        Board::plan(&none, 0, false, true, Item::Orange),
        Blueprint::Market(ItemFilter::Any)
    );
    assert_eq!(
        Board::plan(&none, 0, false, false, Item::Orange),
        Blueprint::Market(ItemFilter::Specific(Item::Orange))
    );
}

#[test]
fn a_market_without_a_factory_gets_one() {
    for _ in 0..50 {
        let mut board = Board::new(5);
        let market = Cell::Market(Market {
            request: ItemFilter::Specific(Item::RedApple),
            demand: 4,
            prices: steady_prices(),
        });
        assert!(board.place_building(hex(6, 0), market));
        board.add_building(250);
        let mut factories = 0;
        for c in hex(0, 0).ring(6) {
            match board.cell_at(c) {
                Some(Cell::Factory(f)) => {
                    assert_eq!(f.product, Item::RedApple);
                    assert!(1 <= f.stock && f.stock < 5);
                    factories += 1;
                }
                Some(cell) => {
                    assert_eq!(c, hex(6, 0));
                    assert_eq!(cell, market);
                }
                None => {}
            }
        }
        assert_eq!(factories, 1);
        assert_eq!(board.coordinates().len(), 93);
        assert_eq!(board.lacking_items(), vec![]);
    }
}

#[test]
fn new_buildings_fill_the_ring() {
    let mut board = Board::new(0);
    for n in 1..=6 {
        let lacking = board.lacking_items();
        let before: Vec<Coordinate> = board.coordinates();
        board.add_building(n * 250);
        assert_eq!(count_cells(&board, is_building), n as usize);
        let added: Vec<Coordinate> =
            board.coordinates().into_iter().filter(|c| !before.contains(c)).collect();
        assert_eq!(added.len(), 1);
        assert_eq!(hex(0, 0).distance(added[0]), 1);
        if !lacking.is_empty() {
            match board.cell_at(added[0]) {
                Some(Cell::Factory(f)) => assert!(lacking.contains(&f.product)),
                _ => panic!(),
            }
        }
    }
    for c in hex(0, 0).ring(1) {
        match board.cell_at(c) {
            Some(Cell::Factory(f)) => assert!(1 <= f.stock && f.stock < 5),
            Some(Cell::Market(m)) => assert!(2 <= m.demand && m.demand < 10),
            _ => panic!(),
        }
    }
    let before: Vec<Option<Cell>> = hex(0, 0).ring(1).iter().map(|c| board.cell_at(*c)).collect();
    board.add_building(1750);
    let after: Vec<Option<Cell>> = hex(0, 0).ring(1).iter().map(|c| board.cell_at(*c)).collect();
    assert_eq!(before, after);
    assert_eq!(board.coordinates().len(), 7);
}

#[test]
fn no_building_is_added_between_the_spawn_frames() {
    let mut board = Board::new(2);
    for frame in 1..60 {
        board.update(frame);
    }
    assert_eq!(count_cells(&board, is_building), 0);
    assert_eq!(board.coordinates().len(), 19);
}

#[test]
fn buildings_are_added_while_there_are_few() {
    let mut board = Board::new(2);
    for _ in 0..400 {
        board.update(60);
    }
    assert_eq!(count_cells(&board, is_building), 6);
    assert_eq!(board.coordinates().len(), 25);
}
