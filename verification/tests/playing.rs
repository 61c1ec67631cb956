use gridlock::cards::{Card, CardInstruction, SelectedCard};
use gridlock::cells::{Cell, Instruction};
use gridlock::hex::{Coordinate, Direction};
use gridlock::modes::{GameMode, Input, Transition};
use gridlock::playing::{ModePlaying, HAND_SIZE, TAX_TIMER};
use gridlock::trucks::Truck;

fn hex(x: i32, y: i32) -> Coordinate {
    Coordinate::new(x, y)
}

/// A frame in which the player does nothing, the pointer off the board
/// and off the hand.
fn idle() -> Input {
    Input {
        pointer: (800, 100),
        hex: hex(40, 40),
        pressed: false,
        held: false,
        scroll: 0,
        turn_left: false,
        turn_right: false,
    }
}

/// A press on place `slot` of the hand.
fn press_slot(slot: i32) -> Input {
    Input { pointer: (110 * (slot + 1) + 50, 900), pressed: true, held: true, ..idle() }
}

/// The button held over `at`.
fn hold_over(at: Coordinate) -> Input {
    Input { pointer: (450, 400), hex: at, held: true, ..idle() }
}

/// The button let go over `at`.
fn let_go_over(at: Coordinate) -> Input {
    Input { pointer: (450, 400), hex: at, ..idle() }
}

fn stays(transition: Transition) -> bool {
    matches!(transition, Transition::Stay)
}

fn buildings(game: &ModePlaying) -> usize {
    game.board()
        .coordinates()
        .iter()
        .filter(|c| matches!(game.board().cell_at(**c), Some(Cell::Factory(_) | Cell::Market(_))))
        .count()
}

#[test]
fn a_game_at_its_start() {
    let game = ModePlaying::new();
    assert_eq!(game.frames_elapsed(), 0);
    assert_eq!(game.player_info().money, 100);
    assert_eq!(game.player_info().tax, 0);
    assert_eq!(game.player_info().highscore, 0);
    assert_eq!(game.player_info().hand, Card::starting_hand());
    assert_eq!(game.player_info().selected_card, None);
    assert_eq!(game.board().radius(), 5);
    assert!(game.board().trucks().is_empty());
    assert!(game.board().treads().is_empty());
    assert_eq!(game.board().coordinates().len(), 97);
    assert_eq!(buildings(&game), 6);
    for c in hex(0, 0).range(5) {
        assert_eq!(game.board().cell_at(c), Some(Cell::Empty));
    }
}

#[test]
fn idle_frames_pass() {
    let mut game = ModePlaying::new();
    for frame in 1..=100 {
        assert!(stays(game.update(&idle())));
        assert_eq!(game.frames_elapsed(), frame);
    }
    assert_eq!(game.player_info().money, 100);
    assert_eq!(game.player_info().tax, 0);
    assert_eq!(game.player_info().hand.len(), 5);
}

#[test]
fn tax_is_collected_when_the_timer_runs_out() {
    let mut game = ModePlaying::new();
    for _ in 0..TAX_TIMER {
        assert!(stays(game.update(&idle())));
    }
    assert_eq!(game.frames_elapsed(), TAX_TIMER);
    assert_eq!(game.player_info().tax, 0);
    assert!(stays(game.update(&idle())));
    assert_eq!(game.player_info().tax, 1);
    assert_eq!(game.player_info().money, 100);
    for _ in 0..TAX_TIMER {
        assert!(stays(game.update(&idle())));
    }
    assert_eq!(game.player_info().tax, 2);
    assert_eq!(game.player_info().money, 99);
}

#[test]
fn tax_is_paid_and_rises() {
    let mut game = ModePlaying::new();
    let mut money = 100;
    for tax in 0..14 {
        assert!(!game.apply_tax());
        money -= tax;
        assert_eq!(game.player_info().money, money);
        assert_eq!(game.player_info().tax, tax + 1);
        assert_eq!(game.player_info().hand.len(), 5);
    }
    assert_eq!(game.player_info().money, 9);
}

#[test]
fn tax_beyond_the_money_ends_the_game() {
    let mut game = ModePlaying::new();
    for _ in 0..14 {
        assert!(!game.apply_tax());
    }
    assert!(game.apply_tax());
    assert_eq!(game.player_info().money, 9);
    assert_eq!(game.player_info().tax, 14);
    assert_eq!(game.player_info().highscore, 0);
    assert_eq!(game.player_info().hand.len(), 5);
    assert!(game.apply_tax());
    assert_eq!(game.player_info().money, 9);
}

#[test]
fn tax_that_takes_the_last_money_is_paid() {
    let mut game = ModePlaying::new();
    assert!(stays(game.update(&press_slot(0))));
    assert!(stays(game.update(&let_go_over(hex(0, 0)))));
    assert_eq!(game.player_info().money, 50);
    assert!(stays(game.update(&press_slot(1))));
    assert!(stays(game.update(&let_go_over(hex(0, 1)))));
    assert_eq!(game.player_info().money, 30);
    assert!(stays(game.update(&press_slot(1))));
    assert!(stays(game.update(&let_go_over(hex(1, 1)))));
    assert_eq!(game.player_info().money, 10);
    assert_eq!(
        game.player_info().hand,
        vec![Card::Truck { cargo: None }, Card::Cleanup]
    );
    for _ in 0..4 {
        assert!(!game.apply_tax());
    }
    assert_eq!(game.player_info().money, 4);
    assert_eq!(game.player_info().tax, 4);
    assert!(!game.apply_tax());
    assert_eq!(game.player_info().money, 0);
    assert_eq!(game.player_info().tax, 5);
    assert!(game.apply_tax());
    assert_eq!(game.player_info().money, 0);
}

#[test]
fn a_drawn_card_fills_the_hand() {
    let mut game = ModePlaying::new();
    assert!(stays(game.update(&press_slot(4))));
    let mut far_left = let_go_over(hex(40, 40));
    far_left.pointer = (50, 900);
    assert!(stays(game.update(&far_left)));
    assert_eq!(game.player_info().hand.len(), 4);
    assert!(stays(game.update(&press_slot(HAND_SIZE as i32))));
    assert_eq!(game.player_info().hand.len(), 5);
    assert_ne!(
        game.player_info().hand[4],
        Card::Instruction(CardInstruction::Rotate)
    );
    assert_eq!(game.player_info().hand[..4], Card::starting_hand()[..4]);
    assert_eq!(game.player_info().tax, 1);
    assert_eq!(game.player_info().selected_card, None);
    assert!(stays(game.update(&press_slot(HAND_SIZE as i32))));
    assert_eq!(game.player_info().hand.len(), 5);
    assert_eq!(game.player_info().tax, 2);
    assert_eq!(game.player_info().money, 99);
}

#[test]
fn drawing_without_money_ends_the_game() {
    let mut game = ModePlaying::new();
    for _ in 0..14 {
        assert!(stays(game.update(&press_slot(HAND_SIZE as i32))));
    }
    assert_eq!(game.player_info().money, 9);
    assert_eq!(game.frames_elapsed(), 14);
    match game.update(&press_slot(HAND_SIZE as i32)) {
        Transition::Swap(GameMode::Lose(lost)) => {
            assert_eq!(lost.highscore(), 0);
            assert_eq!(lost.frames_elapsed(), 0);
        }
        _ => panic!(),
    }
    assert_eq!(game.player_info().money, 9);
    assert_eq!(game.player_info().highscore, 0);
    assert_eq!(game.frames_elapsed(), 14);
}

#[test]
fn picking_a_card_from_the_hand() {
    let mut game = ModePlaying::new();
    assert!(stays(game.update(&press_slot(3))));
    assert_eq!(
        game.player_info().selected_card,
        Some(SelectedCard {
            original_idx: Some(3),
            card: Card::Instruction(CardInstruction::Shunt),
            position: (490, 900),
            rotation: 2,
        })
    );
    assert_eq!(game.player_info().hand.len(), 5);
    assert_eq!(game.player_info().money, 100);
}

#[test]
fn presses_beside_the_hand_pick_nothing() {
    let mut game = ModePlaying::new();
    let mut above = press_slot(2);
    above.pointer.1 = 839;
    assert!(stays(game.update(&above)));
    assert_eq!(game.player_info().selected_card, None);
    let mut trash = press_slot(-1);
    trash.pointer.0 = 110;
    assert!(stays(game.update(&trash)));
    assert_eq!(game.player_info().selected_card, None);
    assert!(stays(game.update(&press_slot(6))));
    assert_eq!(game.player_info().selected_card, None);
    assert_eq!(game.player_info().tax, 0);
    let mut edge = press_slot(0);
    edge.pointer = (111, 840);
    assert!(stays(game.update(&edge)));
    assert_eq!(game.player_info().selected_card.unwrap().original_idx, Some(0));
}

#[test]
fn a_held_card_is_turned() {
    let mut game = ModePlaying::new();
    assert!(stays(game.update(&press_slot(0))));
    let up = Input { scroll: 1, ..hold_over(hex(0, 0)) };
    let down = Input { scroll: -1, ..hold_over(hex(0, 0)) };
    let left = Input { turn_left: true, ..hold_over(hex(0, 0)) };
    let right = Input { turn_right: true, ..hold_over(hex(0, 0)) };
    let both = Input { turn_left: true, turn_right: true, scroll: -1, ..hold_over(hex(0, 0)) };
    let rotation = |game: &ModePlaying| game.player_info().selected_card.unwrap().rotation;
    assert_eq!(rotation(&game), 2);
    game.update(&up);
    assert_eq!(rotation(&game), 1);
    game.update(&left);
    assert_eq!(rotation(&game), 0);
    game.update(&left);
    assert_eq!(rotation(&game), -1);
    game.update(&both);
    assert_eq!(rotation(&game), -2);
    game.update(&down);
    assert_eq!(rotation(&game), -1);
    game.update(&right);
    assert_eq!(rotation(&game), 0);
    game.update(&hold_over(hex(0, 0)));
    assert_eq!(rotation(&game), 0);
    assert!(game.board().trucks().is_empty());
    game.update(&let_go_over(hex(0, 0)));
    assert_eq!(game.board().trucks().len(), 1);
    assert_eq!(game.board().trucks()[0].facing, Direction::YZ);
}

#[test]
fn a_truck_card_is_placed_and_paid() {
    let mut game = ModePlaying::new();
    assert!(stays(game.update(&press_slot(1))));
    assert!(stays(game.update(&let_go_over(hex(2, -3)))));
    assert_eq!(game.board().trucks(), &vec![Truck::from_rot(hex(2, -3), None, 2)]);
    assert_eq!(game.player_info().money, 50);
    assert_eq!(game.player_info().highscore, 0);
    assert_eq!(game.player_info().selected_card, None);
    assert_eq!(
        game.player_info().hand,
        vec![
            Card::Truck { cargo: None },
            Card::Instruction(CardInstruction::Direct),
            Card::Instruction(CardInstruction::Shunt),
            Card::Cleanup,
        ]
    );
}

#[test]
fn an_instruction_card_is_placed_and_paid() {
    let mut game = ModePlaying::new();
    assert!(stays(game.update(&press_slot(2))));
    assert!(stays(game.update(&Input { turn_right: true, ..hold_over(hex(1, 1)) })));
    assert!(stays(game.update(&let_go_over(hex(1, 1)))));
    assert_eq!(
        game.board().cell_at(hex(1, 1)),
        Some(Cell::Instruction(Instruction::Direct(Direction::ZY)))
    );
    assert_eq!(game.player_info().money, 80);
    assert_eq!(game.player_info().hand.len(), 4);
    assert!(stays(game.update(&press_slot(2))));
    assert!(stays(game.update(&let_go_over(hex(1, 1)))));
    assert_eq!(
        game.board().cell_at(hex(1, 1)),
        Some(Cell::Instruction(Instruction::Shunt(Direction::XY)))
    );
    assert_eq!(game.player_info().money, 60);
    assert_eq!(game.player_info().hand.len(), 3);
}

#[test]
fn a_card_that_cannot_be_paid_is_placed_all_the_same() {
    let mut game = ModePlaying::new();
    for _ in 0..14 {
        assert!(stays(game.update(&press_slot(HAND_SIZE as i32))));
    }
    assert_eq!(game.player_info().money, 9);
    assert!(stays(game.update(&press_slot(2))));
    assert!(stays(game.update(&let_go_over(hex(0, 0)))));
    assert_eq!(
        game.board().cell_at(hex(0, 0)),
        Some(Cell::Instruction(Instruction::Direct(Direction::XY)))
    );
    assert_eq!(game.player_info().money, 9);
    assert_eq!(game.player_info().hand, Card::starting_hand());
    assert_eq!(game.player_info().selected_card, None);
}

#[test]
fn a_card_let_go_over_the_trash_is_thrown_away() {
    let mut game = ModePlaying::new();
    assert!(stays(game.update(&press_slot(0))));
    let mut trash = let_go_over(hex(40, 40));
    trash.pointer = (109, 5);
    assert!(stays(game.update(&trash)));
    assert_eq!(game.player_info().hand.len(), 4);
    assert_eq!(game.player_info().money, 100);
    assert_eq!(game.player_info().selected_card, None);
    assert!(game.board().trucks().is_empty());
}

#[test]
fn a_card_let_go_elsewhere_goes_back() {
    let mut game = ModePlaying::new();
    assert!(stays(game.update(&press_slot(0))));
    let mut beside = let_go_over(hex(40, 40));
    beside.pointer = (110, 900);
    assert!(stays(game.update(&beside)));
    assert_eq!(game.player_info().hand, Card::starting_hand());
    assert_eq!(game.player_info().money, 100);
    assert_eq!(game.player_info().selected_card, None);
    assert!(game.board().trucks().is_empty());
}

#[test]
fn an_instruction_is_not_laid_on_a_building() {
    let mut game = ModePlaying::new();
    let site = hex(0, 0)
        .ring(6)
        .into_iter()
        .find(|c| game.board().cell_at(*c).is_some())
        .unwrap();
    let is_building = |game: &ModePlaying| {
        matches!(game.board().cell_at(site), Some(Cell::Factory(_) | Cell::Market(_)))
    };
    assert!(stays(game.update(&press_slot(2))));
    assert!(stays(game.update(&let_go_over(site))));
    assert!(is_building(&game));
    assert_eq!(game.player_info().hand, Card::starting_hand());
    assert_eq!(game.player_info().money, 100);
    assert!(stays(game.update(&press_slot(4))));
    assert!(stays(game.update(&let_go_over(site))));
    assert!(is_building(&game));
    assert_eq!(game.player_info().hand, Card::starting_hand());
    assert!(stays(game.update(&press_slot(0))));
    assert!(stays(game.update(&let_go_over(site))));
    assert!(game.board().trucks().is_empty());
    assert_eq!(game.player_info().hand, Card::starting_hand());
}

#[test]
fn cleanup_empties_a_cell() {
    let mut game = ModePlaying::new();
    assert!(stays(game.update(&press_slot(3))));
    assert!(stays(game.update(&let_go_over(hex(-2, 1)))));
    assert_eq!(
        game.board().cell_at(hex(-2, 1)),
        Some(Cell::Instruction(Instruction::Shunt(Direction::XY)))
    );
    assert_eq!(game.player_info().money, 80);
    assert!(stays(game.update(&press_slot(3))));
    assert_eq!(game.player_info().selected_card.unwrap().card, Card::Cleanup);
    assert_eq!(game.player_info().selected_card.unwrap().rotation, 0);
    assert!(stays(game.update(&let_go_over(hex(-2, 1)))));
    assert_eq!(game.board().cell_at(hex(-2, 1)), Some(Cell::Empty));
    assert_eq!(game.player_info().money, 70);
    assert_eq!(game.player_info().hand.len(), 3);
}

#[test]
fn an_instruction_is_picked_up_from_the_board() {
    let mut game = ModePlaying::new();
    assert!(stays(game.update(&press_slot(2))));
    assert!(stays(game.update(&Input { scroll: 1, ..hold_over(hex(1, 1)) })));
    assert!(stays(game.update(&let_go_over(hex(1, 1)))));
    assert_eq!(game.player_info().money, 80);
    let press = Input { pressed: true, ..hold_over(hex(1, 1)) };
    assert!(stays(game.update(&press)));
    assert_eq!(game.board().cell_at(hex(1, 1)), Some(Cell::Empty));
    assert_eq!(
        game.player_info().selected_card,
        Some(SelectedCard {
            original_idx: None,
            card: Card::Instruction(CardInstruction::Direct),
            position: (450, 400),
            rotation: 1,
        })
    );
    assert!(stays(game.update(&let_go_over(hex(-1, -1)))));
    assert_eq!(
        game.board().cell_at(hex(-1, -1)),
        Some(Cell::Instruction(Instruction::Direct(Direction::XZ)))
    );
    assert_eq!(game.player_info().money, 80);
    assert_eq!(game.player_info().hand.len(), 4);
    assert_eq!(game.player_info().selected_card, None);
}

#[test]
fn an_instruction_picked_up_and_let_go_off_the_board_is_gone() {
    let mut game = ModePlaying::new();
    assert!(stays(game.update(&press_slot(2))));
    assert!(stays(game.update(&let_go_over(hex(1, 1)))));
    assert!(stays(game.update(&Input { pressed: true, ..hold_over(hex(1, 1)) })));
    assert!(stays(game.update(&let_go_over(hex(40, 40)))));
    assert_eq!(game.board().cell_at(hex(1, 1)), Some(Cell::Empty));
    assert_eq!(game.player_info().hand.len(), 4);
    assert_eq!(game.player_info().money, 80);
    assert_eq!(game.player_info().selected_card, None);
}

#[test]
fn a_press_on_an_empty_cell_picks_nothing() {
    let mut game = ModePlaying::new();
    assert!(stays(game.update(&Input { pressed: true, ..hold_over(hex(1, 1)) })));
    assert_eq!(game.player_info().selected_card, None);
    assert_eq!(game.board().cell_at(hex(1, 1)), Some(Cell::Empty));
}

#[test]
fn a_truck_calls_at_a_building_of_the_opening() {
    let mut game = ModePlaying::new();
    let site = hex(0, 0)
        .ring(6)
        .into_iter()
        .find(|c| game.board().cell_at(*c).is_some())
        .unwrap();
    let building = game.board().cell_at(site).unwrap();
    let mut start = hex(0, 0);
    let mut rotation = 0;
    for r in 0..6 {
        let from = site.neighbor(Direction::from_int(r));
        if hex(0, 0).distance(from) <= 5 {
            start = from;
            rotation = r + 3;
        }
    }
    assert!(stays(game.update(&press_slot(0))));
    let mut turned = 2;
    while Direction::from_int(turned) != Direction::from_int(rotation) {
        let over = Input { turn_right: true, ..hold_over(start) };
        assert!(stays(game.update(&over)));
        turned += 1;
    }
    assert!(stays(game.update(&let_go_over(start))));
    assert_eq!(game.player_info().money, 50);
    for _ in 0..39 {
        assert!(stays(game.update(&idle())));
    }
    assert_eq!(game.player_info().tax, 0);
    assert_eq!(game.board().trucks()[0].position, start);
    assert!(stays(game.update(&idle())));
    let truck = game.board().trucks()[0];
    assert_eq!(truck.position, site);
    assert_eq!(truck.facing, Direction::from_int(rotation + 3));
    match building {
        Cell::Factory(factory) => {
            assert_eq!(truck.cargo, Some(factory.product));
            assert_eq!(game.player_info().tax, 0);
            match game.board().cell_at(site) {
                Some(Cell::Factory(left)) => assert_eq!(left.stock, factory.stock - 1),
                None => assert_eq!(factory.stock, 1),
                _ => panic!(),
            }
        }
        Cell::Market(market) => {
            assert_eq!(truck.cargo, None);
            assert_eq!(game.player_info().tax, 2);
            match game.board().cell_at(site) {
                Some(Cell::Market(left)) => assert_eq!(left.demand, market.demand),
                _ => panic!(),
            }
        }
        _ => panic!(),
    }
    assert_eq!(game.player_info().money, 50);
    assert_eq!(game.player_info().highscore, 0);
}

#[test]
fn the_tax_timer_ends_a_game_without_money() {
    let mut game = ModePlaying::new();
    assert!(stays(game.update(&press_slot(0))));
    assert!(stays(game.update(&let_go_over(hex(0, 0)))));
    assert!(stays(game.update(&press_slot(0))));
    assert!(stays(game.update(&let_go_over(hex(0, 0)))));
    assert_eq!(game.board().trucks().len(), 2);
    assert_eq!(game.player_info().money, 0);
    assert!(stays(game.update(&idle())));
    assert!(game.board().trucks().is_empty());
    assert_eq!(game.player_info().tax, 20);
    while game.frames_elapsed() < TAX_TIMER {
        assert!(stays(game.update(&idle())));
    }
    match game.update(&press_slot(1)) {
        Transition::Swap(GameMode::Lose(lost)) => {
            assert_eq!(lost.highscore(), 0);
            assert_eq!(lost.frames_elapsed(), 0);
        }
        _ => panic!(),
    }
    assert_eq!(game.frames_elapsed(), TAX_TIMER);
    assert_eq!(game.player_info().money, 0);
    assert_eq!(game.player_info().tax, 20);
    assert_eq!(game.player_info().highscore, 0);
    assert_eq!(game.player_info().selected_card, None);
    assert_eq!(game.player_info().hand.len(), 3);
}
