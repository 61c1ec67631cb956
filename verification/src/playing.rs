//! The mode in which the game is played: the board, the player's money,
//! tax and hand, and what a frame of play does to them.

use crate::board::{blank_grid, settled, Board};
use crate::fleet::capped;
use crate::spawn::{buildings, fits, lemma_ring_has_room, settled_on_ring, spawn_due, spawned};
use crate::cards::{Card, CardInstruction, SelectedCard};
use crate::cells::Cell;
use crate::hex::Coordinate;
use crate::lose::ModeLose;
use crate::modes::{GameMode, Input, Transition, CARD_TOP_POS, SLOT_WIDTH};
use crate::trucks::{Treads, Truck};
use vstd::prelude::*;

verus! {

/// Tax happens every this many frames.
pub const TAX_TIMER: u64 = 1200;

/// Max hand size.
pub const HAND_SIZE: usize = 5;

/// The radius of the board of a game.
pub const BOARD_RADIUS: usize = 5;

/// The money with which a game starts.
pub const FIRST_MONEY: u32 = 100;

/// The number of buildings with which a game starts.
pub const OPENING_BUILDINGS: u64 = 6;

/// The buildings of the opening are made as if this many frames had
/// elapsed between one and the next.
pub const OPENING_PACE: u64 = 250;

/// What the player owns.
pub struct PlayerInfo {
    /// How much money I have.
    pub money: u32,
    /// Current tax rate.
    pub tax: u32,
    /// All the money I have ever earned.
    pub highscore: u32,
    /// The cards the player has in hand.
    pub hand: Vec<Card>,
    /// The currently selected card.
    pub selected_card: Option<SelectedCard>,
}

/// The mode in which the game is played.
pub struct ModePlaying {
    board: Board,
    player_info: PlayerInfo,
    /// How many frames this mode has been alive.
    frames_elapsed: u64,
}

/// What becomes of a card that is let go.
#[derive(Debug, Clone, Copy, PartialEq, Eq)]
pub enum CardStatus {
    /// It has been put on the board.
    Place,
    /// It goes back to where it came from.
    ReturnToHand,
    /// It is thrown away.
    Discard,
}

/// A game as the rules see it.
pub struct Game {
    pub cells: Map<Coordinate, Cell>,
    pub trucks: Seq<Truck>,
    pub treads: Seq<Treads>,
    pub radius: int,
    pub money: u32,
    pub tax: u32,
    pub highscore: u32,
    pub hand: Seq<Card>,
    pub selected: Option<SelectedCard>,
    pub frames: u64,
}

/// The sum of two amounts, or the largest amount if the sum is beyond
/// it.
pub open spec fn topped(a: u32, b: int) -> u32 {
    capped(a + b) as u32
}

/// `n + 1`, or `n` if it is the largest number.
pub open spec fn next_frame(n: u64) -> u64 {
    if n == u64::MAX {
        n
    } else {
        (n + 1) as u64
    }
}

/// The board's part of a frame: the board is updated, and what it has
/// earned and incurred is added to the player's money, score and tax.
pub open spec fn board_turn(before: Game, after: Game) -> bool {
    let scene = settled(before.cells, before.trucks, before.treads, before.frames);
    &&& after.trucks == scene.trucks
    &&& after.treads == scene.treads
    &&& after.cells == scene.cells || (spawn_due(
        buildings(scene.cells).len() as int,
        scene.trucks.len() as int,
        before.frames,
    ) && spawned(scene.cells, after.cells, before.radius, before.frames))
    &&& after.radius == before.radius
    &&& after.money == topped(before.money, scene.money)
    &&& after.highscore == topped(before.highscore, scene.money)
    &&& after.tax == topped(before.tax, scene.tax)
    &&& after.hand == before.hand
    &&& after.selected == before.selected
    &&& after.frames == before.frames
}

/// The tax collector's part: if the money does not cover the tax, the
/// game is over and nothing changes. Else the tax is paid, a hand that
/// is not full gets a new card, and the tax rises by one.
pub open spec fn tax_turn(before: Game, after: Game, over: bool) -> bool {
    if before.money < before.tax {
        over && after == before
    } else {
        &&& !over
        &&& after.money == before.money - before.tax
        &&& after.tax == topped(before.tax, 1)
        &&& if before.hand.len() < HAND_SIZE {
            exists|card: Card| #[trigger]
                card.can_be_drawn() && after.hand == before.hand.push(card)
        } else {
            after.hand == before.hand
        }
        &&& after.cells == before.cells
        &&& after.trucks == before.trucks
        &&& after.treads == before.treads
        &&& after.radius == before.radius
        &&& after.highscore == before.highscore
        &&& after.selected == before.selected
        &&& after.frames == before.frames
    }
}

/// Whether the pointer is over the hand or the slot that draws a card.
pub open spec fn over_hand(pointer: (i32, i32)) -> bool {
    pointer.0 > SLOT_WIDTH && pointer.1 >= CARD_TOP_POS
}

/// The place in the hand that the pointer is over.
pub open spec fn hand_slot(pointer: (i32, i32)) -> int {
    pointer.0 / SLOT_WIDTH - 1
}

/// The card that is picked up from place `slot` of the hand.
pub open spec fn picked_from_hand(hand: Seq<Card>, slot: int, pointer: (i32, i32)) -> SelectedCard {
    SelectedCard {
        original_idx: Some(slot as usize),
        card: hand[slot],
        rotation: hand[slot].first_rotation(),
        position: pointer,
    }
}

/// The card that is picked up when `instruction` is taken off the
/// board.
pub open spec fn picked_from_board(
    instruction: crate::cells::Instruction,
    pointer: (i32, i32),
) -> SelectedCard {
    SelectedCard {
        original_idx: None,
        card: Card::Instruction(CardInstruction::lifted(instruction).0),
        rotation: CardInstruction::lifted(instruction).1,
        position: pointer,
    }
}

/// The rotation of a dragged card after a frame's input: one less if
/// the wheel has gone up or the left key down; else one more if the
/// wheel has gone down or the right key down. It stops at the ends of
/// the 32-bit range.
pub open spec fn rotated(rotation: i32, input: Input) -> i32 {
    if input.scroll > 0 || input.turn_left {
        if rotation > i32::MIN {
            (rotation - 1) as i32
        } else {
            rotation
        }
    } else if input.scroll < 0 || input.turn_right {
        if rotation < i32::MAX {
            (rotation + 1) as i32
        } else {
            rotation
        }
    } else {
        rotation
    }
}

/// What becomes of a dragged card that is let go. Over the board, an
/// instruction is placed on an empty cell or on another instruction, a
/// truck is always placed, a cleanup is placed on any cell; what cannot
/// be placed goes back. Off the board, the card is thrown away over the
/// trash, and goes back elsewhere.
pub open spec fn drop_status(
    cells: Map<Coordinate, Cell>,
    radius: int,
    card: Card,
    input: Input,
) -> CardStatus {
    if input.hex.reach() <= radius {
        match card {
            Card::Instruction(_) => if cells.contains_key(input.hex) && (cells[input.hex] is Empty
                || cells[input.hex] is Instruction) {
                CardStatus::Place
            } else {
                CardStatus::ReturnToHand
            },
            Card::Truck { .. } => CardStatus::Place,
            Card::Cleanup => if cells.contains_key(input.hex) {
                CardStatus::Place
            } else {
                CardStatus::ReturnToHand
            },
        }
    } else if input.pointer.0 < SLOT_WIDTH {
        CardStatus::Discard
    } else {
        CardStatus::ReturnToHand
    }
}

/// The cells after a dragged card was let go: a placed instruction lies
/// on the hex under the pointer, a placed cleanup has emptied it.
pub open spec fn dropped_cells(
    cells: Map<Coordinate, Cell>,
    radius: int,
    selected: SelectedCard,
    input: Input,
) -> Map<Coordinate, Cell> {
    if drop_status(cells, radius, selected.card, input) is Place {
        match selected.card {
            Card::Instruction(blueprint) => cells.insert(
                input.hex,
                Cell::Instruction(blueprint.laid(selected.rotation)),
            ),
            Card::Truck { .. } => cells,
            Card::Cleanup => cells.insert(input.hex, Cell::Empty),
        }
    } else {
        cells
    }
}

/// The trucks after a dragged card was let go: a placed truck stands on
/// the hex under the pointer and moves after all others.
pub open spec fn dropped_trucks(
    cells: Map<Coordinate, Cell>,
    trucks: Seq<Truck>,
    radius: int,
    selected: SelectedCard,
    input: Input,
) -> Seq<Truck> {
    if drop_status(cells, radius, selected.card, input) is Place {
        match selected.card {
            Card::Truck { cargo } => trucks.push(
                Truck::placed(input.hex, cargo, selected.rotation),
            ),
            _ => trucks,
        }
    } else {
        trucks
    }
}

/// Whether a card that came from the hand leaves it for good: it was
/// thrown away, or it was placed and the money covers its cost.
pub open spec fn leaves_hand(money: u32, selected: SelectedCard, status: CardStatus) -> bool {
    selected.original_idx is Some && match status {
        CardStatus::Place => selected.card.price() <= money,
        CardStatus::Discard => true,
        CardStatus::ReturnToHand => false,
    }
}

/// The hand after a dragged card was let go.
pub open spec fn dropped_hand(
    hand: Seq<Card>,
    money: u32,
    selected: SelectedCard,
    status: CardStatus,
) -> Seq<Card> {
    if leaves_hand(money, selected, status) {
        hand.remove(selected.original_idx->0 as int)
    } else {
        hand
    }
}

/// The money after a dragged card was let go: a card from the hand
/// that was placed has been paid for, if the money covers its cost.
pub open spec fn dropped_money(money: u32, selected: SelectedCard, status: CardStatus) -> u32 {
    if status is Place && leaves_hand(money, selected, status) {
        (money - selected.card.price()) as u32
    } else {
        money
    }
}

/// The game after the dragged card was let go.
pub open spec fn released(before: Game, selected: SelectedCard, input: Input) -> Game {
    let status = drop_status(before.cells, before.radius, selected.card, input);
    Game {
        cells: dropped_cells(before.cells, before.radius, selected, input),
        trucks: dropped_trucks(before.cells, before.trucks, before.radius, selected, input),
        hand: dropped_hand(before.hand, before.money, selected, status),
        money: dropped_money(before.money, selected, status),
        selected: None,
        ..before
    }
}

/// The game after a press of the button with no card selected, off the
/// hand: an instruction under the pointer is picked up from the board.
pub open spec fn pressed_on_board(before: Game, input: Input) -> Game {
    if before.cells.contains_key(input.hex) {
        match before.cells[input.hex] {
            Cell::Instruction(instruction) => Game {
                cells: before.cells.insert(input.hex, Cell::Empty),
                selected: Some(picked_from_board(instruction, input.pointer)),
                ..before
            },
            _ => before,
        }
    } else {
        before
    }
}

/// The player's part of a frame. With no card selected, a press of the
/// button picks a card up from the hand, draws a card at the price of
/// the tax, or picks an instruction up from the board. With a card
/// selected, the card is turned while the button is held and let go
/// when it is not.
pub open spec fn input_turn(before: Game, input: Input, after: Game, over: bool) -> bool {
    match before.selected {
        None => {
            if !input.pressed {
                !over && after == before
            } else if over_hand(input.pointer) {
                let slot = hand_slot(input.pointer);
                if slot < before.hand.len() {
                    !over && after == (Game {
                        selected: Some(picked_from_hand(before.hand, slot, input.pointer)),
                        ..before
                    })
                } else if slot == HAND_SIZE {
                    tax_turn(before, after, over)
                } else {
                    !over && after == before
                }
            } else {
                !over && after == pressed_on_board(before, input)
            }
        },
        Some(selected) => {
            !over && if input.held {
                after == (Game {
                    selected: Some(
                        SelectedCard { rotation: rotated(selected.rotation, input), ..selected },
                    ),
                    ..before
                })
            } else {
                after == released(before, selected, input)
            }
        },
    }
}

/// Whether a transition ends the game with the given score.
pub open spec fn game_over(transition: Transition, score: u32) -> bool {
    transition matches Transition::Swap(GameMode::Lose(lost)) && lost.score() == score
        && lost.age() == 0
}

/// What follows the board's part of a frame when the tax is not due or
/// has been paid: the player's part; then either the game is over, or
/// one more frame has elapsed.
pub open spec fn rest_of_frame(
    before: Game,
    input: Input,
    after: Game,
    transition: Transition,
) -> bool {
    exists|played: Game, over: bool| #[trigger]
        input_turn(before, input, played, over) && if over {
            after == played && game_over(transition, played.highscore)
        } else {
            after == (Game { frames: next_frame(played.frames), ..played }) && transition is Stay
        }
}

/// Whether the tax is due on a frame: on every multiple of `TAX_TIMER`
/// but the first.
pub open spec fn tax_due(frames: u64) -> bool {
    frames % TAX_TIMER == 0 && frames != 0
}

/// A frame of play: the board's part; the tax collector's part if the
/// tax is due; unless the game is then over, the player's part.
pub open spec fn frame(before: Game, input: Input, after: Game, transition: Transition) -> bool {
    exists|moved: Game| #[trigger]
        board_turn(before, moved) && if tax_due(before.frames) {
            exists|taxed: Game, over: bool| #[trigger]
                tax_turn(moved, taxed, over) && if over {
                    after == taxed && game_over(transition, taxed.highscore)
                } else {
                    rest_of_frame(taxed, input, after, transition)
                }
        } else {
            rest_of_frame(moved, input, after, transition)
        }
}

/// The tax never takes more than the player has. The game is over
/// exactly when the money does not cover the tax; the money and the
/// score are then what they were. Else the money has gone down by the
/// tax and the score is what it was.
pub proof fn lemma_tax_never_overdraws(before: Game, after: Game, over: bool)
    requires
        tax_turn(before, after, over),
    ensures
        over <==> before.money < before.tax,
        over ==> after.money == before.money,
        !over ==> after.money + before.tax == before.money,
        after.highscore == before.highscore,
{
}

/// A frame that ends the game ends it with the score that the player
/// has reached.
pub proof fn lemma_lost_game_keeps_score(
    before: Game,
    input: Input,
    after: Game,
    transition: Transition,
)
    requires
        frame(before, input, after, transition),
    ensures
        transition is Stay || game_over(transition, after.highscore),
{
}

/// Over a frame the tax never falls, and neither does the score.
pub proof fn lemma_tax_and_score_never_fall(
    before: Game,
    input: Input,
    after: Game,
    transition: Transition,
)
    requires
        frame(before, input, after, transition),
    ensures
        after.tax >= before.tax,
        after.highscore >= before.highscore,
{
    crate::board::lemma_settled_sums(before.cells, before.trucks, before.treads, before.frames);
}

/// A card that is placed for more than the player has still changes
/// the board, and neither the money nor the hand.
pub proof fn lemma_unpaid_card_is_placed(before: Game, selected: SelectedCard, input: Input)
    requires
        drop_status(before.cells, before.radius, selected.card, input) is Place,
        selected.card.price() > before.money,
    ensures
        released(before, selected, input).money == before.money,
        released(before, selected, input).hand == before.hand,
        released(before, selected, input).cells == dropped_cells(
            before.cells,
            before.radius,
            selected,
            input,
        ),
        released(before, selected, input).selected is None,
{
}

/// On a board as it is before the first frame, with fewer than six
/// buildings, a building that is to be added is added.
pub proof fn lemma_building_added(
    before: Map<Coordinate, Cell>,
    after: Map<Coordinate, Cell>,
    n: nat,
    frames_elapsed: u64,
)
    requires
        freshly_built(before, BOARD_RADIUS as int, n),
        n < 6,
        spawned(before, after, BOARD_RADIUS as int, frames_elapsed),
    ensures
        freshly_built(after, BOARD_RADIUS as int, n + 1),
{
    let radius = BOARD_RADIUS as int;
    let building = choose|building: Cell| #[trigger]
        fits(before, building, frames_elapsed) && settled_on_ring(before, after, building, radius);
    lemma_ring_has_room(before, radius, buildings(before));
    let full = forall|c: Coordinate| #[trigger] c.reach() == radius + 1 ==> before.contains_key(c);
    assert(!full);
    let at = choose|c: Coordinate| #[trigger]
        c.reach() == radius + 1 && !before.contains_key(c) && after == before.insert(c, building);
    assert(building.is_building());
    assert(buildings(after) =~= buildings(before).insert(at));
}

/// Whether `stages` are the grids of a board of the given radius
/// while its opening's buildings were added: the first has an empty
/// cell on every hex, and each later one is the one before with a
/// building added, as if `OPENING_PACE` frames had elapsed since.
pub open spec fn opening(stages: Seq<Map<Coordinate, Cell>>, radius: int) -> bool {
    &&& stages.len() > 0
    &&& stages[0] == blank_grid(radius)
    &&& forall|i: int|
        0 <= i < stages.len() - 1 ==> spawned(
            #[trigger] stages[i],
            stages[i + 1],
            radius,
            ((i + 1) * OPENING_PACE) as u64,
        )
}

/// Whether `cells` can be the grid of a board of the given radius on
/// which `n` buildings were to be added, one after the other.
pub open spec fn opened(cells: Map<Coordinate, Cell>, radius: int, n: nat) -> bool {
    exists|stages: Seq<Map<Coordinate, Cell>>| #[trigger]
        opening(stages, radius) && stages.len() == n + 1 && stages.last() == cells
}

/// Whether `cells` are what a board of the given radius holds before
/// the first frame: an empty cell on every hex within the radius, and
/// `n` buildings on the ring one step outside, and nothing else.
pub open spec fn freshly_built(cells: Map<Coordinate, Cell>, radius: int, n: nat) -> bool {
    &&& forall|c: Coordinate| #[trigger]
        c.reach() <= radius ==> cells.contains_key(c) && cells[c] == Cell::Empty
    &&& forall|c: Coordinate| #[trigger]
        cells.contains_key(c) ==> c.reach() <= radius || (c.reach() == radius + 1
            && cells[c].is_building())
    &&& buildings(cells).finite()
    &&& buildings(cells).len() == n
}

impl View for ModePlaying {
    type V = Game;

    closed spec fn view(&self) -> Game {
        Game {
            cells: self.board.grid(),
            trucks: self.board.fleet(),
            treads: self.board.trail(),
            radius: self.board.size(),
            money: self.player_info.money,
            tax: self.player_info.tax,
            highscore: self.player_info.highscore,
            hand: self.player_info.hand@,
            selected: self.player_info.selected_card,
            frames: self.frames_elapsed,
        }
    }
}

impl ModePlaying {
    /// The board of the game.
    pub closed spec fn table(&self) -> Board {
        self.board
    }

    /// What every game keeps: its board is well formed and shown as it
    /// is; the hand is never larger than `HAND_SIZE`; and a selected
    /// card that came from the hand points at a place in it.
    pub open spec fn wf(&self) -> bool {
        &&& self.table().wf()
        &&& self@.cells == self.table().grid()
        &&& self@.trucks == self.table().fleet()
        &&& self@.treads == self.table().trail()
        &&& self@.radius == self.table().size()
        &&& self@.hand.len() <= HAND_SIZE
        &&& self@.selected matches Some(selected) ==> (selected.original_idx matches Some(i) ==> i
            < self@.hand.len())
    }

    /// Whether this is a game at its start: no frame has elapsed, the
    /// board holds the opening's buildings and neither trucks nor
    /// treads, and the player has the first money, the first hand and
    /// no tax to pay.
    pub open spec fn is_new(&self) -> bool {
        &&& self@.frames == 0
        &&& self@.radius == BOARD_RADIUS
        &&& opened(self@.cells, BOARD_RADIUS as int, OPENING_BUILDINGS as nat)
        &&& freshly_built(self@.cells, BOARD_RADIUS as int, OPENING_BUILDINGS as nat)
        &&& self@.trucks == Seq::<Truck>::empty()
        &&& self@.treads == Seq::<Treads>::empty()
        &&& self@.money == FIRST_MONEY
        &&& self@.tax == 0
        &&& self@.highscore == 0
        &&& self@.hand == Card::first_hand()
        &&& self@.selected is None
    }

    /// A game at its start.
    pub fn new() -> (game: ModePlaying)
        ensures
            game.wf(),
            game.is_new(),
    {
        let mut board = Board::new(BOARD_RADIUS);
        let mut idx: u64 = 0;
        let ghost mut stages = seq![board.grid()];
        proof {
            assert(buildings(board.grid()) =~= Set::<Coordinate>::empty());
        }
        while idx < OPENING_BUILDINGS
            invariant
                idx <= OPENING_BUILDINGS,
                board.wf(),
                board.size() == BOARD_RADIUS,
                board.fleet() == Seq::<Truck>::empty(),
                board.trail() == Seq::<Treads>::empty(),
                opening(stages, BOARD_RADIUS as int),
                stages.len() == idx + 1,
                stages.last() == board.grid(),
                freshly_built(board.grid(), BOARD_RADIUS as int, idx as nat),
            decreases OPENING_BUILDINGS - idx,
        {
            let ghost earlier = stages;
            let ghost before = board.grid();
            board.add_building((idx + 1) * OPENING_PACE);
            idx += 1;
            proof {
                lemma_building_added(
                    before,
                    board.grid(),
                    (idx - 1) as nat,
                    (idx * OPENING_PACE) as u64,
                );
                stages = earlier.push(board.grid());
                assert forall|i: int| 0 <= i < stages.len() - 1 implies spawned(
                    #[trigger] stages[i],
                    stages[i + 1],
                    BOARD_RADIUS as int,
                    ((i + 1) * OPENING_PACE) as u64,
                ) by {
                    if i < earlier.len() - 1 {
                        assert(stages[i] == earlier[i] && stages[i + 1] == earlier[i + 1]);
                    }
                }
            }
        }
        let player_info = PlayerInfo {
            hand: Card::starting_hand(),
            highscore: 0,
            money: FIRST_MONEY,
            tax: 0,
            selected_card: None,
        };
        ModePlaying { board, player_info, frames_elapsed: 0 }
    }

    /// The board of the game.
    pub fn board(&self) -> (board: &Board)
        ensures
            *board == self.table(),
    {
        &self.board
    }

    /// What the player owns.
    pub fn player_info(&self) -> (info: &PlayerInfo)
        ensures
            info.money == self@.money,
            info.tax == self@.tax,
            info.highscore == self@.highscore,
            info.hand@ == self@.hand,
            info.selected_card == self@.selected,
    {
        &self.player_info
    }

    /// How many frames this mode has been alive.
    pub fn frames_elapsed(&self) -> (frames: u64)
        ensures
            frames == self@.frames,
    {
        self.frames_elapsed
    }

    /// Collects the tax. Returns `true` if the money does not cover it:
    /// the game is then over.
    pub fn apply_tax(&mut self) -> (over: bool)
        requires
            old(self).wf(),
        ensures
            final(self).wf(),
            tax_turn(old(self)@, final(self)@, over),
    {
        match self.player_info.money.checked_sub(self.player_info.tax) {
            Some(left) => {
                self.player_info.money = left;
            },
            None => {
                return true;
            },
        }
        if self.player_info.hand.len() < HAND_SIZE {
            let card = Card::generate();
            self.player_info.hand.push(card);
            assert(card.can_be_drawn() && self@.hand == old(self)@.hand.push(card));
        }
        self.player_info.tax = self.player_info.tax.saturating_add(1);
        false
    }

    /// Updates the board for one frame and adds what it has earned and
    /// incurred to the player's money, score and tax.
    pub fn run_board(&mut self)
        requires
            old(self).wf(),
        ensures
            final(self).wf(),
            board_turn(old(self)@, final(self)@),
    {
        let (dmoney, dtax) = self.board.update(self.frames_elapsed);
        self.player_info.money = self.player_info.money.saturating_add(dmoney);
        self.player_info.tax = self.player_info.tax.saturating_add(dtax);
        self.player_info.highscore = self.player_info.highscore.saturating_add(dmoney);
        proof {
            crate::board::lemma_settled_sums(
                old(self)@.cells,
                old(self)@.trucks,
                old(self)@.treads,
                old(self)@.frames,
            );
        }
    }

    /// What becomes of the selected card when it is let go, with what
    /// that does to the board.
    fn drop_card(&mut self, selected: &SelectedCard, input: &Input) -> (status: CardStatus)
        requires
            old(self).wf(),
        ensures
            final(self).wf(),
            status == drop_status(old(self)@.cells, old(self)@.radius, selected.card, *input),
            final(self)@ == (Game {
                cells: dropped_cells(old(self)@.cells, old(self)@.radius, *selected, *input),
                trucks: dropped_trucks(
                    old(self)@.cells,
                    old(self)@.trucks,
                    old(self)@.radius,
                    *selected,
                    *input,
                ),
                ..old(self)@
            }),
    {
        if self.board.within_radius(input.hex) {
            match selected.card {
                Card::Instruction(blueprint) => {
                    let instruction = blueprint.to_instruction(selected.rotation);
                    if self.board.place_instruction(input.hex, instruction) {
                        CardStatus::Place
                    } else {
                        CardStatus::ReturnToHand
                    }
                },
                Card::Truck { cargo } => {
                    self.board.place_truck(input.hex, cargo, selected.rotation);
                    CardStatus::Place
                },
                Card::Cleanup => {
                    if self.board.cleanup(input.hex) {
                        CardStatus::Place
                    } else {
                        CardStatus::ReturnToHand
                    }
                },
            }
        } else if input.pointer.0 < SLOT_WIDTH {
            CardStatus::Discard
        } else {
            CardStatus::ReturnToHand
        }
    }

    /// Lets the selected card go.
    fn release(&mut self, selected: SelectedCard, input: &Input)
        requires
            old(self).wf(),
            old(self)@.selected == Some(selected),
        ensures
            final(self).wf(),
            final(self)@ == released(old(self)@, selected, *input),
    {
        let status = self.drop_card(&selected, input);
        match status {
            CardStatus::Place => {
                let cost = selected.card.cost();
                if cost <= self.player_info.money {
                    if let Some(original_idx) = selected.original_idx {
                        self.player_info.hand.remove(original_idx);
                        self.player_info.money = self.player_info.money - cost;
                    }
                }
            },
            CardStatus::Discard => {
                if let Some(original_idx) = selected.original_idx {
                    self.player_info.hand.remove(original_idx);
                }
            },
            CardStatus::ReturnToHand => {},
        }
        self.player_info.selected_card = None;
    }

    /// The player's part of a frame. Returns `true` if the game is over.
    pub fn handle_input(&mut self, input: &Input) -> (over: bool)
        requires
            old(self).wf(),
        ensures
            final(self).wf(),
            input_turn(old(self)@, *input, final(self)@, over),
    {
        match self.player_info.selected_card {
            None => {
                if !input.pressed {
                    return false;
                }
                if input.pointer.0 > SLOT_WIDTH && input.pointer.1 >= CARD_TOP_POS {
                    let slot: usize = (input.pointer.0 / SLOT_WIDTH - 1) as usize;
                    if slot < self.player_info.hand.len() {
                        let card = self.player_info.hand[slot];
                        self.player_info.selected_card = Some(
                            SelectedCard {
                                original_idx: Some(slot),
                                card,
                                rotation: card.initial_rotation(),
                                position: input.pointer,
                            },
                        );
                        false
                    } else if slot == HAND_SIZE {
                        self.apply_tax()
                    } else {
                        false
                    }
                } else {
                    match self.board.take_instruction(input.hex) {
                        Some(instruction) => {
                            let (blueprint, rotation) = CardInstruction::from_instruction(
                                &instruction,
                            );
                            self.player_info.selected_card = Some(
                                SelectedCard {
                                    card: Card::Instruction(blueprint),
                                    rotation,
                                    original_idx: None,
                                    position: input.pointer,
                                },
                            );
                        },
                        None => {},
                    }
                    false
                }
            },
            Some(selected) => {
                if !input.held {
                    self.release(selected, input);
                } else {
                    let rotation: i32 = if input.scroll > 0 || input.turn_left {
                        if selected.rotation > i32::MIN {
                            selected.rotation - 1
                        } else {
                            selected.rotation
                        }
                    } else if input.scroll < 0 || input.turn_right {
                        if selected.rotation < i32::MAX {
                            selected.rotation + 1
                        } else {
                            selected.rotation
                        }
                    } else {
                        selected.rotation
                    };
                    self.player_info.selected_card = Some(
                        SelectedCard {
                            original_idx: selected.original_idx,
                            card: selected.card,
                            position: selected.position,
                            rotation,
                        },
                    );
                }
                false
            },
        }
    }

    /// The player's part of a frame and its end: either the game is
    /// over, or one more frame has elapsed.
    fn finish_frame(&mut self, input: &Input) -> (transition: Transition)
        requires
            old(self).wf(),
        ensures
            final(self).wf(),
            rest_of_frame(old(self)@, *input, final(self)@, transition),
    {
        if self.handle_input(input) {
            let ghost played = self@;
            let out = Transition::Swap(GameMode::Lose(ModeLose::new(self.player_info.highscore)));
            assert(input_turn(old(self)@, *input, played, true));
            return out;
        }
        let ghost played = self@;
        self.frames_elapsed = self.frames_elapsed.saturating_add(1);
        assert(input_turn(old(self)@, *input, played, false));
        Transition::Stay
    }

    /// Plays one frame: the board moves, the tax is collected when it
    /// is due, and the player's input is carried out.
    pub fn update(&mut self, input: &Input) -> (transition: Transition)
        requires
            old(self).wf(),
        ensures
            final(self).wf(),
            frame(old(self)@, *input, final(self)@, transition),
    {
        self.run_board();
        let ghost moved = self@;
        if self.frames_elapsed % TAX_TIMER == 0 && self.frames_elapsed != 0 {
            let over = self.apply_tax();
            let ghost taxed = self@;
            if over {
                let out = Transition::Swap(
                    GameMode::Lose(ModeLose::new(self.player_info.highscore)),
                );
                assert(tax_turn(moved, taxed, true));
                assert(board_turn(old(self)@, moved));
                return out;
            }
            let out = self.finish_frame(input);
            assert(tax_turn(moved, taxed, false));
            assert(board_turn(old(self)@, moved));
            return out;
        }
        let out = self.finish_frame(input);
        assert(board_turn(old(self)@, moved));
        out
    }
}

} // verus!
