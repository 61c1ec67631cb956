//! The cards a player holds, and the card that is being dragged.

use crate::cells::Instruction;
use crate::chance::{chance, pick_index};
use crate::economy::Item;
use crate::hex::{Angle, Direction};
use vstd::prelude::*;

verus! {

/// An instruction blueprint on a card. Its direction or angle is only
/// settled when the card is put on the board.
#[derive(Debug, Clone, Copy, PartialEq, Eq, Structural)]
pub enum CardInstruction {
    /// Go in *this* direction.
    Direct,
    /// Rotate relative by *this* much.
    Rotate,
    /// Shunt in *this* direction.
    Shunt,
}

impl CardInstruction {
    /// The blueprint that draw `i` out of four gives: three times in
    /// four `Direct`, else `Shunt`.
    pub open spec fn drawn(i: int) -> CardInstruction {
        if i % 4 == 3 {
            CardInstruction::Shunt
        } else {
            CardInstruction::Direct
        }
    }

    /// The instruction that this blueprint becomes when it is laid with
    /// the given rotation.
    pub open spec fn laid(self, rotation: i32) -> Instruction {
        match self {
            CardInstruction::Direct => Instruction::Direct(Direction::at(rotation as int)),
            CardInstruction::Rotate => Instruction::Rotate(Angle::at(rotation as int)),
            CardInstruction::Shunt => Instruction::Shunt(Direction::at(rotation as int)),
        }
    }

    /// The blueprint and the rotation from which `instruction` is laid.
    pub open spec fn lifted(instruction: Instruction) -> (CardInstruction, i32) {
        match instruction {
            Instruction::Rotate(angle) => (CardInstruction::Rotate, angle.index() as i32),
            Instruction::Direct(direction) => (CardInstruction::Direct, direction.index() as i32),
            Instruction::Shunt(direction) => (CardInstruction::Shunt, direction.index() as i32),
        }
    }

    /// The blueprint that draw `i` out of four gives.
    pub fn from_draw(i: usize) -> (c: CardInstruction)
        ensures
            c == CardInstruction::drawn(i as int),
            c != CardInstruction::Rotate,
    {
        if i % 4 == 3 {
            CardInstruction::Shunt
        } else {
            CardInstruction::Direct
        }
    }

    /// Sample a random blueprint: never `Rotate`.
    pub fn sample() -> (c: CardInstruction)
        ensures
            c != CardInstruction::Rotate,
    {
        CardInstruction::from_draw(pick_index(4))
    }

    /// Turn this into an instruction, laid with the given rotation.
    pub fn to_instruction(&self, rotation: i32) -> (instruction: Instruction)
        ensures
            instruction == self.laid(rotation),
    {
        match self {
            CardInstruction::Direct => Instruction::Direct(Direction::from_int(rotation)),
            CardInstruction::Rotate => Instruction::Rotate(Angle::from_int(rotation)),
            CardInstruction::Shunt => Instruction::Shunt(Direction::from_int(rotation)),
        }
    }

    /// The blueprint and the rotation from which `instruction` is laid.
    pub fn from_instruction(instruction: &Instruction) -> (lifted: (CardInstruction, i32))
        ensures
            lifted == CardInstruction::lifted(*instruction),
            lifted.0.laid(lifted.1) == *instruction,
    {
        match instruction {
            Instruction::Rotate(angle) => (CardInstruction::Rotate, angle.to_int()),
            Instruction::Direct(direction) => (CardInstruction::Direct, direction.to_int()),
            Instruction::Shunt(direction) => (CardInstruction::Shunt, direction.to_int()),
        }
    }
}

/// A card held in hand.
#[derive(Debug, Clone, Copy, PartialEq, Eq)]
pub enum Card {
    Truck { cargo: Option<Item> },
    Instruction(CardInstruction),
    Cleanup,
}

impl Card {
    /// The hand with which a game starts.
    pub open spec fn first_hand() -> Seq<Card> {
        seq![
            Card::Truck { cargo: None },
            Card::Truck { cargo: None },
            Card::Instruction(CardInstruction::Direct),
            Card::Instruction(CardInstruction::Shunt),
            Card::Cleanup,
        ]
    }

    /// What the card costs: a truck 50 and 20 more with a load, an
    /// instruction 20, a cleanup 10.
    pub open spec fn price(self) -> int {
        match self {
            Card::Truck { cargo } => if cargo is Some {
                70
            } else {
                50
            },
            Card::Instruction(_) => 20,
            Card::Cleanup => 10,
        }
    }

    /// The rotation with which the card is picked up from the hand.
    pub open spec fn first_rotation(self) -> i32 {
        match self {
            Card::Truck { .. } => 2,
            Card::Instruction(CardInstruction::Rotate) => 4,
            Card::Instruction(_) => 2,
            Card::Cleanup => 0,
        }
    }

    /// Whether the card can be drawn: any card but a `Rotate`
    /// instruction.
    pub open spec fn can_be_drawn(self) -> bool {
        self != Card::Instruction(CardInstruction::Rotate)
    }

    /// The card that four draws give: an instruction with `blueprint`
    /// if `instruction` is drawn; else a cleanup if `cleanup` is drawn;
    /// else a truck, with `load` on it if there is one.
    pub open spec fn dealt(
        instruction: bool,
        blueprint: CardInstruction,
        cleanup: bool,
        load: Option<Item>,
    ) -> Card {
        if instruction {
            Card::Instruction(blueprint)
        } else if cleanup {
            Card::Cleanup
        } else {
            Card::Truck { cargo: load }
        }
    }

    /// Make the starting hand of cards.
    pub fn starting_hand() -> (hand: Vec<Card>)
        ensures
            hand@ == Card::first_hand(),
    {
        let mut hand: Vec<Card> = Vec::new();
        hand.push(Card::Truck { cargo: None });
        hand.push(Card::Truck { cargo: None });
        hand.push(Card::Instruction(CardInstruction::Direct));
        hand.push(Card::Instruction(CardInstruction::Shunt));
        hand.push(Card::Cleanup);
        assert(hand@ =~= Card::first_hand());
        hand
    }

    /// The card that four draws give.
    pub fn deal(
        instruction: bool,
        blueprint: CardInstruction,
        cleanup: bool,
        load: Option<Item>,
    ) -> (card: Card)
        ensures
            card == Card::dealt(instruction, blueprint, cleanup, load),
    {
        if instruction {
            Card::Instruction(blueprint)
        } else if cleanup {
            Card::Cleanup
        } else {
            Card::Truck { cargo: load }
        }
    }

    /// Generate a random card: half of the time an instruction; of the
    /// rest three times in ten a cleanup, else a truck, which one time
    /// in five carries a random item.
    pub fn generate() -> (card: Card)
        ensures
            card.can_be_drawn(),
    {
        let instruction = chance(1, 2);
        let blueprint = CardInstruction::sample();
        let cleanup = chance(3, 10);
        let load = if chance(4, 5) {
            None
        } else {
            Some(Item::sample())
        };
        Card::deal(instruction, blueprint, cleanup, load)
    }

    /// Get the cost of this card.
    pub fn cost(&self) -> (c: u32)
        ensures
            c == self.price(),
    {
        match self {
            Card::Truck { cargo } => {
                if cargo.is_some() {
                    70
                } else {
                    50
                }
            },
            Card::Instruction(_) => 20,
            Card::Cleanup => 10,
        }
    }

    /// The rotation with which the card is picked up from the hand.
    pub fn initial_rotation(&self) -> (r: i32)
        ensures
            r == self.first_rotation(),
    {
        match self {
            Card::Truck { .. } => 2,
            Card::Instruction(CardInstruction::Rotate) => 4,
            Card::Instruction(_) => 2,
            Card::Cleanup => 0,
        }
    }
}

/// A card when held by the player.
#[derive(Debug, Clone, Copy, PartialEq, Eq)]
pub struct SelectedCard {
    /// Original index of the card in hand, or `None` if it was from the
    /// board.
    pub original_idx: Option<usize>,
    pub card: Card,
    /// Pixel position of the centre.
    pub position: (i32, i32),
    /// Rotation amount: what changes with the mouse wheel. It settles
    /// the direction of a truck or an instruction, or the angle of a
    /// rotation.
    pub rotation: i32,
}

} // verus!
