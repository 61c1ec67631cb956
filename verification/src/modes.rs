//! The modes of the game, the transitions between them, and what a
//! frame's input holds.

use crate::hex::Coordinate;
use crate::lose::ModeLose;
use crate::playing::ModePlaying;
use vstd::prelude::*;

verus! {

/// Width of a card, in pixels.
pub const CARD_WIDTH: i32 = 100;

/// Space between two cards, in pixels.
pub const CARD_PADDING: i32 = 10;

/// Width of a slot of the hand, in pixels: a card and the space beside
/// it. The slot at the far left is the trash; the hand follows; the slot
/// after the hand draws a new card.
pub const SLOT_WIDTH: i32 = 110;

/// The row of pixels at which the hand begins.
pub const CARD_TOP_POS: i32 = 840;

/// What the player does in one frame.
#[derive(Debug, Clone, Copy, PartialEq, Eq)]
pub struct Input {
    /// Where the pointer is, in pixels from the top left corner.
    pub pointer: (i32, i32),
    /// The hex the pointer is over.
    pub hex: Coordinate,
    /// Whether the button has gone down in this frame.
    pub pressed: bool,
    /// Whether the button is down.
    pub held: bool,
    /// How the wheel has turned: positive is up, negative is down.
    pub scroll: i32,
    /// Whether the key that turns a card to the left has gone down.
    pub turn_left: bool,
    /// Whether the key that turns a card to the right has gone down.
    pub turn_right: bool,
}

/// A mode the game can be in.
pub enum GameMode {
    Playing(ModePlaying),
    Lose(ModeLose),
}

/// What a mode asks for at the end of a frame.
pub enum Transition {
    /// Do nothing.
    Stay,
    /// Push this state on top.
    Push(GameMode),
    /// Remove the current state and replace it with this.
    Swap(GameMode),
    /// Pop the current state off.
    Pop,
}

/// The stack of modes after a transition. The mode at the bottom is
/// never popped.
pub open spec fn transited(modes: Seq<GameMode>, transition: Transition) -> Seq<GameMode> {
    match transition {
        Transition::Stay => modes,
        Transition::Push(mode) => modes.push(mode),
        Transition::Swap(mode) => modes.update(modes.len() - 1, mode),
        Transition::Pop => if modes.len() >= 2 {
            modes.drop_last()
        } else {
            modes
        },
    }
}

/// Carries out a transition on the stack of modes.
pub fn apply_transition(modes: &mut Vec<GameMode>, transition: Transition)
    requires
        old(modes)@.len() > 0,
    ensures
        final(modes)@ == transited(old(modes)@, transition),
        final(modes)@.len() > 0,
{
    match transition {
        Transition::Stay => {},
        Transition::Push(mode) => {
            modes.push(mode);
        },
        Transition::Swap(mode) => {
            modes.pop();
            modes.push(mode);
            assert(modes@ =~= old(modes)@.update(old(modes)@.len() - 1, mode));
        },
        Transition::Pop => {
            if modes.len() >= 2 {
                modes.pop();
            }
        },
    }
}

} // verus!
