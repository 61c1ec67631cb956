//! The mode after a lost game: it shows the score and waits for a click.

use crate::modes::{GameMode, Input, Transition};
use crate::playing::ModePlaying;
use vstd::prelude::*;

verus! {

/// The number of frames for which the mode ignores clicks.
pub const TIME_HERE_TILL_RETURN: u64 = 20;

/// The mode after a lost game.
pub struct ModeLose {
    /// What was your top score?
    highscore: u32,
    /// How many frames this mode has been alive.
    frames_elapsed: u64,
}

impl ModeLose {
    /// The score with which the game was lost.
    pub closed spec fn score(&self) -> u32 {
        self.highscore
    }

    /// How many frames this mode has been alive.
    pub closed spec fn age(&self) -> u64 {
        self.frames_elapsed
    }

    pub fn new(highscore: u32) -> (mode: ModeLose)
        ensures
            mode.score() == highscore,
            mode.age() == 0,
    {
        ModeLose { highscore, frames_elapsed: 0 }
    }

    /// The score with which the game was lost.
    pub fn highscore(&self) -> (score: u32)
        ensures
            score == self.score(),
    {
        self.highscore
    }

    /// How many frames this mode has been alive.
    pub fn frames_elapsed(&self) -> (frames: u64)
        ensures
            frames == self.age(),
    {
        self.frames_elapsed
    }

    /// Lets one frame pass. A click after the first
    /// `TIME_HERE_TILL_RETURN` frames starts a new game in place of this
    /// mode.
    pub fn update(&mut self, input: &Input) -> (transition: Transition)
        ensures
            final(self).score() == old(self).score(),
            final(self).age() == if old(self).age() == u64::MAX {
                u64::MAX
            } else {
                (old(self).age() + 1) as u64
            },
            if old(self).age() >= TIME_HERE_TILL_RETURN && input.pressed {
                transition matches Transition::Swap(GameMode::Playing(game)) && game.wf()
                    && game.is_new()
            } else {
                transition is Stay
            },
    {
        let out = if self.frames_elapsed >= TIME_HERE_TILL_RETURN && input.pressed {
            Transition::Swap(GameMode::Playing(ModePlaying::new()))
        } else {
            Transition::Stay
        };
        self.frames_elapsed = self.frames_elapsed.saturating_add(1);
        out
    }
}

} // verus!
