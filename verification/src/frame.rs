//! A single scoring frame and its roll slots.

use vstd::prelude::*;

verus! {

/// Why a roll was rejected.
#[derive(Debug, PartialEq, Eq, Structural)]
pub enum Error {
    /// The roll would knock down more pins than remain standing in the
    /// frame, or more than the ten-pin maximum outright.
    NotEnoughPinsLeft,
    /// The roll arrived after the game already reached its terminal state.
    GameComplete,
}

/// One roll slot of a frame: either no roll has been recorded yet, a pin
/// count has been recorded, or the slot is marked as never receiving a
/// roll (the bonus holder after a tenth-frame spare takes a single roll,
/// so its second slot is out of play from the start).
#[derive(Clone, Copy, Debug, PartialEq, Eq, Structural)]
pub enum Slot {
    Unrolled,
    Pins(u16),
    NotApplicable,
}

impl Slot {
    /// The recorded pin count; zero where no count is recorded.
    pub open spec fn pins(self) -> int {
        match self {
            Slot::Pins(p) => p as int,
            _ => 0,
        }
    }

    /// Whether a pin count has been recorded in this slot.
    pub fn is_pins(&self) -> (r: bool)
        ensures
            r == (self is Pins),
    {
        match self {
            Slot::Pins(_) => true,
            _ => false,
        }
    }

    /// The recorded pin count; zero where no count is recorded.
    pub fn pin_count(&self) -> (r: u16)
        ensures
            r as int == self.pins(),
    {
        match self {
            Slot::Pins(p) => *p,
            _ => 0,
        }
    }
}

/// One of the ten scoring frames of a game, or a bonus holder chained
/// after the tenth frame. `index` is the 0-based position in the game.
#[derive(Clone, Copy, Debug)]
pub struct Frame {
    pub index: u16,
    pub first_roll: Slot,
    pub second_roll: Slot,
}

impl Frame {
    /// All ten pins fell on the frame's first roll.
    pub open spec fn strike(self) -> bool {
        self.first_roll == Slot::Pins(10u16)
    }

    /// All ten pins fell across the frame's two rolls.
    pub open spec fn spare(self) -> bool {
        match (self.first_roll, self.second_roll) {
            (Slot::Pins(a), Slot::Pins(b)) => a + b == 10,
            _ => false,
        }
    }

    /// The frame takes no further rolls: it has a first roll and either a
    /// second roll, a second slot that is out of play, or it is a strike
    /// outside the final frame (one roll finishes such a frame).
    pub open spec fn done(self) -> bool {
        self.first_roll is Pins && (self.second_roll is Pins
            || self.second_roll is NotApplicable
            || (self.strike() && !self.final_frame()))
    }

    /// The frame is the last roll-taking point of the game: a tenth frame
    /// that earned no bonus, or any bonus holder chained past the tenth.
    pub open spec fn final_frame(self) -> bool {
        (self.index == 9 && !(self.strike() || self.spare())) || self.index == 10
    }

    /// The frame a roll opens right after this one: next index, the roll
    /// recorded first. The new second slot is out of play exactly when the
    /// new frame is the bonus holder after a tenth-frame spare, which by
    /// rule takes a single roll.
    pub open spec fn spec_next_from_roll(self, roll: u16) -> Frame {
        Frame {
            index: (self.index + 1) as u16,
            first_roll: Slot::Pins(roll),
            second_roll: if self.index == 9 && !self.strike() {
                Slot::NotApplicable
            } else {
                Slot::Unrolled
            },
        }
    }

    /// A fresh head frame: index 0, nothing rolled.
    pub fn new() -> (f: Frame)
        ensures
            f.index == 0,
            f.first_roll == Slot::Unrolled,
            f.second_roll == Slot::Unrolled,
    {
        Frame { index: 0, first_roll: Slot::Unrolled, second_roll: Slot::Unrolled }
    }

    pub fn next_from_roll(&self, roll: u16) -> (f: Frame)
        requires
            self.index < 10,
        ensures
            f == self.spec_next_from_roll(roll),
    {
        Frame {
            index: self.index + 1,
            first_roll: Slot::Pins(roll),
            second_roll: if self.index == 9 && !self.is_strike() {
                Slot::NotApplicable
            } else {
                Slot::Unrolled
            },
        }
    }

    pub fn is_strike(&self) -> (r: bool)
        ensures
            r == self.strike(),
    {
        self.first_roll == Slot::Pins(10)
    }

    pub fn is_spare(&self) -> (r: bool)
        ensures
            r == self.spare(),
    {
        match (self.first_roll, self.second_roll) {
            (Slot::Pins(a), Slot::Pins(b)) => a as u32 + b as u32 == 10,
            _ => false,
        }
    }

    pub fn is_done(&self) -> (r: bool)
        ensures
            r == self.done(),
    {
        self.first_roll.is_pins() && (self.second_roll.is_pins()
            || self.second_roll == Slot::NotApplicable
            || (self.is_strike() && !self.is_final_frame()))
    }

    pub fn is_final_frame(&self) -> (r: bool)
        ensures
            r == self.final_frame(),
    {
        (self.index == 9 && !(self.is_strike() || self.is_spare())) || self.index == 10
    }
}

} // verus!
