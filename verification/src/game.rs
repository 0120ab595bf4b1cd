//! The public entry point: a game that accepts rolls one at a time and
//! computes the total once the game is complete.

use vstd::prelude::*;

use crate::chain::complete;
use crate::chain::frame_score;
use crate::chain::roll_outcome;
use crate::chain::score_upto;
use crate::chain::total_score;
use crate::chain::wf;
use crate::frame::Error;
use crate::frame::Frame;
use crate::frame::Slot;

verus! {

/// A ten-pin bowling game: a growing chain of frames, the last of which
/// is the only one still taking rolls.
pub struct BowlingGame {
    frames: Vec<Frame>,
}

impl View for BowlingGame {
    type V = Seq<Frame>;

    closed spec fn view(&self) -> Seq<Frame> {
        self.frames@
    }
}

impl BowlingGame {
    /// The chain the game holds is one that a legal play history can
    /// produce.
    pub open spec fn wf(self) -> bool {
        wf(self@)
    }

    /// A fresh game: a single head frame with nothing rolled.
    pub fn new() -> (g: BowlingGame)
        ensures
            g.wf(),
            g@.len() == 1,
            g@[0].index == 0,
            g@[0].first_roll == Slot::Unrolled,
            g@[0].second_roll == Slot::Unrolled,
    {
        let mut frames: Vec<Frame> = Vec::new();
        frames.push(Frame::new());
        BowlingGame { frames }
    }

    /// Record one roll of `pins` pins, or reject it: with
    /// `NotEnoughPinsLeft` where it would knock down more pins than
    /// stand, with `GameComplete` where the game is already over. A
    /// rejected roll leaves the game exactly as it was.
    pub fn roll(&mut self, pins: u16) -> (r: Result<(), Error>)
        requires
            old(self).wf(),
        ensures
            final(self).wf(),
            (match roll_outcome(old(self)@, pins) {
                Ok(s) => r == Ok::<(), Error>(()) && final(self)@ == s,
                Err(e) => r == Err::<(), Error>(e) && final(self)@ == old(self)@,
            }),
    {
        if pins > 10 {
            return Err(Error::NotEnoughPinsLeft);
        }
        let n: usize = self.frames.len();
        let last = self.frames[n - 1];
        if last.is_done() {
            if last.is_final_frame() {
                return Err(Error::GameComplete);
            }
            let f = last.next_from_roll(pins);
            self.frames.push(f);
            Ok(())
        } else if last.first_roll == Slot::Unrolled {
            let f2 = Frame {
                index: last.index,
                first_roll: Slot::Pins(pins),
                second_roll: last.second_roll,
            };
            self.frames.set(n - 1, f2);
            Ok(())
        } else {
            let a: u16 = last.first_roll.pin_count();
            let capped = (last.is_final_frame() && !last.is_strike()) || !last.is_final_frame();
            if capped && a + pins > 10 {
                return Err(Error::NotEnoughPinsLeft);
            }
            let f2 = Frame {
                index: last.index,
                first_roll: last.first_roll,
                second_roll: Slot::Pins(pins),
            };
            self.frames.set(n - 1, f2);
            Ok(())
        }
    }

    /// The total score, once the game is complete; `None` while the game
    /// is still in progress.
    pub fn score(&self) -> (r: Option<u16>)
        requires
            self.wf(),
        ensures
            (match r {
                Some(t) => complete(self@) && t as int == total_score(self@),
                None => !complete(self@),
            }),
    {
        let n: usize = self.frames.len();
        let last = self.frames[n - 1];
        if last.is_final_frame() && last.is_done() {
            let mut total: u16 = 0;
            let mut i: usize = 0;
            while i < n
                invariant
                    self.wf(),
                    complete(self@),
                    n == self@.len(),
                    0 <= i <= n,
                    total as int == score_upto(self@, i as int),
                    total <= 30 * i,
                decreases n - i,
            {
                let fs = self.frame_score_at(i);
                total = total + fs;
                i = i + 1;
            }
            Some(total)
        } else {
            None
        }
    }

    /// The contribution of the frame at position `i` to the total of a
    /// complete game, bonus rolls included.
    fn frame_score_at(&self, i: usize) -> (r: u16)
        requires
            self.wf(),
            complete(self@),
            i < self@.len(),
        ensures
            r as int == frame_score(self@, i as int),
            r <= 30,
    {
        let f = self.frames[i];
        if f.index == 10 {
            0
        } else if f.is_strike() {
            let n1 = self.frames[i + 1];
            if n1.is_strike() && !n1.is_final_frame() {
                let n2 = self.frames[i + 2];
                f.first_roll.pin_count() + n1.first_roll.pin_count() + n2.first_roll.pin_count()
            } else {
                f.first_roll.pin_count() + n1.first_roll.pin_count() + n1.second_roll.pin_count()
            }
        } else if f.is_spare() {
            let n1 = self.frames[i + 1];
            f.first_roll.pin_count() + f.second_roll.pin_count() + n1.first_roll.pin_count()
        } else {
            f.first_roll.pin_count() + f.second_roll.pin_count()
        }
    }
}

} // verus!
