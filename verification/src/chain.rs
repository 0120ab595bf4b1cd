//! The mathematical model of the frame chain: which sequences of frames
//! a game can hold, how one roll transforms such a sequence, when a game
//! is complete, and what each frame scores.

use vstd::prelude::*;

use crate::frame::Error;
use crate::frame::Frame;
use crate::frame::Slot;

verus! {

/// What holds of the frame standing at position `i` of the chain.
pub open spec fn frame_valid(f: Frame, i: int) -> bool {
    // Frames are numbered by position; only positions 0 through 10 exist.
    &&& f.index == i
    // A first slot is never out of play, and rolls record at most 10 pins.
    &&& f.first_roll !is NotApplicable
    &&& (f.first_roll matches Slot::Pins(p) ==> p <= 10)
    &&& (f.second_roll matches Slot::Pins(p) ==> p <= 10)
    // A frame's first roll is set before its second.
    &&& (f.first_roll is Unrolled ==> f.second_roll is Unrolled)
    // Only the bonus holder past the tenth frame has a slot out of play.
    &&& (f.second_roll is NotApplicable ==> i == 10)
    // Every frame after the head is opened by a roll.
    &&& (i >= 1 ==> f.first_roll is Pins)
    // Two rolls share one rack of ten pins, unless they are the two
    // independent bonus rolls after a tenth-frame strike.
    &&& (match (f.first_roll, f.second_roll) {
        (Slot::Pins(a), Slot::Pins(b)) => !(f.final_frame() && f.strike()) ==> a + b <= 10,
        _ => true,
    })
    // A strike before the bonus holder finishes its frame at once, so its
    // second slot stays empty.
    &&& (i <= 9 && f.strike() ==> f.second_roll is Unrolled)
}

/// The chains a game can hold: one to eleven frames, each valid at its
/// position, every frame before the last finished and non-final (the
/// chain only grows when the frame at its end is finished but the game
/// is not), and the bonus holder's second slot out of play exactly when
/// the tenth frame was a spare rather than a strike.
pub open spec fn wf(s: Seq<Frame>) -> bool {
    &&& 1 <= s.len() <= 11
    &&& (forall|i: int| #![trigger s[i]] 0 <= i < s.len() ==> frame_valid(s[i], i))
    &&& (forall|i: int| #![trigger s[i]] 0 <= i < s.len() - 1 ==> s[i].done()
        && !s[i].final_frame())
    &&& (s.len() == 11 ==> (s[10].second_roll is NotApplicable <==> !s[9].strike()))
}

/// The game has ended: the frame at the end of the chain takes no more
/// rolls and is the last roll-taking point of the game.
pub open spec fn complete(s: Seq<Frame>) -> bool {
    s.last().done() && s.last().final_frame()
}

/// How one roll of `pins` pins transforms the chain, or why it is
/// rejected. Rolls always land on the frame at the end of the chain:
/// every earlier frame is already finished.
pub open spec fn roll_outcome(s: Seq<Frame>, pins: u16) -> Result<Seq<Frame>, Error> {
    let last = s.last();
    if pins > 10 {
        // More pins than a full rack holds.
        Err(Error::NotEnoughPinsLeft)
    } else if last.done() {
        if last.final_frame() {
            Err(Error::GameComplete)
        } else {
            // The roll opens the next frame.
            Ok(s.push(last.spec_next_from_roll(pins)))
        }
    } else if last.first_roll is Unrolled {
        // An opening roll needs no numeric validation.
        Ok(
            s.update(
                s.len() - 1,
                Frame {
                    index: last.index,
                    first_roll: Slot::Pins(pins),
                    second_roll: last.second_roll,
                },
            ),
        )
    } else if !(last.final_frame() && last.strike()) && last.first_roll.pins() + pins > 10 {
        // The two rolls of one frame share a rack of ten pins; only the
        // two bonus rolls after a tenth-frame strike are independent.
        Err(Error::NotEnoughPinsLeft)
    } else {
        Ok(
            s.update(
                s.len() - 1,
                Frame {
                    index: last.index,
                    first_roll: last.first_roll,
                    second_roll: Slot::Pins(pins),
                },
            ),
        )
    }
}

/// What the frame at position `i` contributes to the total score. A
/// strike earns the next two rolls as a bonus, a spare the next one;
/// bonus holders past the tenth frame contribute nothing of their own,
/// since their rolls are already counted by the tenth frame's bonus.
pub open spec fn frame_score(s: Seq<Frame>, i: int) -> int {
    let f = s[i];
    if f.index == 10 {
        0
    } else if f.strike() {
        if s[i + 1].strike() && !s[i + 1].final_frame() {
            f.first_roll.pins() + s[i + 1].first_roll.pins() + s[i + 2].first_roll.pins()
        } else {
            f.first_roll.pins() + s[i + 1].first_roll.pins() + s[i + 1].second_roll.pins()
        }
    } else if f.spare() {
        f.first_roll.pins() + f.second_roll.pins() + s[i + 1].first_roll.pins()
    } else {
        f.first_roll.pins() + f.second_roll.pins()
    }
}

/// The sum of the scores of the frames at positions `0 .. n`.
pub open spec fn score_upto(s: Seq<Frame>, n: int) -> int
    decreases n,
{
    if n <= 0 {
        0
    } else {
        score_upto(s, n - 1) + frame_score(s, n - 1)
    }
}

/// The total score of a chain: the sum over all its frames.
pub open spec fn total_score(s: Seq<Frame>) -> int {
    score_upto(s, s.len() as int)
}

/// A complete game is terminal: whatever pin count is submitted next,
/// the roll is rejected — every legal count with `GameComplete` — so the
/// chain, and with it the score, never changes again.
pub proof fn lemma_complete_is_terminal(s: Seq<Frame>, pins: u16)
    requires
        wf(s),
        complete(s),
    ensures
        roll_outcome(s, pins) is Err,
        pins <= 10 ==> roll_outcome(s, pins) == Err::<Seq<Frame>, Error>(Error::GameComplete),
{
}

/// A pin count above the ten of a full rack is rejected in every state,
/// with `NotEnoughPinsLeft`, before anything else is examined.
pub proof fn lemma_over_ten_rejected(s: Seq<Frame>, pins: u16)
    requires
        pins > 10,
    ensures
        roll_outcome(s, pins) == Err::<Seq<Frame>, Error>(Error::NotEnoughPinsLeft),
{
}

} // verus!
