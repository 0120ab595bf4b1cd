//! Ten-pin bowling scorekeeping.
//!
//! A [`game::BowlingGame`] accepts one roll at a time, enforcing the
//! legality rules of the game (no roll may knock down more pins than
//! stand, no rolls after the game is over), and computes the total
//! score, with strike and spare bonuses, once the game is complete.

pub mod chain;
pub mod frame;
pub mod game;

pub use frame::Error;
pub use frame::Frame;
pub use frame::Slot;
pub use game::BowlingGame;
