//! Rule engine of a four-player race-and-capture marble game: board
//! topology, dice, legal-move generation, captures, the power economy and
//! the turn state machine.
use vstd::prelude::*;

pub mod board;
pub mod buttons;
pub mod capture;
pub mod dice;
pub mod events;
pub mod moves;
pub mod power;
pub mod turn;

verus! {

} // verus!
