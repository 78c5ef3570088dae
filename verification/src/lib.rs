//! A chess game that crowds play: players buy in, are seated on a side, and
//! each side's move is the position that most of its players voted for while
//! a voting period was open.
//!
//! [`Contract`] is the game. Every change to it is one of four steps, `join`,
//! `cast_vote`, `tally` and `finish` of [`GameState`], the game as a
//! mathematical value; a step that is refused leaves the game as it was. The
//! laws that hold of those steps are proved in [`laws`].
//!
//! The library keeps no clock and reads no caller: the time, the player and
//! the value attached to a call are arguments.

pub mod contract;
pub mod error;
pub mod laws;
pub mod model;
pub mod position;
pub mod record;
pub mod roster;
pub mod tally;
pub mod token;
pub mod votes;

pub use contract::{Contract, Outcome, VOTING_PERIOD_INTERVAL};
pub use error::GameError;
pub use model::{GameState, TallyView};
pub use position::{parse_side_to_move, Side, STARTING_POSITION};
pub use record::GameRecord;
pub use tally::Tally;
pub use token::{one_near, YOCTO_PER_NEAR};
