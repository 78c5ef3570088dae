use vstd::prelude::*;

verus! {

/// Why a call was refused. A refused call leaves the game as it was.
#[derive(Clone, Copy, Debug, PartialEq, Eq, Structural)]
pub enum GameError {
    /// The value attached to a buy-in is below the game's buy-in amount.
    InsufficientPayment,
    /// The player already sits on one of the two rosters.
    AlreadyJoined,
    /// The game takes no more players.
    GameNotJoinable,
    /// The voter's board is not the game's current position.
    StalePosition,
    /// The voter sits on neither roster.
    NotAParticipant,
    /// The voter has already voted in the open period.
    AlreadyVoted,
    /// The voter's side is not the side to move.
    NotYourTurn,
    /// The open period has not run out yet.
    PeriodNotElapsed,
    /// The game has been finished.
    GameAlreadyOver,
    /// The current position names no side to move.
    MalformedPosition,
}

impl GameError {
    /// The text that reports this error.
    pub open spec fn message_text(self) -> Seq<char> {
        match self {
            GameError::InsufficientPayment => "send more coin lol"@,
            GameError::AlreadyJoined => "player already joined this game"@,
            GameError::GameNotJoinable => "game takes no more players"@,
            GameError::StalePosition => "out of date board state"@,
            GameError::NotAParticipant => "player can't vote in this game"@,
            GameError::AlreadyVoted => "player already voted this period"@,
            GameError::NotYourTurn => "it's not your turn"@,
            GameError::PeriodNotElapsed => "current voting period not over"@,
            GameError::GameAlreadyOver => "game is already over"@,
            GameError::MalformedPosition => "malformed FEN"@,
        }
    }

    /// The text that reports this error.
    pub fn message(&self) -> (text: &'static str)
        ensures
            text@ == self.message_text(),
    {
        match self {
            GameError::InsufficientPayment => "send more coin lol",
            GameError::AlreadyJoined => "player already joined this game",
            GameError::GameNotJoinable => "game takes no more players",
            GameError::StalePosition => "out of date board state",
            GameError::NotAParticipant => "player can't vote in this game",
            GameError::AlreadyVoted => "player already voted this period",
            GameError::NotYourTurn => "it's not your turn",
            GameError::PeriodNotElapsed => "current voting period not over",
            GameError::GameAlreadyOver => "game is already over",
            GameError::MalformedPosition => "malformed FEN",
        }
    }
}

} // verus!
