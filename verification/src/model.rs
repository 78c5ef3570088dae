use vstd::prelude::*;

use crate::error::GameError;
use crate::position::{side_to_move, Side, STARTING_POSITION};

verus! {

/// How many votes one proposed position has drawn in the open period.
#[verifier::ext_equal]
pub struct TallyView {
    pub proposal: Seq<char>,
    pub count: nat,
}

/// The game as a mathematical value: what every contract of the library speaks of.
///
/// Players and positions are their texts. `votes` keeps the proposals in the
/// order in which each drew its first vote; that order breaks ties.
#[verifier::ext_equal]
pub struct GameState {
    pub active: bool,
    pub position: Seq<char>,
    pub buy_in: nat,
    pub period_length: nat,
    pub period_deadline: nat,
    pub votes: Seq<TallyView>,
    pub voted_this_period: Set<Seq<char>>,
    pub white_roster: Set<Seq<char>>,
    pub black_roster: Set<Seq<char>>,
}

/// The votes of all proposals together.
pub open spec fn total_votes(votes: Seq<TallyView>) -> nat
    decreases votes.len(),
{
    if votes.len() == 0 {
        0
    } else {
        total_votes(votes.drop_last()) + votes.last().count
    }
}

/// Some entry of `votes` is for `proposal`.
pub open spec fn holds_proposal(votes: Seq<TallyView>, proposal: Seq<char>) -> bool {
    exists|i: int| 0 <= i < votes.len() && (#[trigger] votes[i]).proposal == proposal
}

/// Where the entry for `proposal` stands in `votes`, if it has one.
pub open spec fn proposal_index(votes: Seq<TallyView>, proposal: Seq<char>) -> int {
    choose|i: int| 0 <= i < votes.len() && (#[trigger] votes[i]).proposal == proposal
}

/// No two entries of `votes` are for the same proposal.
pub open spec fn distinct_proposals(votes: Seq<TallyView>) -> bool {
    forall|i: int, j: int|
        0 <= i < j < votes.len() ==> (#[trigger] votes[i]).proposal != (#[trigger] votes[j]).proposal
}

/// `votes` with one more vote for `proposal`: its entry grows by one, or a new
/// entry with one vote joins at the end.
pub open spec fn record_vote(votes: Seq<TallyView>, proposal: Seq<char>) -> Seq<TallyView> {
    if holds_proposal(votes, proposal) {
        let i = proposal_index(votes, proposal);
        votes.update(i, TallyView { proposal, count: votes[i].count + 1 })
    } else {
        votes.push(TallyView { proposal, count: 1 })
    }
}

/// Entry `i` wins the period: no entry has more votes, and every entry that
/// drew its first vote earlier has fewer.
pub open spec fn leads(votes: Seq<TallyView>, i: int) -> bool {
    &&& 0 <= i < votes.len()
    &&& forall|j: int| 0 <= j < i ==> (#[trigger] votes[j]).count < votes[i].count
    &&& forall|j: int| i < j < votes.len() ==> (#[trigger] votes[j]).count <= votes[i].count
}

/// The entry that wins the period, where there is any entry.
pub open spec fn leader(votes: Seq<TallyView>) -> int {
    choose|i: int| leads(votes, i)
}

/// The position that a period ends on: the winning proposal, or the position
/// it began with where nobody voted.
pub open spec fn winning_position(votes: Seq<TallyView>, position: Seq<char>) -> Seq<char> {
    if votes.len() == 0 {
        position
    } else {
        votes[leader(votes)].proposal
    }
}

/// What a call leaves behind: where the step succeeds, the state that it
/// names; where it fails, its error and the state as it was.
pub open spec fn carried_out(
    step: Result<GameState, GameError>,
    before: GameState,
    after: GameState,
    res: Result<(), GameError>,
) -> bool {
    match step {
        Ok(next) => res is Ok && after == next,
        Err(e) => res == Err::<(), GameError>(e) && after == before,
    }
}

impl GameState {
    /// What holds of a game at all times: the rosters are finite and share no
    /// player, only players vote, and the tally holds one entry per proposal
    /// and one vote per voter.
    pub open spec fn wf(self) -> bool {
        &&& self.white_roster.finite()
        &&& self.black_roster.finite()
        &&& self.voted_this_period.finite()
        &&& self.white_roster.disjoint(self.black_roster)
        &&& self.voted_this_period.subset_of(self.white_roster.union(self.black_roster))
        &&& distinct_proposals(self.votes)
        &&& forall|i: int| 0 <= i < self.votes.len() ==> (#[trigger] self.votes[i]).count >= 1
        &&& total_votes(self.votes) == self.voted_this_period.len()
    }

    /// A new game at time `now`: active, at the starting position, with no
    /// players and no votes, its first period running for `period_length`.
    pub open spec fn initial(buy_in: nat, period_length: nat, now: nat) -> GameState {
        GameState {
            active: true,
            position: STARTING_POSITION@,
            buy_in,
            period_length,
            period_deadline: now + period_length,
            votes: Seq::empty(),
            voted_this_period: Set::empty(),
            white_roster: Set::empty(),
            black_roster: Set::empty(),
        }
    }

    /// The players of one side.
    pub open spec fn roster(self, side: Side) -> Set<Seq<char>> {
        match side {
            Side::White => self.white_roster,
            Side::Black => self.black_roster,
        }
    }

    /// The player sits on one of the two rosters.
    pub open spec fn is_participant(self, player: Seq<char>) -> bool {
        self.white_roster.contains(player) || self.black_roster.contains(player)
    }

    /// The side that the player sits on, if any.
    pub open spec fn side_of(self, player: Seq<char>) -> Option<Side> {
        if self.white_roster.contains(player) {
            Some(Side::White)
        } else if self.black_roster.contains(player) {
            Some(Side::Black)
        } else {
            None
        }
    }

    /// The votes that `proposal` has drawn in the open period.
    pub open spec fn votes_for(self, proposal: Seq<char>) -> nat {
        if holds_proposal(self.votes, proposal) {
            self.votes[proposal_index(self.votes, proposal)].count
        } else {
            0
        }
    }

    /// How many players have joined so far.
    pub open spec fn players(self) -> nat {
        self.white_roster.len() + self.black_roster.len()
    }

    /// The side that the next player joins: white while white has nobody, then
    /// black while black has nobody, then white after an even number of
    /// players and black after an odd number.
    pub open spec fn joining_side(self) -> Side {
        if self.white_roster.len() == 0 {
            Side::White
        } else if self.black_roster.len() == 0 {
            Side::Black
        } else if self.players() % 2 == 0 {
            Side::White
        } else {
            Side::Black
        }
    }

    /// This game with `player` added to `side`.
    pub open spec fn seated(self, player: Seq<char>, side: Side) -> GameState {
        match side {
            Side::White => GameState { white_roster: self.white_roster.insert(player), ..self },
            Side::Black => GameState { black_roster: self.black_roster.insert(player), ..self },
        }
    }

    /// A player buys in with `attached` units of value.
    ///
    /// The checks run in this order: the payment, whether the game still takes
    /// players, whether the player is new. A game takes players for as long as
    /// it is active.
    pub open spec fn join(self, player: Seq<char>, attached: nat) -> Result<GameState, GameError> {
        if attached < self.buy_in {
            Err(GameError::InsufficientPayment)
        } else if !self.active {
            Err(GameError::GameNotJoinable)
        } else if self.is_participant(player) {
            Err(GameError::AlreadyJoined)
        } else {
            Ok(self.seated(player, self.joining_side()))
        }
    }

    /// Whether `player` belongs to the side to move; an error where the
    /// position names no side.
    pub open spec fn can_vote(self, player: Seq<char>) -> Result<bool, GameError> {
        match side_to_move(self.position) {
            Some(side) => Ok(self.roster(side).contains(player)),
            None => Err(GameError::MalformedPosition),
        }
    }

    /// A player votes for `proposed`, naming `claimed` as the position that
    /// the vote is about.
    ///
    /// The checks run in this order: the claimed position, the voter's seat,
    /// an earlier vote in this period, the side to move, and last whether the
    /// game is still active.
    pub open spec fn cast_vote(
        self,
        voter: Seq<char>,
        claimed: Seq<char>,
        proposed: Seq<char>,
    ) -> Result<GameState, GameError> {
        if claimed != self.position {
            Err(GameError::StalePosition)
        } else if !self.is_participant(voter) {
            Err(GameError::NotAParticipant)
        } else if self.voted_this_period.contains(voter) {
            Err(GameError::AlreadyVoted)
        } else {
            match self.can_vote(voter) {
                Err(e) => Err(e),
                Ok(false) => Err(GameError::NotYourTurn),
                Ok(true) => if !self.active {
                    Err(GameError::GameAlreadyOver)
                } else {
                    Ok(
                        GameState {
                            votes: record_vote(self.votes, proposed),
                            voted_this_period: self.voted_this_period.insert(voter),
                            ..self
                        },
                    )
                },
            }
        }
    }

    /// The open period is closed at time `now`.
    ///
    /// The checks run in this order: whether the period has run out, whether
    /// the game is still active.
    pub open spec fn tally(self, now: nat) -> Result<GameState, GameError> {
        if now <= self.period_deadline {
            Err(GameError::PeriodNotElapsed)
        } else if !self.active {
            Err(GameError::GameAlreadyOver)
        } else {
            Ok(
                GameState {
                    position: winning_position(self.votes, self.position),
                    votes: Seq::empty(),
                    voted_this_period: Set::empty(),
                    period_deadline: now + self.period_length,
                    ..self
                },
            )
        }
    }

    /// The game is finished, once.
    pub open spec fn finish(self) -> Result<GameState, GameError> {
        if !self.active {
            Err(GameError::GameAlreadyOver)
        } else {
            Ok(GameState { active: false, ..self })
        }
    }
}

} // verus!
