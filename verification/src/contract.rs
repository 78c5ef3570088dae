use vstd::prelude::*;

use crate::error::GameError;
use crate::model::{carried_out, GameState, TallyView};
use crate::position::{parse_side_to_move, Side, STARTING_POSITION};
use crate::record::GameRecord;
use crate::roster::{
    holds, lemma_name_set_finite, lemma_name_set_len, lemma_names_push, lemma_push_keeps_distinct,
    name_set, names,
};
use crate::tally::{find_proposal, leading_entry, tallies, Tally};
use crate::token::{one_near, YOCTO_PER_NEAR};
use crate::votes::{
    lemma_count_within_total, lemma_leader_is, lemma_proposal_index_is, lemma_record_vote,
};

verus! {

/// How long a voting period of a game with default settings lasts.
pub const VOTING_PERIOD_INTERVAL: u64 = 30;

/// How a game ended.
#[derive(Clone, Copy, Debug, PartialEq, Eq, Structural)]
pub enum Outcome {
    /// White mated black.
    WhiteWin,
    /// Black mated white.
    BlackWin,
    /// White gave up.
    WhiteResign,
    /// Black gave up.
    BlackResign,
    /// The side to move has no move and is not in check.
    Stalemate,
    /// The sides agreed on a draw.
    Draw,
}

/// One game: the board, the two rosters, the buy-in, the votes of the open
/// period and the time at which that period runs out.
///
/// Times and durations are counted in one unit, which the caller chooses.
pub struct Contract {
    game_active: bool,
    board_fen: String,
    buyin_amount: u128,
    base_voting_interval: u64,
    next_period_timestamp: u64,
    votes: Vec<Tally>,
    voted_this_period: Vec<String>,
    white_players: Vec<String>,
    black_players: Vec<String>,
}

impl View for Contract {
    type V = GameState;

    closed spec fn view(&self) -> GameState {
        GameState {
            active: self.game_active,
            position: self.board_fen@,
            buy_in: self.buyin_amount as nat,
            period_length: self.base_voting_interval as nat,
            period_deadline: self.next_period_timestamp as nat,
            votes: tallies(self.votes@),
            voted_this_period: name_set(self.voted_this_period@),
            white_roster: name_set(self.white_players@),
            black_roster: name_set(self.black_players@),
        }
    }
}

impl Contract {
    /// No name is stored twice in a list.
    pub closed spec fn stored_once(&self) -> bool {
        &&& names(self.voted_this_period@).no_duplicates()
        &&& names(self.white_players@).no_duplicates()
        &&& names(self.black_players@).no_duplicates()
    }

    /// The game is stored as it should be and is a valid game.
    pub open spec fn wf(&self) -> bool {
        &&& self.stored_once()
        &&& self@.wf()
        &&& self@.buy_in <= u128::MAX
        &&& self@.period_length <= u64::MAX
        &&& self@.period_deadline <= u64::MAX
    }

    /// A new game at time `now`, with the given buy-in and period length.
    pub fn new(buyin_amount: u128, base_voting_interval: u64, now: u64) -> (game: Contract)
        requires
            now + base_voting_interval <= u64::MAX,
        ensures
            game.wf(),
            game@ == GameState::initial(
                buyin_amount as nat,
                base_voting_interval as nat,
                now as nat,
            ),
    {
        let game = Contract {
            game_active: true,
            board_fen: STARTING_POSITION.to_owned(),
            buyin_amount,
            base_voting_interval,
            next_period_timestamp: now + base_voting_interval,
            votes: Vec::new(),
            voted_this_period: Vec::new(),
            white_players: Vec::new(),
            black_players: Vec::new(),
        };
        proof {
            assert(tallies(game.votes@) =~= Seq::<TallyView>::empty());
            assert(name_set(game.voted_this_period@) =~= Set::<Seq<char>>::empty());
            assert(name_set(game.white_players@) =~= Set::<Seq<char>>::empty());
            assert(name_set(game.black_players@) =~= Set::<Seq<char>>::empty());
            assert(game@ =~= GameState::initial(
                buyin_amount as nat,
                base_voting_interval as nat,
                now as nat,
            ));
        }
        game
    }

    /// A new game at time `now` with the default settings: a buy-in of one
    /// NEAR and periods of `VOTING_PERIOD_INTERVAL`.
    pub fn with_defaults(now: u64) -> (game: Contract)
        requires
            now + VOTING_PERIOD_INTERVAL <= u64::MAX,
        ensures
            game.wf(),
            game@ == GameState::initial(
                YOCTO_PER_NEAR as nat,
                VOTING_PERIOD_INTERVAL as nat,
                now as nat,
            ),
    {
        Contract::new(one_near(), VOTING_PERIOD_INTERVAL, now)
    }

    /// The game that a record holds, where the record is valid.
    pub fn restore(record: GameRecord) -> (game: Option<Contract>)
        ensures
            match game {
                Some(restored) => record.valid() && restored.wf() && restored@ == record@,
                None => !record.valid(),
            },
    {
        if !record.is_valid() {
            return None;
        }
        Some(
            Contract {
                game_active: record.game_active,
                board_fen: record.board_fen,
                buyin_amount: record.buyin_amount,
                base_voting_interval: record.base_voting_interval,
                next_period_timestamp: record.next_period_timestamp,
                votes: record.votes,
                voted_this_period: record.voted_this_period,
                white_players: record.white_players,
                black_players: record.black_players,
            },
        )
    }

    /// The game as a record.
    pub fn into_record(self) -> (record: GameRecord)
        requires
            self.wf(),
        ensures
            record.valid(),
            record@ == self@,
    {
        GameRecord {
            game_active: self.game_active,
            board_fen: self.board_fen,
            buyin_amount: self.buyin_amount,
            base_voting_interval: self.base_voting_interval,
            next_period_timestamp: self.next_period_timestamp,
            votes: self.votes,
            voted_this_period: self.voted_this_period,
            white_players: self.white_players,
            black_players: self.black_players,
        }
    }

    /// Whether the game is still on.
    pub fn is_active(&self) -> (active: bool)
        ensures
            active == self@.active,
    {
        self.game_active
    }

    /// What a player has to attach to join.
    pub fn buyin_amount(&self) -> (amount: u128)
        ensures
            amount == self@.buy_in,
    {
        self.buyin_amount
    }

    /// How long a voting period lasts.
    pub fn base_voting_interval(&self) -> (length: u64)
        ensures
            length == self@.period_length,
    {
        self.base_voting_interval
    }

    /// The time after which the open period can be closed.
    pub fn next_period_timestamp(&self) -> (deadline: u64)
        ensures
            deadline == self@.period_deadline,
    {
        self.next_period_timestamp
    }

    /// The side that the player sits on, if any.
    pub fn side_of(&self, player_address: &String) -> (side: Option<Side>)
        ensures
            side == self@.side_of(player_address@),
    {
        if holds(&self.white_players, player_address) {
            Some(Side::White)
        } else if holds(&self.black_players, player_address) {
            Some(Side::Black)
        } else {
            None
        }
    }

    /// Whether the player has voted in the open period.
    pub fn has_voted(&self, player_address: &String) -> (voted: bool)
        ensures
            voted == self@.voted_this_period.contains(player_address@),
    {
        holds(&self.voted_this_period, player_address)
    }

    /// The votes that a proposed position has drawn in the open period.
    pub fn votes_for(&self, vote_fen: &String) -> (count: u64)
        requires
            self.wf(),
        ensures
            count == self@.votes_for(vote_fen@),
    {
        match find_proposal(&self.votes, vote_fen) {
            Some(i) => {
                proof {
                    lemma_proposal_index_is(tallies(self.votes@), vote_fen@, i as int);
                }
                self.votes[i].count
            },
            None => {
                proof {
                    assert(forall|j: int|
                        0 <= j < self.votes.len() ==> (#[trigger] tallies(self.votes@)[j]).proposal
                            == self.votes[j].proposal@);
                }
                0
            },
        }
    }

    /// The current position. It depends on the game alone: until the game
    /// changes, every call gives the same text.
    pub fn get_fen(&self) -> (fen: String)
        ensures
            fen@ == self@.position,
    {
        self.board_fen.clone()
    }

    /// Whether the player sits on one of the two rosters.
    pub fn voting_rights(&self, player_address: &String) -> (seated: bool)
        ensures
            seated == self@.is_participant(player_address@),
    {
        holds(&self.white_players, player_address) || holds(&self.black_players, player_address)
    }

    /// Whether the player belongs to the side to move; `MalformedPosition`
    /// where the position names no side.
    pub fn can_vote(&self, player_address: &String) -> (turn: Result<bool, GameError>)
        ensures
            turn == self@.can_vote(player_address@),
    {
        match parse_side_to_move(self.board_fen.as_str()) {
            Some(Side::White) => Ok(holds(&self.white_players, player_address)),
            Some(Side::Black) => Ok(holds(&self.black_players, player_address)),
            None => Err(GameError::MalformedPosition),
        }
    }

    /// The side that the next player joins.
    pub fn joining_side(&self) -> (side: Side)
        requires
            self.wf(),
        ensures
            side == self@.joining_side(),
    {
        let white = self.white_players.len();
        let black = self.black_players.len();
        proof {
            lemma_name_set_len(self.white_players@);
            lemma_name_set_len(self.black_players@);
        }
        if white == 0 {
            Side::White
        } else if black == 0 {
            Side::Black
        } else if white % 2 == black % 2 {
            Side::White
        } else {
            Side::Black
        }
    }

    /// A player buys in with `attached_deposit` units of value and is seated
    /// on the side that `joining_side` names.
    ///
    /// Fails with `InsufficientPayment` where the deposit is below the buy-in,
    /// else with `GameNotJoinable` where the game is over, else with
    /// `AlreadyJoined` where the player is seated already.
    pub fn add_player(
        &mut self,
        player_address: String,
        attached_deposit: u128,
    ) -> (res: Result<(), GameError>)
        requires
            old(self).wf(),
        ensures
            final(self).wf(),
            carried_out(
                old(self)@.join(player_address@, attached_deposit as nat),
                old(self)@,
                final(self)@,
                res,
            ),
    {
        if attached_deposit < self.buyin_amount {
            return Err(GameError::InsufficientPayment);
        }
        if !self.game_active {
            return Err(GameError::GameNotJoinable);
        }
        if self.voting_rights(&player_address) {
            return Err(GameError::AlreadyJoined);
        }
        let side = self.joining_side();
        proof {
            lemma_names_push(self.white_players@, player_address);
            lemma_names_push(self.black_players@, player_address);
            lemma_name_set_finite(self.white_players@.push(player_address));
            lemma_name_set_finite(self.black_players@.push(player_address));
        }
        match side {
            Side::White => {
                proof {
                    lemma_push_keeps_distinct(self.white_players@, player_address);
                }
                self.white_players.push(player_address);
            },
            Side::Black => {
                proof {
                    lemma_push_keeps_distinct(self.black_players@, player_address);
                }
                self.black_players.push(player_address);
            },
        }
        proof {
            assert(self@ =~= old(self)@.seated(player_address@, side));
        }
        Ok(())
    }

    /// A player votes for the position `vote_fen`, naming `board_fen` as the
    /// position that the vote is about.
    ///
    /// Fails with `StalePosition` where `board_fen` is not the current
    /// position, else with `NotAParticipant` where the voter has no seat, else
    /// with `AlreadyVoted` where the voter has voted in this period, else with
    /// `MalformedPosition` where the position names no side to move, else with
    /// `NotYourTurn` where that side is not the voter's, else with
    /// `GameAlreadyOver` where the game is over.
    pub fn cast_vote(
        &mut self,
        voter: String,
        board_fen: String,
        vote_fen: String,
    ) -> (res: Result<(), GameError>)
        requires
            old(self).wf(),
        ensures
            final(self).wf(),
            carried_out(
                old(self)@.cast_vote(voter@, board_fen@, vote_fen@),
                old(self)@,
                final(self)@,
                res,
            ),
    {
        if !(board_fen == self.board_fen) {
            return Err(GameError::StalePosition);
        }
        if !self.voting_rights(&voter) {
            return Err(GameError::NotAParticipant);
        }
        if holds(&self.voted_this_period, &voter) {
            return Err(GameError::AlreadyVoted);
        }
        match self.can_vote(&voter) {
            Err(e) => {
                return Err(e);
            },
            Ok(false) => {
                return Err(GameError::NotYourTurn);
            },
            Ok(true) => {},
        }
        if !self.game_active {
            return Err(GameError::GameAlreadyOver);
        }
        let at = find_proposal(&self.votes, &vote_fen);
        let ghost before = tallies(self.votes@);
        proof {
            lemma_record_vote(before, vote_fen@);
            lemma_name_set_len(self.voted_this_period@);
            lemma_names_push(self.voted_this_period@, voter);
            lemma_push_keeps_distinct(self.voted_this_period@, voter);
            lemma_name_set_finite(self.voted_this_period@.push(voter));
        }
        self.voted_this_period.push(voter);
        let voters = self.voted_this_period.len();
        match at {
            Some(i) => {
                proof {
                    lemma_proposal_index_is(before, vote_fen@, i as int);
                    lemma_count_within_total(before, i as int);
                }
                self.votes[i].count = self.votes[i].count + 1;
                proof {
                    assert(tallies(self.votes@) =~= before.update(
                        i as int,
                        TallyView { proposal: vote_fen@, count: before[i as int].count + 1 },
                    ));
                }
            },
            None => {
                proof {
                    assert(forall|j: int|
                        0 <= j < before.len() ==> (#[trigger] before[j]).proposal
                            == old(self).votes[j].proposal@);
                }
                self.votes.push(Tally { proposal: vote_fen, count: 1 });
                proof {
                    assert(tallies(self.votes@) =~= before.push(
                        TallyView { proposal: vote_fen@, count: 1 },
                    ));
                }
            },
        }
        proof {
            assert(self@ =~= old(self)@.cast_vote(voter@, board_fen@, vote_fen@)->Ok_0);
        }
        Ok(())
    }

    /// Closes the open period at time `now`: the proposal with the most votes
    /// becomes the position, the first of them to have drawn a vote where
    /// several share the lead; without votes the position stays. The votes
    /// are cleared and the next period runs until `now` plus the period
    /// length.
    ///
    /// Fails with `PeriodNotElapsed` where `now` is not past the deadline,
    /// else with `GameAlreadyOver` where the game is over.
    pub fn tally_votes(&mut self, now: u64) -> (res: Result<(), GameError>)
        requires
            old(self).wf(),
            old(self)@.tally(now as nat) is Ok ==> now + old(self)@.period_length <= u64::MAX,
        ensures
            final(self).wf(),
            carried_out(old(self)@.tally(now as nat), old(self)@, final(self)@, res),
    {
        if now <= self.next_period_timestamp {
            return Err(GameError::PeriodNotElapsed);
        }
        if !self.game_active {
            return Err(GameError::GameAlreadyOver);
        }
        if self.votes.len() > 0 {
            let best = leading_entry(&self.votes);
            proof {
                lemma_leader_is(tallies(self.votes@), best as int);
            }
            self.board_fen = self.votes[best].proposal.clone();
        }
        self.votes.clear();
        self.voted_this_period.clear();
        self.next_period_timestamp = now + self.base_voting_interval;
        proof {
            assert(tallies(self.votes@) =~= Seq::<TallyView>::empty());
            assert(name_set(self.voted_this_period@) =~= Set::<Seq<char>>::empty());
            assert(self@ =~= old(self)@.tally(now as nat)->Ok_0);
        }
        Ok(())
    }

    /// Ends the game. From then on nothing changes it any more.
    ///
    /// Fails with `GameAlreadyOver` where the game has been ended before.
    /// What is paid out for `outcome`, and to whom, is the caller's to settle.
    #[allow(unused_variables)]
    pub fn finish_game(&mut self, outcome: Outcome) -> (res: Result<(), GameError>)
        requires
            old(self).wf(),
        ensures
            final(self).wf(),
            carried_out(old(self)@.finish(), old(self)@, final(self)@, res),
    {
        if !self.game_active {
            return Err(GameError::GameAlreadyOver);
        }
        self.game_active = false;
        proof {
            assert(self@ =~= old(self)@.finish()->Ok_0);
        }
        Ok(())
    }
}

} // verus!
