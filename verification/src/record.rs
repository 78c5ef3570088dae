use vstd::prelude::*;

use crate::model::GameState;
use crate::roster::{
    all_distinct, all_within, lemma_name_set_finite, lemma_name_set_len, name_set, names,
    share_none,
};
use crate::tally::{all_voted_for, proposals_distinct, tallies, votes_add_up, Tally};

verus! {

/// A game as plain values: what is kept of it between two calls.
#[derive(Clone, Debug, PartialEq, Eq)]
pub struct GameRecord {
    pub game_active: bool,
    pub board_fen: String,
    pub buyin_amount: u128,
    pub base_voting_interval: u64,
    pub next_period_timestamp: u64,
    pub votes: Vec<Tally>,
    pub voted_this_period: Vec<String>,
    pub white_players: Vec<String>,
    pub black_players: Vec<String>,
}

impl View for GameRecord {
    type V = GameState;

    open spec fn view(&self) -> GameState {
        GameState {
            active: self.game_active,
            position: self.board_fen@,
            buy_in: self.buyin_amount as nat,
            period_length: self.base_voting_interval as nat,
            period_deadline: self.next_period_timestamp as nat,
            votes: tallies(self.votes@),
            voted_this_period: name_set(self.voted_this_period@),
            white_roster: name_set(self.white_players@),
            black_roster: name_set(self.black_players@),
        }
    }
}

impl GameRecord {
    /// The record names no player twice in a list and holds a valid game.
    pub open spec fn valid(&self) -> bool {
        &&& names(self.voted_this_period@).no_duplicates()
        &&& names(self.white_players@).no_duplicates()
        &&& names(self.black_players@).no_duplicates()
        &&& self@.wf()
    }

    /// Whether the record is valid.
    pub fn is_valid(&self) -> (ok: bool)
        ensures
            ok == self.valid(),
    {
        proof {
            lemma_name_set_finite(self.voted_this_period@);
            lemma_name_set_finite(self.white_players@);
            lemma_name_set_finite(self.black_players@);
        }
        if !all_distinct(&self.voted_this_period) {
            return false;
        }
        proof {
            lemma_name_set_len(self.voted_this_period@);
        }
        all_distinct(&self.white_players) && all_distinct(&self.black_players) && share_none(
            &self.white_players,
            &self.black_players,
        ) && all_within(&self.voted_this_period, &self.white_players, &self.black_players)
            && proposals_distinct(&self.votes) && all_voted_for(&self.votes) && votes_add_up(
            &self.votes,
            self.voted_this_period.len(),
        )
    }
}

} // verus!
