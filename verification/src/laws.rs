use vstd::prelude::*;

use crate::error::GameError;
use crate::model::{leader, leads, winning_position, GameState, TallyView};
use crate::position::{lemma_first_space_is, side_to_move, Side, STARTING_POSITION};
use crate::votes::{
    lemma_entries_within_total, lemma_leader_exists, lemma_leader_unique,
    lemma_no_votes_no_entries, lemma_record_vote,
};

verus! {

/// The rosters differ in size by at most one player, white never behind.
pub open spec fn balanced(game: GameState) -> bool {
    game.white_roster.len() == game.black_roster.len() || game.white_roster.len()
        == game.black_roster.len() + 1
}

/// A new game is a valid game with balanced rosters.
pub proof fn law_new_game_is_valid(buy_in: nat, period_length: nat, now: nat)
    ensures
        GameState::initial(buy_in, period_length, now).wf(),
        balanced(GameState::initial(buy_in, period_length, now)),
{
}

/// The starting position has white to move.
pub proof fn law_white_moves_first()
    ensures
        side_to_move(STARTING_POSITION@) == Some(Side::White),
{
    reveal_strlit("rnbqkbnr/pppppppp/8/8/8/8/PPPPPPPP/RNBQKBNR w KQkq - 0 1");
    let position = STARTING_POSITION@;
    lemma_first_space_is(position, 43);
    let rest = position.skip(44);
    assert(rest[0] == 'w');
    assert(rest[1] == ' ');
    lemma_first_space_is(rest, 1);
}

/// A player who has joined sits on exactly one roster, on the side that the
/// joining rule names; nobody else moves, and the game stays valid.
pub proof fn law_join_seats_on_one_side(game: GameState, player: Seq<char>, attached: nat)
    requires
        game.wf(),
        game.join(player, attached) is Ok,
    ensures
        ({
            let after = game.join(player, attached)->Ok_0;
            &&& after.wf()
            &&& after.white_roster.contains(player) != after.black_roster.contains(player)
            &&& after.roster(game.joining_side()).contains(player)
            &&& forall|other: Seq<char>|
                other != player ==> (after.white_roster.contains(other)
                    == game.white_roster.contains(other) && after.black_roster.contains(other)
                    == game.black_roster.contains(other))
        }),
{
}

/// Joining keeps the rosters balanced.
pub proof fn law_join_keeps_balance(game: GameState, player: Seq<char>, attached: nat)
    requires
        game.wf(),
        balanced(game),
        game.join(player, attached) is Ok,
    ensures
        balanced(game.join(player, attached)->Ok_0),
{
}

/// A vote that is counted keeps the game valid, marks the voter as having
/// voted and adds one vote to the total.
pub proof fn law_vote_is_counted_once(
    game: GameState,
    voter: Seq<char>,
    claimed: Seq<char>,
    proposed: Seq<char>,
)
    requires
        game.wf(),
        game.cast_vote(voter, claimed, proposed) is Ok,
    ensures
        ({
            let after = game.cast_vote(voter, claimed, proposed)->Ok_0;
            &&& after.wf()
            &&& after.voted_this_period.contains(voter)
            &&& after.voted_this_period.len() == game.voted_this_period.len() + 1
        }),
{
    lemma_record_vote(game.votes, proposed);
}

/// Whoever has voted in the open period is refused with `AlreadyVoted` when
/// voting again on the current position.
pub proof fn law_no_second_vote(game: GameState, voter: Seq<char>, proposed: Seq<char>)
    requires
        game.wf(),
        game.voted_this_period.contains(voter),
    ensures
        game.cast_vote(voter, game.position, proposed) == Err::<GameState, GameError>(
            GameError::AlreadyVoted,
        ),
{
}

/// Two votes of one player in a row: where the first is counted, the second,
/// made on the position that the game shows, fails with `AlreadyVoted`.
pub proof fn law_second_vote_is_refused(
    game: GameState,
    voter: Seq<char>,
    claimed: Seq<char>,
    first: Seq<char>,
    second: Seq<char>,
)
    requires
        game.wf(),
        game.cast_vote(voter, claimed, first) is Ok,
    ensures
        game.cast_vote(voter, claimed, first)->Ok_0.cast_vote(voter, claimed, second) == Err::<
            GameState,
            GameError,
        >(GameError::AlreadyVoted),
{
}

/// Players who join between two votes of one player do not change that: the
/// second vote still fails with `AlreadyVoted`.
pub proof fn law_join_keeps_votes(
    game: GameState,
    voter: Seq<char>,
    newcomer: Seq<char>,
    attached: nat,
    proposed: Seq<char>,
)
    requires
        game.wf(),
        game.voted_this_period.contains(voter),
        game.join(newcomer, attached) is Ok,
    ensures
        game.join(newcomer, attached)->Ok_0.cast_vote(voter, game.position, proposed) == Err::<
            GameState,
            GameError,
        >(GameError::AlreadyVoted),
{
}

/// A valid game holds votes exactly while somebody has voted.
pub proof fn law_votes_come_from_voters(game: GameState)
    requires
        game.wf(),
    ensures
        game.votes.len() == 0 <==> game.voted_this_period == Set::<Seq<char>>::empty(),
{
    lemma_no_votes_no_entries(game.votes);
    if game.voted_this_period.len() == 0 {
        game.voted_this_period.lemma_len0_is_empty();
    }
}

/// A valid game holds no more proposals than voters, and no more voters than
/// players: a tally looks at no more entries than the game has players.
pub proof fn law_proposals_are_bounded(game: GameState)
    requires
        game.wf(),
    ensures
        game.votes.len() <= game.voted_this_period.len() <= game.players(),
{
    lemma_entries_within_total(game.votes);
    let seated = game.white_roster.union(game.black_roster);
    vstd::set_lib::lemma_set_disjoint_lens(game.white_roster, game.black_roster);
    vstd::set_lib::lemma_len_subset(game.voted_this_period, seated);
}

/// Only a tally closes a period: joining, voting and finishing leave the
/// deadline and the position alone, and joining and finishing the votes too.
pub proof fn law_only_tally_closes_the_period(
    game: GameState,
    player: Seq<char>,
    attached: nat,
    claimed: Seq<char>,
    proposed: Seq<char>,
)
    ensures
        game.join(player, attached) is Ok ==> ({
            let after = game.join(player, attached)->Ok_0;
            &&& after.period_deadline == game.period_deadline
            &&& after.position == game.position
            &&& after.votes == game.votes
            &&& after.voted_this_period == game.voted_this_period
        }),
        game.cast_vote(player, claimed, proposed) is Ok ==> ({
            let after = game.cast_vote(player, claimed, proposed)->Ok_0;
            &&& after.period_deadline == game.period_deadline
            &&& after.position == game.position
        }),
        game.finish() is Ok ==> ({
            let after = game.finish()->Ok_0;
            &&& after.period_deadline == game.period_deadline
            &&& after.position == game.position
            &&& after.votes == game.votes
            &&& after.voted_this_period == game.voted_this_period
        }),
{
}

/// Nobody ever leaves a roster, and only joining adds to one.
pub proof fn law_seats_are_kept(
    game: GameState,
    player: Seq<char>,
    attached: nat,
    claimed: Seq<char>,
    proposed: Seq<char>,
    now: nat,
)
    ensures
        game.join(player, attached) is Ok ==> ({
            let after = game.join(player, attached)->Ok_0;
            &&& game.white_roster.subset_of(after.white_roster)
            &&& game.black_roster.subset_of(after.black_roster)
        }),
        game.cast_vote(player, claimed, proposed) is Ok ==> ({
            let after = game.cast_vote(player, claimed, proposed)->Ok_0;
            &&& after.white_roster == game.white_roster
            &&& after.black_roster == game.black_roster
        }),
        game.tally(now) is Ok ==> ({
            let after = game.tally(now)->Ok_0;
            &&& after.white_roster == game.white_roster
            &&& after.black_roster == game.black_roster
        }),
        game.finish() is Ok ==> ({
            let after = game.finish()->Ok_0;
            &&& after.white_roster == game.white_roster
            &&& after.black_roster == game.black_roster
        }),
{
}

/// A tally at or before the deadline fails with `PeriodNotElapsed`, whatever
/// else holds of the game.
pub proof fn law_early_tally_is_refused(game: GameState, now: nat)
    requires
        now <= game.period_deadline,
    ensures
        game.tally(now) == Err::<GameState, GameError>(GameError::PeriodNotElapsed),
{
}

/// A tally that succeeds leaves no votes and no voters, sets the deadline to
/// `now` plus the period length, which is later than the deadline before,
/// and changes neither the rosters nor the settings. The game stays valid.
pub proof fn law_tally_opens_fresh_period(game: GameState, now: nat)
    requires
        game.wf(),
        game.tally(now) is Ok,
    ensures
        ({
            let after = game.tally(now)->Ok_0;
            &&& after.wf()
            &&& after.votes.len() == 0
            &&& after.voted_this_period == Set::<Seq<char>>::empty()
            &&& after.period_deadline == now + game.period_length
            &&& after.period_deadline > game.period_deadline
            &&& after.white_roster == game.white_roster
            &&& after.black_roster == game.black_roster
            &&& after.buy_in == game.buy_in
            &&& after.period_length == game.period_length
            &&& after.active
        }),
{
}

/// Without votes a tally keeps the position.
pub proof fn law_tally_without_votes_keeps_position(game: GameState, now: nat)
    requires
        game.votes.len() == 0,
        game.tally(now) is Ok,
    ensures
        game.tally(now)->Ok_0.position == game.position,
{
}

/// With votes a tally moves to a proposal that drew votes: one that no other
/// proposal beats, and that every proposal before it trails.
pub proof fn law_tally_picks_the_leader(game: GameState, now: nat)
    requires
        game.votes.len() > 0,
        game.tally(now) is Ok,
    ensures
        leads(game.votes, leader(game.votes)),
        game.tally(now)->Ok_0.position == game.votes[leader(game.votes)].proposal,
{
    let i = lemma_leader_exists(game.votes);
}

/// The winner is determined by the votes: only one entry can win.
pub proof fn law_winner_is_unique(votes: Seq<TallyView>, i: int, j: int)
    requires
        leads(votes, i),
        leads(votes, j),
    ensures
        i == j,
        winning_position(votes, votes[i].proposal) == votes[i].proposal,
{
    lemma_leader_unique(votes, i, j);
    lemma_leader_unique(votes, i, leader(votes));
}

/// Of two proposals with equally many votes the later one never wins.
pub proof fn law_tie_goes_to_the_earlier(votes: Seq<TallyView>, earlier: int, later: int)
    requires
        0 <= earlier < later < votes.len(),
        votes[earlier].count == votes[later].count,
    ensures
        !leads(votes, later),
{
}

/// A finished game stays as it is: every step fails on it.
pub proof fn law_finished_game_is_frozen(
    game: GameState,
    player: Seq<char>,
    attached: nat,
    claimed: Seq<char>,
    proposed: Seq<char>,
    now: nat,
)
    requires
        !game.active,
    ensures
        game.join(player, attached) is Err,
        game.cast_vote(player, claimed, proposed) is Err,
        game.tally(now) is Err,
        game.finish() == Err::<GameState, GameError>(GameError::GameAlreadyOver),
{
}

/// Finishing works once: it keeps the game valid and leaves a game on which
/// finishing fails with `GameAlreadyOver`.
pub proof fn law_finish_works_once(game: GameState)
    requires
        game.wf(),
        game.finish() is Ok,
    ensures
        game.finish()->Ok_0.wf(),
        !game.finish()->Ok_0.active,
        game.finish()->Ok_0.finish() == Err::<GameState, GameError>(GameError::GameAlreadyOver),
{
}

} // verus!
