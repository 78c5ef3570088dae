use vstd::prelude::*;

use crate::model::{
    distinct_proposals, holds_proposal, leader, leads, proposal_index, record_vote, total_votes,
    TallyView,
};

verus! {

/// A new entry adds its votes to the total.
pub proof fn lemma_total_votes_push(votes: Seq<TallyView>, entry: TallyView)
    ensures
        total_votes(votes.push(entry)) == total_votes(votes) + entry.count,
{
    let grown = votes.push(entry);
    assert(grown.drop_last() == votes);
    assert(grown.last() == entry);
}

/// Replacing an entry changes the total by the difference of the two counts.
pub proof fn lemma_total_votes_update(votes: Seq<TallyView>, i: int, entry: TallyView)
    requires
        0 <= i < votes.len(),
    ensures
        total_votes(votes.update(i, entry)) + votes[i].count == total_votes(votes) + entry.count,
    decreases votes.len(),
{
    let changed = votes.update(i, entry);
    if i == votes.len() - 1 {
        assert(changed.drop_last() == votes.drop_last());
    } else {
        lemma_total_votes_update(votes.drop_last(), i, entry);
        assert(changed.drop_last() == votes.drop_last().update(i, entry));
    }
}

/// The votes of the first `n + 1` entries are those of the first `n` and of
/// entry `n`.
pub proof fn lemma_total_votes_step(votes: Seq<TallyView>, n: int)
    requires
        0 <= n < votes.len(),
    ensures
        total_votes(votes.take(n + 1)) == total_votes(votes.take(n)) + votes[n].count,
{
    assert(votes.take(n + 1).drop_last() == votes.take(n));
}

/// The first entries never hold more votes than all entries together.
pub proof fn lemma_total_votes_of_front(votes: Seq<TallyView>, n: int)
    requires
        0 <= n <= votes.len(),
    ensures
        total_votes(votes.take(n)) <= total_votes(votes),
    decreases votes.len() - n,
{
    if n < votes.len() {
        lemma_total_votes_step(votes, n);
        lemma_total_votes_of_front(votes, n + 1);
    } else {
        assert(votes.take(n) == votes);
    }
}

/// No entry holds more votes than all entries together.
pub proof fn lemma_count_within_total(votes: Seq<TallyView>, i: int)
    requires
        0 <= i < votes.len(),
    ensures
        votes[i].count <= total_votes(votes),
    decreases votes.len(),
{
    if i < votes.len() - 1 {
        lemma_count_within_total(votes.drop_last(), i);
    }
}

/// Where every entry holds a vote, there are no more entries than votes.
pub proof fn lemma_entries_within_total(votes: Seq<TallyView>)
    requires
        forall|i: int| 0 <= i < votes.len() ==> (#[trigger] votes[i]).count >= 1,
    ensures
        votes.len() <= total_votes(votes),
    decreases votes.len(),
{
    if votes.len() > 0 {
        let front = votes.drop_last();
        assert forall|i: int| 0 <= i < front.len() implies (#[trigger] front[i]).count >= 1 by {
            assert(front[i] == votes[i]);
        }
        lemma_entries_within_total(front);
        assert(votes.last() == votes[votes.len() - 1]);
    }
}

/// A tally without entries holds no votes, and one without votes whose entries
/// all hold a vote has no entries.
pub proof fn lemma_no_votes_no_entries(votes: Seq<TallyView>)
    requires
        forall|i: int| 0 <= i < votes.len() ==> (#[trigger] votes[i]).count >= 1,
    ensures
        total_votes(votes) == 0 <==> votes.len() == 0,
{
    if votes.len() > 0 {
        lemma_count_within_total(votes, 0);
    }
}

/// With one entry per proposal, the entry for a proposal is found at one index only.
pub proof fn lemma_proposal_index_is(votes: Seq<TallyView>, proposal: Seq<char>, i: int)
    requires
        distinct_proposals(votes),
        0 <= i < votes.len(),
        votes[i].proposal == proposal,
    ensures
        holds_proposal(votes, proposal),
        proposal_index(votes, proposal) == i,
{
    let k = proposal_index(votes, proposal);
    if k < i {
        assert(votes[k].proposal != votes[i].proposal);
    } else if i < k {
        assert(votes[i].proposal != votes[k].proposal);
    }
}

/// One more vote keeps one entry per proposal and at least one vote per
/// entry, and raises the total by one.
pub proof fn lemma_record_vote(votes: Seq<TallyView>, proposal: Seq<char>)
    requires
        distinct_proposals(votes),
        forall|i: int| 0 <= i < votes.len() ==> (#[trigger] votes[i]).count >= 1,
    ensures
        distinct_proposals(record_vote(votes, proposal)),
        forall|i: int|
            0 <= i < record_vote(votes, proposal).len() ==> (#[trigger] record_vote(
                votes,
                proposal,
            )[i]).count >= 1,
        total_votes(record_vote(votes, proposal)) == total_votes(votes) + 1,
        holds_proposal(record_vote(votes, proposal), proposal),
{
    let after = record_vote(votes, proposal);
    if holds_proposal(votes, proposal) {
        let k = proposal_index(votes, proposal);
        let entry = TallyView { proposal, count: votes[k].count + 1 };
        lemma_total_votes_update(votes, k, entry);
        assert forall|i: int, j: int| 0 <= i < j < after.len() implies (#[trigger] after[i]).proposal
            != (#[trigger] after[j]).proposal by {
            assert(after[i].proposal == votes[i].proposal);
            assert(after[j].proposal == votes[j].proposal);
        }
        assert forall|i: int| 0 <= i < after.len() implies (#[trigger] after[i]).count >= 1 by {
            if i != k {
                assert(after[i] == votes[i]);
            }
        }
        assert(after[k].proposal == proposal);
    } else {
        let entry = TallyView { proposal, count: 1 };
        lemma_total_votes_push(votes, entry);
        assert forall|i: int, j: int| 0 <= i < j < after.len() implies (#[trigger] after[i]).proposal
            != (#[trigger] after[j]).proposal by {
            assert(after[i] == votes[i]);
            if j < votes.len() {
                assert(after[j] == votes[j]);
            }
        }
        assert forall|i: int| 0 <= i < after.len() implies (#[trigger] after[i]).count >= 1 by {
            if i < votes.len() {
                assert(after[i] == votes[i]);
            }
        }
        assert(after[votes.len() as int].proposal == proposal);
    }
}

/// At most one entry wins: `leads` holds of one index only.
pub proof fn lemma_leader_unique(votes: Seq<TallyView>, i: int, j: int)
    requires
        leads(votes, i),
        leads(votes, j),
    ensures
        i == j,
{
    if i < j {
        assert(votes[i].count < votes[j].count);
        assert(votes[j].count <= votes[i].count);
    } else if j < i {
        assert(votes[j].count < votes[i].count);
        assert(votes[i].count <= votes[j].count);
    }
}

/// Where there is any entry, some entry wins.
pub proof fn lemma_leader_exists(votes: Seq<TallyView>) -> (i: int)
    requires
        votes.len() > 0,
    ensures
        leads(votes, i),
    decreases votes.len(),
{
    if votes.len() == 1 {
        0
    } else {
        let front = votes.drop_last();
        let k = lemma_leader_exists(front);
        let last = votes.len() - 1;
        assert(forall|j: int| 0 <= j < front.len() ==> front[j] == votes[j]);
        if votes[last].count > votes[k].count {
            assert forall|j: int| 0 <= j < last implies (#[trigger] votes[j]).count
                < votes[last].count by {
                assert(front[j] == votes[j]);
                if j < k {
                    assert(front[j].count < front[k].count);
                } else if j > k {
                    assert(front[j].count <= front[k].count);
                }
            }
            last
        } else {
            assert forall|j: int| 0 <= j < k implies (#[trigger] votes[j]).count
                < votes[k].count by {
                assert(front[j].count < front[k].count);
            }
            assert forall|j: int| k < j < votes.len() implies (#[trigger] votes[j]).count
                <= votes[k].count by {
                if j < last {
                    assert(front[j].count <= front[k].count);
                }
            }
            k
        }
    }
}

/// The entry that `leads` names is the one that `leader` picks.
pub proof fn lemma_leader_is(votes: Seq<TallyView>, i: int)
    requires
        leads(votes, i),
    ensures
        leader(votes) == i,
{
    lemma_leader_unique(votes, i, leader(votes));
}

} // verus!
