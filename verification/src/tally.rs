use vstd::prelude::*;

use crate::model::{distinct_proposals, leads, total_votes, TallyView};
use crate::votes::{lemma_total_votes_of_front, lemma_total_votes_step};

verus! {

/// The votes that one proposed position has drawn in the open period.
#[derive(Clone, Debug, PartialEq, Eq)]
pub struct Tally {
    pub proposal: String,
    pub count: u64,
}

impl View for Tally {
    type V = TallyView;

    open spec fn view(&self) -> TallyView {
        TallyView { proposal: self.proposal@, count: self.count as nat }
    }
}

/// The views of a list of tallies, in the list's order.
pub open spec fn tallies(list: Seq<Tally>) -> Seq<TallyView> {
    Seq::new(list.len(), |i: int| list[i]@)
}

/// Where the first entry for `proposal` stands in `votes`.
pub fn find_proposal(votes: &Vec<Tally>, proposal: &String) -> (at: Option<usize>)
    ensures
        match at {
            Some(i) => i < votes.len() && votes[i as int].proposal@ == proposal@ && forall|j: int|
                0 <= j < i ==> (#[trigger] votes[j]).proposal@ != proposal@,
            None => forall|j: int|
                0 <= j < votes.len() ==> (#[trigger] votes[j]).proposal@ != proposal@,
        },
{
    let mut i: usize = 0;
    while i < votes.len()
        invariant
            i <= votes.len(),
            forall|j: int| 0 <= j < i ==> (#[trigger] votes[j]).proposal@ != proposal@,
        decreases votes.len() - i,
    {
        if votes[i].proposal == *proposal {
            return Some(i);
        }
        i = i + 1;
    }
    None
}

/// The entry that wins: the first of those with the most votes.
pub fn leading_entry(votes: &Vec<Tally>) -> (best: usize)
    requires
        votes.len() > 0,
    ensures
        leads(tallies(votes@), best as int),
{
    let mut best: usize = 0;
    let mut i: usize = 1;
    while i < votes.len()
        invariant
            best < i <= votes.len(),
            forall|j: int| 0 <= j < best ==> (#[trigger] votes[j]).count < votes[best as int].count,
            forall|j: int| best < j < i ==> (#[trigger] votes[j]).count <= votes[best as int].count,
        decreases votes.len() - i,
    {
        if votes[i].count > votes[best].count {
            best = i;
        }
        i = i + 1;
    }
    proof {
        let view = tallies(votes@);
        assert forall|j: int| 0 <= j < best implies (#[trigger] view[j]).count
            < view[best as int].count by {
            assert(votes[j].count < votes[best as int].count);
        }
        assert forall|j: int| best < j < view.len() implies (#[trigger] view[j]).count
            <= view[best as int].count by {
            assert(votes[j].count <= votes[best as int].count);
        }
    }
    best
}

/// Whether no two entries are for the same proposal.
pub fn proposals_distinct(votes: &Vec<Tally>) -> (ok: bool)
    ensures
        ok == distinct_proposals(tallies(votes@)),
{
    let mut i: usize = 0;
    while i < votes.len()
        invariant
            i <= votes.len(),
            forall|a: int, b: int|
                0 <= a < b < i ==> (#[trigger] votes[a]).proposal@ != (#[trigger] votes[b]).proposal@,
        decreases votes.len() - i,
    {
        let mut k: usize = 0;
        while k < i
            invariant
                k <= i < votes.len(),
                forall|a: int|
                    0 <= a < k ==> (#[trigger] votes[a]).proposal@ != votes[i as int].proposal@,
            decreases i - k,
        {
            if votes[k].proposal == votes[i].proposal {
                proof {
                    let view = tallies(votes@);
                    assert(view[k as int].proposal == view[i as int].proposal);
                }
                return false;
            }
            k = k + 1;
        }
        i = i + 1;
    }
    proof {
        let view = tallies(votes@);
        assert forall|a: int, b: int| 0 <= a < b < view.len() implies (#[trigger] view[a]).proposal
            != (#[trigger] view[b]).proposal by {
            assert(votes[a].proposal@ != votes[b].proposal@);
        }
    }
    true
}

/// Whether every entry holds at least one vote.
pub fn all_voted_for(votes: &Vec<Tally>) -> (ok: bool)
    ensures
        ok == (forall|i: int| 0 <= i < votes.len() ==> (#[trigger] tallies(votes@)[i]).count >= 1),
{
    let mut i: usize = 0;
    while i < votes.len()
        invariant
            i <= votes.len(),
            forall|a: int| 0 <= a < i ==> (#[trigger] votes[a]).count >= 1,
        decreases votes.len() - i,
    {
        if votes[i].count == 0 {
            proof {
                assert(tallies(votes@)[i as int].count == 0);
            }
            return false;
        }
        i = i + 1;
    }
    proof {
        assert forall|a: int| 0 <= a < votes.len() implies (#[trigger] tallies(votes@)[a]).count
            >= 1 by {
            assert(votes[a].count >= 1);
        }
    }
    true
}

/// Whether the entries hold `expected` votes together.
pub fn votes_add_up(votes: &Vec<Tally>, expected: usize) -> (ok: bool)
    ensures
        ok == (total_votes(tallies(votes@)) == expected),
{
    let ghost view = tallies(votes@);
    let mut left: usize = expected;
    let mut i: usize = 0;
    while i < votes.len()
        invariant
            i <= votes.len(),
            view == tallies(votes@),
            left <= expected,
            total_votes(view.take(i as int)) == expected - left,
        decreases votes.len() - i,
    {
        let count = votes[i].count;
        proof {
            lemma_total_votes_step(view, i as int);
            lemma_total_votes_of_front(view, i + 1);
        }
        if count > left as u64 {
            return false;
        }
        left = left - count as usize;
        i = i + 1;
    }
    proof {
        assert(view.take(i as int) == view);
    }
    left == 0
}

} // verus!
