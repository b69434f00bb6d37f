//! The sum of the scores recorded in a reporter-to-score map.

use std::collections::HashMap;
use vstd::prelude::*;

verus! {

broadcast use vstd::std_specs::hash::group_hash_axioms;

/// The sum of all scores in `votes`; zero for the empty map.
pub open spec fn votes_total(votes: Map<u64, i64>) -> int
    decreases votes.dom().len(),
    when votes.dom().finite()
{
    if votes.dom().len() == 0 {
        0
    } else {
        let reporter = votes.dom().choose();
        votes[reporter] + votes_total(votes.remove(reporter))
    }
}

/// What `reporter` currently contributes to the total: the recorded score, or nothing.
pub open spec fn recorded_score(votes: Map<u64, i64>, reporter: u64) -> int {
    if votes.contains_key(reporter) {
        votes[reporter] as int
    } else {
        0
    }
}

/// The empty map sums to zero.
pub proof fn lemma_total_empty()
    ensures
        votes_total(Map::<u64, i64>::empty()) == 0,
{
    assert(Map::<u64, i64>::empty().dom() =~= Set::<u64>::empty());
}

/// The total splits into any one reporter's score and the total of the others.
pub proof fn lemma_total_split(votes: Map<u64, i64>, reporter: u64)
    requires
        votes.dom().finite(),
        votes.contains_key(reporter),
    ensures
        votes_total(votes) == votes[reporter] + votes_total(votes.remove(reporter)),
    decreases votes.dom().len(),
{
    let first = votes.dom().choose();
    assert(votes.dom().len() != 0) by {
        if votes.dom().len() == 0 {
            vstd::set_lib::lemma_set_empty_equivalency_len(votes.dom());
        }
    }
    if first != reporter {
        let rest = votes.remove(first);
        let others = votes.remove(reporter);
        assert(votes.dom().contains(first)) by {
            vstd::set_lib::lemma_set_empty_equivalency_len(votes.dom());
        }
        lemma_total_split(rest, reporter);
        lemma_total_split(others, first);
        assert(rest.remove(reporter) =~= others.remove(first));
    }
}

/// Recording a score replaces what the reporter contributed before.
pub proof fn lemma_total_insert(votes: Map<u64, i64>, reporter: u64, score: i64)
    requires
        votes.dom().finite(),
    ensures
        votes_total(votes.insert(reporter, score)) == score + votes_total(votes.remove(reporter)),
        votes_total(votes.insert(reporter, score)) == votes_total(votes) - recorded_score(
            votes,
            reporter,
        ) + score,
{
    let updated = votes.insert(reporter, score);
    lemma_total_split(updated, reporter);
    assert(updated.remove(reporter) =~= votes.remove(reporter));
    if votes.contains_key(reporter) {
        lemma_total_split(votes, reporter);
    } else {
        assert(votes.remove(reporter) =~= votes);
    }
}

/// The total lies within what so many votes can add up to at most.
pub proof fn lemma_total_bounds(votes: Map<u64, i64>)
    requires
        votes.dom().finite(),
        forall|reporter: u64| #[trigger]
            votes.contains_key(reporter) ==> -200 <= votes[reporter] <= 600,
    ensures
        -200 * votes.len() <= votes_total(votes) <= 600 * votes.len(),
    decreases votes.len(),
{
    if votes.dom().len() != 0 {
        let reporter = votes.dom().choose();
        assert(votes.contains_key(reporter)) by {
            vstd::set_lib::lemma_set_empty_equivalency_len(votes.dom());
        }
        let rest = votes.remove(reporter);
        assert forall|other: u64| #[trigger] rest.contains_key(other) implies -200 <= rest[other]
            <= 600 by {
            assert(votes.contains_key(other));
        }
        lemma_total_bounds(rest);
    }
}

/// Whether `votes` records for `reporter` a score that a vote can have.
pub open spec fn has_valid_score(votes: Map<u64, i64>, reporter: u64) -> bool {
    votes.contains_key(reporter) && -200 <= votes[reporter] <= 600
}

/// The sum of the scores that `votes` records for the reporters in `ids`.
pub open spec fn listed_total(votes: Map<u64, i64>, ids: Seq<u64>) -> int
    decreases ids.len(),
{
    if ids.len() == 0 {
        0
    } else {
        listed_total(votes, ids.drop_last()) + votes[ids.last()]
    }
}

/// The scores of listed reporters do not depend on a reporter who is not listed.
pub proof fn lemma_listed_total_without(votes: Map<u64, i64>, ids: Seq<u64>, reporter: u64)
    requires
        !ids.contains(reporter),
    ensures
        listed_total(votes.remove(reporter), ids) == listed_total(votes, ids),
    decreases ids.len(),
{
    if ids.len() > 0 {
        let rest = ids.drop_last();
        assert(ids[ids.len() - 1] == ids.last());
        assert forall|id: u64| rest.contains(id) implies ids.contains(id) by {
            let j = choose|j: int| 0 <= j < rest.len() && rest[j] == id;
            assert(ids[j] == id);
        }
        lemma_listed_total_without(votes, rest, reporter);
    }
}

/// The total can be taken along any list that names every reporter once.
pub proof fn lemma_total_by_list(votes: Map<u64, i64>, ids: Seq<u64>)
    requires
        votes.dom().finite(),
        ids.no_duplicates(),
        forall|id: u64| ids.contains(id) <==> votes.contains_key(id),
    ensures
        votes_total(votes) == listed_total(votes, ids),
    decreases ids.len(),
{
    if ids.len() == 0 {
        assert(votes.dom() =~= Set::<u64>::empty()) by {
            assert forall|id: u64| !votes.dom().contains(id) by {
                assert(!ids.contains(id));
            }
        }
    } else {
        let last = ids.last();
        let rest = ids.drop_last();
        assert(ids[ids.len() - 1] == last);
        assert(ids.contains(last));
        lemma_total_split(votes, last);
        assert forall|id: u64| rest.contains(id) <==> votes.remove(last).contains_key(id) by {
            if rest.contains(id) {
                let j = choose|j: int| 0 <= j < rest.len() && rest[j] == id;
                assert(ids[j] == id);
                assert(ids.contains(id));
                assert(ids[j] != ids[ids.len() - 1]);
            }
            if votes.remove(last).contains_key(id) {
                assert(ids.contains(id));
                let j = choose|j: int| 0 <= j < ids.len() && ids[j] == id;
                assert(rest[j] == id);
            }
        }
        lemma_total_by_list(votes.remove(last), rest);
        lemma_listed_total_without(votes, rest, last);
    }
}

/// Adds up the scores that `votes` records for the reporters in `ids`, unless
/// one of them has no score or a score that no vote can have.
pub fn total_of_listed(votes: &HashMap<u64, i64>, ids: &Vec<u64>) -> (total: Option<i128>)
    ensures
        total is Some <==> forall|i: int| 0 <= i < ids@.len() ==> has_valid_score(votes@, ids@[i]),
        total matches Some(sum) ==> sum == listed_total(votes@, ids@),
{
    let mut sum: i128 = 0;
    let mut i: usize = 0;
    while i < ids.len()
        invariant
            i <= ids.len(),
            forall|j: int| 0 <= j < i ==> has_valid_score(votes@, ids@[j]),
            sum == listed_total(votes@, ids@.subrange(0, i as int)),
            -200 * i <= sum <= 600 * i,
        decreases ids.len() - i,
    {
        let score: i64 = match votes.get(&ids[i]) {
            Some(score) => *score,
            None => {
                return None;
            },
        };
        if score < -200 || score > 600 {
            return None;
        }
        proof {
            let next = ids@.subrange(0, i + 1);
            assert(next.drop_last() =~= ids@.subrange(0, i as int));
            assert(next.last() == ids@[i as int]);
        }
        sum = sum + score as i128;
        i += 1;
    }
    proof {
        assert(ids@.subrange(0, ids.len() as int) =~= ids@);
    }
    Some(sum)
}

} // verus!
