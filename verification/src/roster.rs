//! Lists of identifiers in which nothing occurs twice.

use vstd::prelude::*;

verus! {

/// A list with `id` added at the end unless already listed.
pub open spec fn enlisted(ids: Seq<u64>, id: u64) -> Seq<u64> {
    if ids.contains(id) {
        ids
    } else {
        ids.push(id)
    }
}

/// A list without duplicates stays without duplicates when someone is enlisted.
pub proof fn lemma_enlisted(users: Seq<u64>, reporter: u64)
    requires
        users.no_duplicates(),
    ensures
        enlisted(users, reporter).no_duplicates(),
        forall|other: u64|
            enlisted(users, reporter).contains(other) <==> (other == reporter || users.contains(
                other,
            )),
{
    let after = enlisted(users, reporter);
    assert forall|other: u64| after.contains(other) <==> (other == reporter || users.contains(
        other,
    )) by {
        if after.contains(other) {
            let j = choose|j: int| 0 <= j < after.len() && after[j] == other;
            if j < users.len() {
                assert(users[j] == other);
            }
        }
        if users.contains(other) {
            let j = choose|j: int| 0 <= j < users.len() && users[j] == other;
            assert(after[j] == other);
        }
        if other == reporter && !users.contains(reporter) {
            assert(after[users.len() as int] == reporter);
        }
    }
}

/// Whether `id` is listed in `ids`.
pub fn is_listed(ids: &Vec<u64>, id: u64) -> (found: bool)
    ensures
        found == ids@.contains(id),
{
    let mut i: usize = 0;
    while i < ids.len()
        invariant
            i <= ids.len(),
            forall|j: int| 0 <= j < i ==> ids@[j] != id,
        decreases ids.len() - i,
    {
        if ids[i] == id {
            return true;
        }
        i += 1;
    }
    false
}

/// Lists `id` in `ids` unless already there; says whether it was added.
pub fn enlist(ids: &mut Vec<u64>, id: u64) -> (added: bool)
    requires
        old(ids)@.no_duplicates(),
    ensures
        final(ids)@ == enlisted(old(ids)@, id),
        added == !old(ids)@.contains(id),
        final(ids)@.no_duplicates(),
        forall|other: u64|
            #![trigger final(ids)@.contains(other)]
            #![trigger old(ids)@.contains(other)]
            final(ids)@.contains(other) <==> (other == id || old(ids)@.contains(other)),
{
    if is_listed(ids, id) {
        return false;
    }
    ids.push(id);
    proof {
        lemma_enlisted(old(ids)@, id);
    }
    true
}

/// A list with the identifiers of `from` added in their order, each unless
/// already listed.
pub open spec fn enlisted_all(ids: Seq<u64>, from: Seq<u64>) -> Seq<u64>
    decreases from.len(),
{
    if from.len() == 0 {
        ids
    } else {
        enlisted(enlisted_all(ids, from.drop_last()), from.last())
    }
}

/// Enlisting many adds exactly those, and keeps a list free of duplicates so.
pub proof fn lemma_enlisted_all(ids: Seq<u64>, from: Seq<u64>)
    requires
        ids.no_duplicates(),
    ensures
        enlisted_all(ids, from).no_duplicates(),
        forall|id: u64|
            #![trigger enlisted_all(ids, from).contains(id)]
            #![trigger ids.contains(id)]
            #![trigger from.contains(id)]
            enlisted_all(ids, from).contains(id) <==> (ids.contains(id) || from.contains(id)),
    decreases from.len(),
{
    if from.len() > 0 {
        let earlier = from.drop_last();
        let before = enlisted_all(ids, earlier);
        let after = enlisted_all(ids, from);
        lemma_enlisted_all(ids, earlier);
        assert(from[from.len() - 1] == from.last());
        assert forall|id: u64| after.contains(id) <==> (ids.contains(id) || from.contains(id)) by {
            if after.contains(id) {
                let j = choose|j: int| 0 <= j < after.len() && after[j] == id;
                if j < before.len() {
                    assert(before[j] == id);
                    assert(before.contains(id));
                }
            }
            if before.contains(id) {
                let j = choose|j: int| 0 <= j < before.len() && before[j] == id;
                assert(after[j] == id);
            }
            if id == from.last() && !before.contains(id) {
                assert(after[before.len() as int] == id);
            }
            if earlier.contains(id) {
                let j = choose|j: int| 0 <= j < earlier.len() && earlier[j] == id;
                assert(from[j] == id);
            }
            if from.contains(id) && id != from.last() {
                let j = choose|j: int| 0 <= j < from.len() && from[j] == id;
                assert(earlier[j] == id);
            }
        }
    }
}

/// Lists every identifier of `from` in `into` that is not there yet.
pub fn enlist_all(into: &mut Vec<u64>, from: &Vec<u64>)
    requires
        old(into)@.no_duplicates(),
    ensures
        final(into)@ == enlisted_all(old(into)@, from@),
        final(into)@.no_duplicates(),
        forall|id: u64|
            #![trigger final(into)@.contains(id)]
            #![trigger old(into)@.contains(id)]
            #![trigger from@.contains(id)]
            final(into)@.contains(id) <==> (old(into)@.contains(id) || from@.contains(id)),
{
    let mut i: usize = 0;
    while i < from.len()
        invariant
            i <= from.len(),
            into@.no_duplicates(),
            into@ == enlisted_all(old(into)@, from@.subrange(0, i as int)),
        decreases from.len() - i,
    {
        proof {
            let next = from@.subrange(0, i + 1);
            assert(next.drop_last() =~= from@.subrange(0, i as int));
            assert(next.last() == from@[i as int]);
        }
        enlist(into, from[i]);
        i += 1;
    }
    proof {
        assert(from@.subrange(0, from.len() as int) =~= from@);
        lemma_enlisted_all(old(into)@, from@);
    }
}

/// Whether nothing occurs twice in `ids`.
pub fn is_duplicate_free(ids: &Vec<u64>) -> (free: bool)
    ensures
        free == ids@.no_duplicates(),
{
    let mut seen: Vec<u64> = Vec::new();
    let mut i: usize = 0;
    while i < ids.len()
        invariant
            i <= ids.len(),
            seen@ == ids@.subrange(0, i as int),
            seen@.no_duplicates(),
        decreases ids.len() - i,
    {
        if !enlist(&mut seen, ids[i]) {
            proof {
                let earlier = ids@.subrange(0, i as int);
                let j = choose|j: int| 0 <= j < earlier.len() && earlier[j] == ids@[i as int];
                assert(ids@[j] == ids@[i as int]);
            }
            return false;
        }
        proof {
            assert(seen@ =~= ids@.subrange(0, i + 1));
        }
        i += 1;
    }
    proof {
        assert(ids@.subrange(0, ids.len() as int) =~= ids@);
    }
    true
}

} // verus!
