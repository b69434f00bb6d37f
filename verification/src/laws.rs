//! What holds of incidents and of the handler over whole runs of votes and events.

use crate::active_incident::{
    button_step, command_step, vote_step, ActionView, CommandEvent, IncidentView, OutcomeView,
};
use crate::roster::lemma_enlisted;
use crate::status_vote::{lemma_vote_score_bounds, vote_score, StatusVote};
use crate::tally::{lemma_total_bounds, lemma_total_insert, lemma_total_split, votes_total};
use crate::user_level::{Member, UserLevel};
use vstd::prelude::*;

verus! {

/// One vote as it reaches an incident.
pub struct Ballot {
    pub level: UserLevel,
    pub reporter: u64,
    pub vote: StatusVote,
}

/// The incident after the `ballots` were counted on `start`, first to last.
pub open spec fn tallied(start: IncidentView, ballots: Seq<Ballot>) -> IncidentView
    decreases ballots.len(),
{
    if ballots.len() == 0 {
        start
    } else {
        let last = ballots.last();
        tallied(start, ballots.drop_last()).apply_vote(last.level, last.reporter, last.vote)
    }
}

/// The score of the last ballot that `reporter` cast among `ballots`, if any.
pub open spec fn last_score(ballots: Seq<Ballot>, reporter: u64) -> Option<int>
    decreases ballots.len(),
{
    if ballots.len() == 0 {
        None
    } else if ballots.last().reporter == reporter {
        Some(vote_score(ballots.last().level, ballots.last().vote))
    } else {
        last_score(ballots.drop_last(), reporter)
    }
}

/// Counting a vote keeps an incident well formed: the total stays the sum of
/// the recorded scores, and no list gains a duplicate.
pub proof fn lemma_vote_keeps_wf(
    incident: IncidentView,
    level: UserLevel,
    reporter: u64,
    vote: StatusVote,
)
    requires
        incident.wf(),
    ensures
        incident.apply_vote(level, reporter, vote).wf(),
{
    let after = incident.apply_vote(level, reporter, vote);
    let score = vote_score(level, vote);
    lemma_vote_score_bounds(level, vote);
    lemma_total_insert(incident.votes, reporter, score as i64);
    lemma_enlisted(incident.plain_users, reporter);
    lemma_enlisted(incident.linked_users, reporter);
    lemma_enlisted(incident.patron_users, reporter);
    lemma_enlisted(incident.trusted_users, reporter);
    assert forall|other: u64| #[trigger]
        after.votes.contains_key(other) <==> after.is_member(other) by {
        assert(incident.votes.contains_key(other) <==> incident.is_member(other));
    }
    assert forall|other: u64| #[trigger]
        after.votes.contains_key(other) implies -200 <= after.votes[other] <= 600 by {
        if other != reporter {
            assert(incident.votes.contains_key(other));
        }
    }
}

/// The most voters an incident can have and still be sure to have room for
/// any further vote within its 64-bit total.
pub open spec fn voters_with_room() -> int {
    15_000_000_000_000_000
}

/// An incident has room for every vote unless it has more voters than any
/// machine can hold.
pub proof fn lemma_room_for_every_vote(
    incident: IncidentView,
    level: UserLevel,
    reporter: u64,
    vote: StatusVote,
)
    requires
        incident.wf(),
        incident.votes.len() <= voters_with_room(),
    ensures
        incident.fits(level, reporter, vote),
{
    lemma_vote_score_bounds(level, vote);
    lemma_total_bounds(incident.votes);
    if incident.votes.contains_key(reporter) {
        let others = incident.votes.remove(reporter);
        lemma_total_split(incident.votes, reporter);
        assert forall|other: u64| #[trigger] others.contains_key(other) implies -200
            <= others[other] <= 600 by {
            assert(incident.votes.contains_key(other));
        }
        lemma_total_bounds(others);
    }
}

/// A later vote of a reporter wipes out the earlier one: the total and the
/// recorded scores are as if the earlier vote had never been cast.
pub proof fn lemma_revote_replaces(
    incident: IncidentView,
    reporter: u64,
    earlier_level: UserLevel,
    earlier: StatusVote,
    level: UserLevel,
    vote: StatusVote,
)
    ensures
        incident.apply_vote(earlier_level, reporter, earlier).apply_vote(
            level,
            reporter,
            vote,
        ).total_vote_score == incident.apply_vote(level, reporter, vote).total_vote_score,
        incident.apply_vote(earlier_level, reporter, earlier).apply_vote(
            level,
            reporter,
            vote,
        ).votes == incident.apply_vote(level, reporter, vote).votes,
{
    lemma_vote_score_bounds(earlier_level, earlier);
    lemma_vote_score_bounds(level, vote);
    let once = incident.apply_vote(level, reporter, vote);
    let twice = incident.apply_vote(earlier_level, reporter, earlier).apply_vote(
        level,
        reporter,
        vote,
    );
    assert(twice.votes =~= once.votes);
}

/// A reporter is listed at most once per tier, however often the reporter votes.
pub proof fn lemma_revote_lists_once(
    incident: IncidentView,
    reporter: u64,
    level: UserLevel,
    earlier: StatusVote,
    vote: StatusVote,
)
    ensures
        incident.apply_vote(level, reporter, earlier).apply_vote(level, reporter, vote).bucket(level)
            == incident.apply_vote(level, reporter, earlier).bucket(level),
{
    let once = incident.apply_vote(level, reporter, earlier);
    let listed = once.bucket(level);
    if !incident.bucket(level).contains(reporter) {
        assert(listed[incident.bucket(level).len() as int] == reporter);
    }
    assert(listed.contains(reporter));
}

/// After any run of votes the total is the sum over the reporters of the score
/// each cast last: every recorded score is the reporter's latest, reporters who
/// did not vote in the run keep the score they had, and the total is the sum of
/// the recorded scores.
pub proof fn lemma_only_latest_votes_count(start: IncidentView, ballots: Seq<Ballot>)
    requires
        start.wf(),
    ensures
        tallied(start, ballots).wf(),
        tallied(start, ballots).total_vote_score == votes_total(tallied(start, ballots).votes),
        forall|reporter: u64| #[trigger]
            tallied(start, ballots).votes.contains_key(reporter) <==> (last_score(
                ballots,
                reporter,
            ) is Some || start.votes.contains_key(reporter)),
        forall|reporter: u64|
            (#[trigger] last_score(ballots, reporter)) matches Some(score) ==> tallied(
                start,
                ballots,
            ).votes[reporter] == score,
        forall|reporter: u64|
            (#[trigger] last_score(ballots, reporter)) is None && start.votes.contains_key(reporter)
                ==> tallied(start, ballots).votes[reporter] == start.votes[reporter],
    decreases ballots.len(),
{
    if ballots.len() > 0 {
        let last = ballots.last();
        let before = tallied(start, ballots.drop_last());
        lemma_only_latest_votes_count(start, ballots.drop_last());
        lemma_vote_keeps_wf(before, last.level, last.reporter, last.vote);
        lemma_vote_score_bounds(last.level, last.vote);
        let end = tallied(start, ballots);
        assert forall|reporter: u64| #[trigger]
            end.votes.contains_key(reporter) <==> (last_score(ballots, reporter) is Some
                || start.votes.contains_key(reporter)) by {
            assert(before.votes.contains_key(reporter) <==> (last_score(
                ballots.drop_last(),
                reporter,
            ) is Some || start.votes.contains_key(reporter)));
        }
        assert forall|reporter: u64|
            (#[trigger] last_score(ballots, reporter)) is Some implies end.votes[reporter]
            == last_score(ballots, reporter)->0 by {
            if reporter != last.reporter {
                assert(last_score(ballots.drop_last(), reporter) is Some);
            }
        }
        assert forall|reporter: u64|
            (#[trigger] last_score(ballots, reporter)) is None && start.votes.contains_key(
                reporter,
            ) implies end.votes[reporter] == start.votes[reporter] by {
            assert(last_score(ballots.drop_last(), reporter) is None);
        }
    }
}

/// Whether `event` brings an announcement that can open an incident.
pub open spec fn announces(event: CommandEvent) -> bool {
    event matches CommandEvent::IncidentPosted { level, posted: Some(_), .. } && level
        != UserLevel::Blocked
}

/// The link of the announcement that `event` brings.
pub open spec fn announced_link(event: CommandEvent) -> Seq<char> {
    event->posted->0.url@
}

/// The link of the incident that an action reports as created, if it does.
pub open spec fn created_link(action: ActionView) -> Option<Seq<char>> {
    match action {
        ActionView::Respond { outcome: OutcomeView::Created(link) } => Some(link),
        _ => None,
    }
}

/// The link of the incident that an action reports a report was counted on, if it does.
pub open spec fn joined_link(action: ActionView) -> Option<Seq<char>> {
    match action {
        ActionView::Respond { outcome: OutcomeView::JoinedExisting(link) } => Some(link),
        ActionView::Discard { outcome: OutcomeView::JoinedExisting(link), .. } => Some(link),
        _ => None,
    }
}

/// The slot after the handler took the events of `history` in turn, each with
/// the clock reading beside it, starting from `start`.
pub open spec fn slot_after(
    start: Option<IncidentView>,
    history: Seq<(CommandEvent, u64)>,
) -> Option<IncidentView>
    decreases history.len(),
{
    if history.len() == 0 {
        start
    } else {
        command_step(
            slot_after(start, history.drop_last()),
            history.last().0,
            history.last().1,
        ).0
    }
}

/// The action that the handler took on event `i` of `history`.
pub open spec fn action_at(
    start: Option<IncidentView>,
    history: Seq<(CommandEvent, u64)>,
    i: int,
) -> ActionView {
    command_step(slot_after(start, history.subrange(0, i)), history[i].0, history[i].1).1
}

/// An incident is created exactly when an announcement reaches an empty slot,
/// and it is created at the link of that announcement.
pub proof fn lemma_creation(slot: Option<IncidentView>, event: CommandEvent, now: u64)
    ensures
        created_link(command_step(slot, event, now).1) is Some <==> slot is None && announces(event),
        created_link(command_step(slot, event, now).1) matches Some(link) ==> link
            == announced_link(event),
        created_link(command_step(slot, event, now).1) matches Some(link) ==> command_step(
            slot,
            event,
            now,
        ).0 is Some,
        created_link(command_step(slot, event, now).1) matches Some(link) ==> command_step(
            slot,
            event,
            now,
        ).0->0.message_url == link,
        slot is None && !announces(event) ==> command_step(slot, event, now).0 is None,
        slot is None ==> joined_link(command_step(slot, event, now).1) is None,
{
}

/// Nothing empties or replaces the slot: an active incident stays the active
/// one, under the same message and link, and reports are counted on it.
pub proof fn lemma_occupied_step(slot: Option<IncidentView>, event: CommandEvent, now: u64)
    requires
        slot is Some,
    ensures
        command_step(slot, event, now).0 is Some,
        command_step(slot, event, now).0->0.message_url == slot->0.message_url,
        command_step(slot, event, now).0->0.message_id == slot->0.message_id,
        joined_link(command_step(slot, event, now).1) matches Some(link) ==> link
            == slot->0.message_url,
{
}

/// An active incident stays the active one through any further events.
pub proof fn lemma_slot_stays(
    start: Option<IncidentView>,
    history: Seq<(CommandEvent, u64)>,
    i: int,
    j: int,
)
    requires
        0 <= i <= j <= history.len(),
        slot_after(start, history.subrange(0, i)) is Some,
    ensures
        slot_after(start, history.subrange(0, j)) is Some,
        slot_after(start, history.subrange(0, j))->0.message_url == slot_after(
            start,
            history.subrange(0, i),
        )->0.message_url,
        slot_after(start, history.subrange(0, j))->0.message_id == slot_after(
            start,
            history.subrange(0, i),
        )->0.message_id,
    decreases j - i,
{
    if i < j {
        lemma_slot_stays(start, history, i, j - 1);
        let upto = history.subrange(0, j);
        assert(upto.drop_last() =~= history.subrange(0, j - 1));
        assert(upto.last() == history[j - 1]);
        lemma_occupied_step(
            slot_after(start, history.subrange(0, j - 1)),
            history[j - 1].0,
            history[j - 1].1,
        );
    }
}

/// The slot stays empty as long as no announcement reaches it.
pub proof fn lemma_slot_waits(history: Seq<(CommandEvent, u64)>, i: int)
    requires
        0 <= i <= history.len(),
        forall|k: int| 0 <= k < i ==> !announces(#[trigger] history[k].0),
    ensures
        slot_after(None, history.subrange(0, i)) is None,
    decreases i,
{
    if i > 0 {
        lemma_slot_waits(history, i - 1);
        let upto = history.subrange(0, i);
        assert(upto.drop_last() =~= history.subrange(0, i - 1));
        assert(upto.last() == history[i - 1]);
        assert(!announces(history[i - 1].0));
        lemma_creation(None, history[i - 1].0, history[i - 1].1);
    }
}

/// However many reports race for an empty slot, the first announcement to
/// reach it creates the incident, at its own link.
pub proof fn lemma_first_announcement_creates(history: Seq<(CommandEvent, u64)>, i: int)
    requires
        0 <= i < history.len(),
        announces(history[i].0),
        forall|k: int| 0 <= k < i ==> !announces(#[trigger] history[k].0),
    ensures
        created_link(action_at(None, history, i)) == Some(announced_link(history[i].0)),
{
    lemma_slot_waits(history, i);
    lemma_creation(None, history[i].0, history[i].1);
}

/// However many reports race for an empty slot, at most one of them creates an
/// incident. No report is counted on an incident before that one, and every
/// report counted after it is counted on the incident at the very link that was
/// created.
pub proof fn lemma_exclusive_creation(history: Seq<(CommandEvent, u64)>, i: int, j: int)
    requires
        0 <= i < history.len(),
        0 <= j < history.len(),
        i != j,
        created_link(action_at(None, history, i)) is Some,
    ensures
        created_link(action_at(None, history, j)) is None,
        j < i ==> joined_link(action_at(None, history, j)) is None,
        joined_link(action_at(None, history, j)) matches Some(link) ==> Some(link) == created_link(
            action_at(None, history, i),
        ),
{
    let before_i = slot_after(None, history.subrange(0, i));
    let before_j = slot_after(None, history.subrange(0, j));
    lemma_creation(before_i, history[i].0, history[i].1);
    lemma_creation(before_j, history[j].0, history[j].1);
    let upto = history.subrange(0, i + 1);
    assert(upto.drop_last() =~= history.subrange(0, i));
    assert(upto.last() == history[i]);
    if i < j {
        lemma_slot_stays(None, history, i + 1, j);
        lemma_occupied_step(before_j, history[j].0, history[j].1);
    } else {
        if before_j is Some {
            lemma_slot_stays(None, history, j, i);
        }
        if created_link(action_at(None, history, j)) is Some {
            let through = history.subrange(0, j + 1);
            assert(through.drop_last() =~= history.subrange(0, j));
            assert(through.last() == history[j]);
            lemma_slot_stays(None, history, j + 1, i);
        }
    }
}

/// A vote neither fills nor empties the slot, and leaves the active incident
/// under its message and link.
pub proof fn lemma_vote_keeps_the_slot(
    slot: Option<IncidentView>,
    incident_ref: u64,
    level: UserLevel,
    reporter: u64,
    vote: StatusVote,
)
    ensures
        vote_step(slot, incident_ref, level, reporter, vote).0 is Some <==> slot is Some,
        slot is Some ==> vote_step(slot, incident_ref, level, reporter, vote).0->0.message_id
            == slot->0.message_id,
        slot is Some ==> vote_step(slot, incident_ref, level, reporter, vote).0->0.message_url
            == slot->0.message_url,
{
}

/// A pressed button neither fills nor empties the slot, and leaves the active
/// incident under its message and link.
pub proof fn lemma_button_keeps_the_slot(
    slot: Option<IncidentView>,
    custom_id: Seq<char>,
    message_id: u64,
    member: Option<Member>,
)
    ensures
        button_step(slot, custom_id, message_id, member).0 is Some <==> slot is Some,
        slot is Some ==> button_step(slot, custom_id, message_id, member).0->0.message_id
            == slot->0.message_id,
        slot is Some ==> button_step(slot, custom_id, message_id, member).0->0.message_url
            == slot->0.message_url,
{
}

/// A blocked reporter changes nothing, whatever the event.
pub proof fn lemma_blocked_changes_nothing(slot: Option<IncidentView>, event: CommandEvent, now: u64)
    requires
        match event {
            CommandEvent::MemberResolved { member: Some(member) } => UserLevel::of_roles(
                member.roles@,
            ) == UserLevel::Blocked,
            CommandEvent::IncidentPosted { level, .. } => level == UserLevel::Blocked,
            _ => false,
        },
    ensures
        command_step(slot, event, now).0 == slot,
        created_link(command_step(slot, event, now).1) is None,
        joined_link(command_step(slot, event, now).1) is None,
{
}

} // verus!
