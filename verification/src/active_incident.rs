//! The single active incident and the votes folded into it.

use crate::roster::{enlist, enlist_all, enlisted, is_duplicate_free};
use crate::status_vote::{score_of, vote_score, StatusVote};
use crate::tally::{
    has_valid_score, lemma_total_by_list, lemma_total_empty, lemma_total_insert, recorded_score,
    total_of_listed, votes_total,
};
use crate::text::{
    active_message, active_text, announcement, announcement_text, blocked_message, blocked_text,
    created_message, created_text, overtaken_message, overtaken_text, same_text,
};
use crate::user_level::{Member, UserLevel};
use crate::utils::epoch_ms;
use std::collections::HashMap;
use vstd::prelude::*;

verus! {

broadcast use vstd::std_specs::hash::group_hash_axioms;

/// Where an incident stands on its way from first report to resolution.
#[derive(Clone, Copy, PartialEq, Eq, Structural, Debug)]
pub enum IncidentStatus {
    WaitingForInput,
    SendingAlert,
    AlertSent,
    AlertAcknowledged,
    Resolved,
}

impl IncidentStatus {
    /// The status as shown to readers of the incident message.
    pub open spec fn text(self) -> Seq<char> {
        match self {
            IncidentStatus::WaitingForInput => "Waiting for more reports"@,
            IncidentStatus::SendingAlert => "Sending Pager Duty Alert (might be waking someone up)"@,
            IncidentStatus::AlertSent => "Alert has been sent"@,
            IncidentStatus::AlertAcknowledged => "We've seen the alert"@,
            IncidentStatus::Resolved => "Issue marked as resolved"@,
        }
    }

    /// The status an incident starts in: a trusted reporter's word pages at once.
    pub open spec fn initial(level: UserLevel) -> IncidentStatus {
        if level == UserLevel::Trusted {
            IncidentStatus::SendingAlert
        } else {
            IncidentStatus::WaitingForInput
        }
    }

    /// Renders the status for display.
    pub fn to_string(&self) -> (text: String)
        ensures
            text@ == self.text(),
    {
        match self {
            IncidentStatus::WaitingForInput => "Waiting for more reports".to_owned(),
            IncidentStatus::SendingAlert => {
                "Sending Pager Duty Alert (might be waking someone up)".to_owned()
            },
            IncidentStatus::AlertSent => "Alert has been sent".to_owned(),
            IncidentStatus::AlertAcknowledged => "We've seen the alert".to_owned(),
            IncidentStatus::Resolved => "Issue marked as resolved".to_owned(),
        }
    }

    /// Picks the status of a freshly created incident from its creator's tier.
    pub fn for_creator(level: UserLevel) -> (status: IncidentStatus)
        ensures
            status == IncidentStatus::initial(level),
    {
        if level == UserLevel::Trusted {
            IncidentStatus::SendingAlert
        } else {
            IncidentStatus::WaitingForInput
        }
    }
}

/// The mathematical content of an incident.
pub struct IncidentView {
    pub message_id: u64,
    pub message_url: Seq<char>,
    pub initial_user: u64,
    pub status: IncidentStatus,
    pub last_message_update: u64,
    pub linked_users: Seq<u64>,
    pub patron_users: Seq<u64>,
    pub trusted_users: Seq<u64>,
    pub plain_users: Seq<u64>,
    pub total_vote_score: int,
    pub votes: Map<u64, i64>,
    pub counts: Seq<u64>,
}

impl IncidentView {
    /// An incident as it is before anyone has voted on it.
    pub open spec fn fresh(
        message_id: u64,
        message_url: Seq<char>,
        initial_user: u64,
        status: IncidentStatus,
        now: u64,
    ) -> IncidentView {
        IncidentView {
            message_id,
            message_url,
            initial_user,
            status,
            last_message_update: now,
            linked_users: Seq::empty(),
            patron_users: Seq::empty(),
            trusted_users: Seq::empty(),
            plain_users: Seq::empty(),
            total_vote_score: 0,
            votes: Map::empty(),
            counts: seq![0u64, 0u64, 0u64, 0u64],
        }
    }

    /// An incident as its creator leaves it: fresh, with the creator's alarm counted.
    pub open spec fn created(
        message_id: u64,
        message_url: Seq<char>,
        creator: u64,
        level: UserLevel,
        now: u64,
    ) -> IncidentView {
        IncidentView::fresh(
            message_id,
            message_url,
            creator,
            IncidentStatus::initial(level),
            now,
        ).apply_vote(level, creator, StatusVote::EverythingBroken)
    }

    /// The membership list that reporters of tier `level` are kept in.
    /// Blocked reporters share the list of linked ones.
    pub open spec fn bucket(self, level: UserLevel) -> Seq<u64> {
        match level {
            UserLevel::Plain => self.plain_users,
            UserLevel::Blocked | UserLevel::Linked => self.linked_users,
            UserLevel::Patron => self.patron_users,
            UserLevel::Trusted => self.trusted_users,
        }
    }

    /// Whether `reporter` is in any membership list.
    pub open spec fn is_member(self, reporter: u64) -> bool {
        ||| self.plain_users.contains(reporter)
        ||| self.linked_users.contains(reporter)
        ||| self.patron_users.contains(reporter)
        ||| self.trusted_users.contains(reporter)
    }

    /// The incident after `reporter`, resolved to tier `level`, casts `vote`.
    ///
    /// The new score replaces whatever the reporter contributed before, and the
    /// reporter joins the tier's membership list unless already in it.
    pub open spec fn apply_vote(
        self,
        level: UserLevel,
        reporter: u64,
        vote: StatusVote,
    ) -> IncidentView {
        let score = vote_score(level, vote);
        IncidentView {
            total_vote_score: self.total_vote_score - recorded_score(self.votes, reporter) + score,
            votes: self.votes.insert(reporter, score as i64),
            plain_users: if level == UserLevel::Plain {
                enlisted(self.plain_users, reporter)
            } else {
                self.plain_users
            },
            linked_users: if level == UserLevel::Blocked || level == UserLevel::Linked {
                enlisted(self.linked_users, reporter)
            } else {
                self.linked_users
            },
            patron_users: if level == UserLevel::Patron {
                enlisted(self.patron_users, reporter)
            } else {
                self.patron_users
            },
            trusted_users: if level == UserLevel::Trusted {
                enlisted(self.trusted_users, reporter)
            } else {
                self.trusted_users
            },
            ..self
        }
    }

    /// Whether the total after the vote still fits the 64-bit running total.
    pub open spec fn fits(self, level: UserLevel, reporter: u64, vote: StatusVote) -> bool {
        i64::MIN <= self.apply_vote(level, reporter, vote).total_vote_score <= i64::MAX
    }

    /// The invariant of an incident.
    pub open spec fn wf(self) -> bool {
        &&& self.votes.dom().finite()
        &&& self.total_vote_score == votes_total(self.votes)
        &&& forall|reporter: u64| #[trigger]
            self.votes.contains_key(reporter) ==> -200 <= self.votes[reporter] <= 600
        &&& forall|reporter: u64| #[trigger]
            self.votes.contains_key(reporter) <==> self.is_member(reporter)
        &&& self.plain_users.no_duplicates()
        &&& self.linked_users.no_duplicates()
        &&& self.patron_users.no_duplicates()
        &&& self.trusted_users.no_duplicates()
        &&& self.counts.len() == 4
    }
}

/// The active incident: the message that announces it, who raised it, and the
/// votes cast on it so far.
pub struct ActiveIncident {
    message_id: u64,
    message_url: String,
    initial_user: u64,
    status: IncidentStatus,
    last_message_update: u64,
    linked_users: Vec<u64>,
    patron_users: Vec<u64>,
    trusted_users: Vec<u64>,
    plain_users: Vec<u64>,
    total_vote_score: i64,
    votes: HashMap<u64, i64>,
    counts: [u64; 4],
}

impl View for ActiveIncident {
    type V = IncidentView;

    closed spec fn view(&self) -> IncidentView {
        IncidentView {
            message_id: self.message_id,
            message_url: self.message_url@,
            initial_user: self.initial_user,
            status: self.status,
            last_message_update: self.last_message_update,
            linked_users: self.linked_users@,
            patron_users: self.patron_users@,
            trusted_users: self.trusted_users@,
            plain_users: self.plain_users@,
            total_vote_score: self.total_vote_score as int,
            votes: self.votes@,
            counts: self.counts@,
        }
    }
}

/// An incident taken apart into plain values, as it is kept in storage.
#[derive(Clone, Debug, PartialEq, Eq)]
pub struct IncidentRecord {
    pub message_id: u64,
    pub message_url: String,
    pub initial_user: u64,
    pub status: IncidentStatus,
    pub last_message_update: u64,
    pub linked_users: Vec<u64>,
    pub patron_users: Vec<u64>,
    pub trusted_users: Vec<u64>,
    pub plain_users: Vec<u64>,
    pub total_vote_score: i64,
    pub votes: HashMap<u64, i64>,
    pub counts: [u64; 4],
}

impl View for IncidentRecord {
    type V = IncidentView;

    open spec fn view(&self) -> IncidentView {
        IncidentView {
            message_id: self.message_id,
            message_url: self.message_url@,
            initial_user: self.initial_user,
            status: self.status,
            last_message_update: self.last_message_update,
            linked_users: self.linked_users@,
            patron_users: self.patron_users@,
            trusted_users: self.trusted_users@,
            plain_users: self.plain_users@,
            total_vote_score: self.total_vote_score as int,
            votes: self.votes@,
            counts: self.counts@,
        }
    }
}

impl ActiveIncident {
    /// The invariant that every incident handed out by this module satisfies.
    pub open spec fn wf(&self) -> bool {
        self@.wf()
    }

    /// Opens an incident announced by the message `message_id` at `message_url`,
    /// raised by `creator` of tier `level` at time `now`, with the creator's
    /// alarm already counted.
    pub fn new(
        message_id: u64,
        message_url: String,
        creator: u64,
        level: UserLevel,
        now: u64,
    ) -> (incident: Self)
        ensures
            incident.wf(),
            incident@ == IncidentView::created(message_id, message_url@, creator, level, now),
    {
        let mut incident = ActiveIncident {
            message_id,
            message_url,
            initial_user: creator,
            status: IncidentStatus::for_creator(level),
            last_message_update: now,
            linked_users: Vec::new(),
            patron_users: Vec::new(),
            trusted_users: Vec::new(),
            plain_users: Vec::new(),
            total_vote_score: 0,
            votes: HashMap::new(),
            counts: [0, 0, 0, 0],
        };
        proof {
            lemma_total_empty();
            assert(incident.counts@ =~= seq![0u64, 0u64, 0u64, 0u64]);
            assert(incident@ == IncidentView::fresh(
                message_id,
                incident.message_url@,
                creator,
                IncidentStatus::initial(level),
                now,
            ));
        }
        incident.add_user(level, creator, StatusVote::EverythingBroken);
        incident
    }

    /// Counts `vote` from `user_id`, resolved to tier `level`.
    ///
    /// The vote replaces any earlier vote of the same reporter. Returns whether
    /// the reporter is new to the membership list of the tier.
    ///
    /// The new total has to fit its 64 bits. `has_room_for` tests that, and it
    /// holds of every incident with fewer voters than `laws::voters_with_room`.
    pub fn add_user(&mut self, level: UserLevel, user_id: u64, vote: StatusVote) -> (first_time: bool)
        requires
            old(self).wf(),
            old(self)@.fits(level, user_id, vote),
        ensures
            final(self).wf(),
            final(self)@ == old(self)@.apply_vote(level, user_id, vote),
            first_time == !old(self)@.bucket(level).contains(user_id),
            final(self)@.total_vote_score == vote_score(level, vote) + votes_total(
                old(self)@.votes.remove(user_id),
            ),
    {
        let score: i64 = score_of(level, vote);
        proof {
            lemma_total_insert(self.votes@, user_id, score);
        }
        let previous: Option<i64> = self.votes.insert(user_id, score);
        let existing: i64 = match previous {
            Some(earlier) => earlier,
            None => 0,
        };
        let total: i128 = self.total_vote_score as i128 - existing as i128 + score as i128;
        self.total_vote_score = total as i64;
        let first_time: bool = match level {
            UserLevel::Plain => enlist(&mut self.plain_users, user_id),
            UserLevel::Blocked | UserLevel::Linked => enlist(&mut self.linked_users, user_id),
            UserLevel::Patron => enlist(&mut self.patron_users, user_id),
            UserLevel::Trusted => enlist(&mut self.trusted_users, user_id),
        };
        proof {
            assert(self@.is_member(user_id));
            assert(self@ == old(self)@.apply_vote(level, user_id, vote));
        }
        first_time
    }

    /// The message that announces the incident.
    pub fn message_id(&self) -> (id: u64)
        ensures
            id == self@.message_id,
    {
        self.message_id
    }

    /// The link to the message that announces the incident.
    pub fn message_url(&self) -> (url: &str)
        ensures
            url@ == self@.message_url,
    {
        self.message_url.as_str()
    }

    /// Who raised the incident.
    pub fn initial_user(&self) -> (reporter: u64)
        ensures
            reporter == self@.initial_user,
    {
        self.initial_user
    }

    /// Where the incident stands.
    pub fn status(&self) -> (status: IncidentStatus)
        ensures
            status == self@.status,
    {
        self.status
    }

    /// When the incident was created, in milliseconds since the epoch.
    pub fn last_message_update(&self) -> (stamp: u64)
        ensures
            stamp == self@.last_message_update,
    {
        self.last_message_update
    }

    /// The sum of the latest scores of all reporters.
    pub fn total_vote_score(&self) -> (total: i64)
        ensures
            total == self@.total_vote_score,
    {
        self.total_vote_score
    }

    /// The score that `user_id` last cast, if any.
    pub fn vote_of(&self, user_id: u64) -> (score: Option<i64>)
        ensures
            score is Some <==> self@.votes.contains_key(user_id),
            score matches Some(cast) ==> self@.votes[user_id] == cast,
    {
        match self.votes.get(&user_id) {
            Some(cast) => Some(*cast),
            None => None,
        }
    }

    /// How many reporters have a vote recorded.
    pub fn voters(&self) -> (count: usize)
        ensures
            count == self@.votes.len(),
    {
        self.votes.len()
    }

    /// The reporters kept in the membership list of tier `level`, in the order
    /// in which they first voted from that tier.
    pub fn members(&self, level: UserLevel) -> (users: &Vec<u64>)
        ensures
            users@ == self@.bucket(level),
    {
        match level {
            UserLevel::Plain => &self.plain_users,
            UserLevel::Blocked | UserLevel::Linked => &self.linked_users,
            UserLevel::Patron => &self.patron_users,
            UserLevel::Trusted => &self.trusted_users,
        }
    }

    /// The four counters kept beside the votes. Nothing changes them.
    pub fn counts(&self) -> (counts: &[u64; 4])
        ensures
            counts@ == self@.counts,
    {
        &self.counts
    }

    /// Takes a copy of the incident apart, for storage.
    pub fn to_record(&self) -> (record: IncidentRecord)
        ensures
            record@ == self@,
    {
        let record = IncidentRecord {
            message_id: self.message_id,
            message_url: self.message_url.clone(),
            initial_user: self.initial_user,
            status: self.status,
            last_message_update: self.last_message_update,
            linked_users: self.linked_users.clone(),
            patron_users: self.patron_users.clone(),
            trusted_users: self.trusted_users.clone(),
            plain_users: self.plain_users.clone(),
            total_vote_score: self.total_vote_score,
            votes: self.votes.clone(),
            counts: self.counts,
        };
        proof {
            assert(record.linked_users@ =~= self.linked_users@);
            assert(record.patron_users@ =~= self.patron_users@);
            assert(record.trusted_users@ =~= self.trusted_users@);
            assert(record.plain_users@ =~= self.plain_users@);
        }
        record
    }

    /// Puts an incident together from what storage held. A record that does not
    /// describe a well-formed incident is refused.
    pub fn from_record(record: IncidentRecord) -> (incident: Option<Self>)
        ensures
            incident is Some <==> record@.wf(),
            incident matches Some(restored) ==> restored@ == record@,
    {
        if !is_duplicate_free(&record.plain_users) || !is_duplicate_free(&record.linked_users)
            || !is_duplicate_free(&record.patron_users) || !is_duplicate_free(
            &record.trusted_users,
        ) {
            return None;
        }
        let mut voters: Vec<u64> = Vec::new();
        let ghost none = voters@;
        enlist_all(&mut voters, &record.plain_users);
        let ghost plain = voters@;
        enlist_all(&mut voters, &record.linked_users);
        let ghost linked = voters@;
        enlist_all(&mut voters, &record.patron_users);
        let ghost patron = voters@;
        enlist_all(&mut voters, &record.trusted_users);
        assert forall|id: u64| voters@.contains(id) <==> record@.is_member(id) by {
            assert(!none.contains(id));
            assert(linked.contains(id) <==> plain.contains(id) || record.linked_users@.contains(id));
            assert(patron.contains(id) <==> linked.contains(id) || record.patron_users@.contains(id));
        }
        let sum: i128 = match total_of_listed(&record.votes, &voters) {
            Some(sum) => sum,
            None => {
                proof {
                    let i = choose|i: int|
                        0 <= i < voters@.len() && !has_valid_score(record.votes@, voters@[i]);
                    assert(voters@.contains(voters@[i]));
                    assert(record@.is_member(voters@[i]));
                }
                return None;
            },
        };
        proof {
            voters@.unique_seq_to_set();
            assert forall|id: u64| voters@.contains(id) implies record.votes@.contains_key(id) by {
                let i = choose|i: int| 0 <= i < voters@.len() && voters@[i] == id;
                assert(has_valid_score(record.votes@, voters@[i]));
            }
        }
        if record.votes.len() != voters.len() {
            proof {
                if record@.wf() {
                    assert(voters@.to_set() =~= record.votes@.dom()) by {
                        assert forall|id: u64|
                            voters@.to_set().contains(id) <==> record.votes@.dom().contains(id) by {
                            assert(record.votes@.contains_key(id) <==> record@.is_member(id));
                        }
                    }
                }
            }
            return None;
        }
        proof {
            assert(voters@.to_set().subset_of(record.votes@.dom()));
            vstd::set_lib::lemma_len_subset(voters@.to_set(), record.votes@.dom());
            vstd::set_lib::lemma_subset_equality(voters@.to_set(), record.votes@.dom());
            assert forall|id: u64| voters@.contains(id) <==> record.votes@.contains_key(id) by {
                assert(voters@.to_set().contains(id) <==> record.votes@.dom().contains(id));
            }
            lemma_total_by_list(record.votes@, voters@);
            assert forall|id: u64| #[trigger]
                record.votes@.contains_key(id) implies -200 <= record.votes@[id] <= 600 by {
                let i = choose|i: int| 0 <= i < voters@.len() && voters@[i] == id;
                assert(has_valid_score(record.votes@, voters@[i]));
            }
        }
        if sum != record.total_vote_score as i128 {
            return None;
        }
        let incident = ActiveIncident {
            message_id: record.message_id,
            message_url: record.message_url,
            initial_user: record.initial_user,
            status: record.status,
            last_message_update: record.last_message_update,
            linked_users: record.linked_users,
            patron_users: record.patron_users,
            trusted_users: record.trusted_users,
            plain_users: record.plain_users,
            total_vote_score: record.total_vote_score,
            votes: record.votes,
            counts: record.counts,
        };
        Some(incident)
    }

    /// Whether the total after `vote` from `user_id` still fits the running total.
    pub fn has_room_for(&self, level: UserLevel, user_id: u64, vote: StatusVote) -> (fits: bool)
        requires
            self.wf(),
        ensures
            fits == self@.fits(level, user_id, vote),
    {
        let score: i64 = score_of(level, vote);
        let existing: i64 = match self.votes.get(&user_id) {
            Some(earlier) => *earlier,
            None => 0,
        };
        let total: i128 = self.total_vote_score as i128 - existing as i128 + score as i128;
        -9223372036854775808i128 <= total && total <= 9223372036854775807i128
    }
}

/// The message with which an incident was announced, as the chat platform returned it.
#[derive(Clone, Debug, PartialEq, Eq)]
pub struct PostedMessage {
    pub id: u64,
    pub url: String,
}

/// What became of a report.
#[derive(Clone, Debug, PartialEq, Eq)]
pub enum ReportOutcome {
    /// The reporter may not report; nothing changed.
    Blocked,
    /// An incident was already active at this link; the report was counted on it.
    JoinedExisting(String),
    /// The report created the incident at this link.
    Created(String),
}

/// The mathematical content of a `ReportOutcome`.
pub enum OutcomeView {
    Blocked,
    JoinedExisting(Seq<char>),
    Created(Seq<char>),
}

impl OutcomeView {
    /// What the reporter is told about this outcome.
    pub open spec fn message(self) -> Seq<char> {
        match self {
            OutcomeView::Blocked => blocked_text(),
            OutcomeView::JoinedExisting(link) => active_text(link),
            OutcomeView::Created(link) => created_text(link),
        }
    }
}

impl View for ReportOutcome {
    type V = OutcomeView;

    open spec fn view(&self) -> OutcomeView {
        match self {
            ReportOutcome::Blocked => OutcomeView::Blocked,
            ReportOutcome::JoinedExisting(link) => OutcomeView::JoinedExisting(link@),
            ReportOutcome::Created(link) => OutcomeView::Created(link@),
        }
    }
}

impl ReportOutcome {
    /// Words the outcome for the reporter.
    pub fn message(&self) -> (text: String)
        ensures
            text@ == self@.message(),
    {
        match self {
            ReportOutcome::Blocked => blocked_message(),
            ReportOutcome::JoinedExisting(link) => active_message(link.as_str()),
            ReportOutcome::Created(link) => created_message(link.as_str()),
        }
    }
}

/// What happened outside since the handler last had its say on a command.
#[derive(Clone, Debug, PartialEq, Eq)]
pub enum CommandEvent {
    /// A command called `name` was invoked.
    Invoked { name: String },
    /// The guild was asked for the invoking member; `None` if it did not answer.
    MemberResolved { member: Option<Member> },
    /// The announcement for `user_id` was sent; `None` if sending failed.
    IncidentPosted { user_id: u64, level: UserLevel, posted: Option<PostedMessage> },
}

/// What the caller is to do next for a command.
#[derive(Clone, Debug, PartialEq, Eq)]
pub enum CommandAction {
    /// The command is not one of ours.
    NotHandled,
    /// Nothing is left to do.
    Handled,
    /// Ask the guild for the invoking member and come back with `MemberResolved`.
    ResolveMember,
    /// Tell the reporter the outcome; nothing is left to do after that.
    Respond { outcome: ReportOutcome },
    /// Announce the incident with `content` and the vote buttons, open its
    /// discussion thread, and come back with `IncidentPosted`.
    PostIncident { user_id: u64, level: UserLevel, content: String },
    /// Take the announcement `message_id` back and tell the reporter the outcome.
    Discard { message_id: u64, outcome: ReportOutcome },
}

/// The mathematical content of a `CommandAction`.
pub enum ActionView {
    NotHandled,
    Handled,
    ResolveMember,
    Respond { outcome: OutcomeView },
    PostIncident { user_id: u64, level: UserLevel, content: Seq<char> },
    Discard { message_id: u64, outcome: OutcomeView },
}

impl ActionView {
    /// What the reporter is told when the action is carried out, if anything.
    pub open spec fn response(self) -> Option<Seq<char>> {
        match self {
            ActionView::Respond { outcome } => Some(outcome.message()),
            ActionView::Discard { outcome: OutcomeView::JoinedExisting(link), .. } => Some(
                overtaken_text(link),
            ),
            ActionView::Discard { outcome, .. } => Some(outcome.message()),
            _ => None,
        }
    }
}

impl View for CommandAction {
    type V = ActionView;

    open spec fn view(&self) -> ActionView {
        match self {
            CommandAction::NotHandled => ActionView::NotHandled,
            CommandAction::Handled => ActionView::Handled,
            CommandAction::ResolveMember => ActionView::ResolveMember,
            CommandAction::Respond { outcome } => ActionView::Respond { outcome: outcome@ },
            CommandAction::PostIncident { user_id, level, content } => ActionView::PostIncident {
                user_id: *user_id,
                level: *level,
                content: content@,
            },
            CommandAction::Discard { message_id, outcome } => ActionView::Discard {
                message_id: *message_id,
                outcome: outcome@,
            },
        }
    }
}

impl CommandAction {
    /// Words what the reporter is told when the action is carried out, if anything.
    pub fn response(&self) -> (text: Option<String>)
        ensures
            text is Some <==> self@.response() is Some,
            text matches Some(worded) ==> self@.response() == Some(worded@),
    {
        match self {
            CommandAction::Respond { outcome } => Some(outcome.message()),
            CommandAction::Discard { outcome, .. } => match outcome {
                ReportOutcome::JoinedExisting(link) => Some(overtaken_message(link.as_str())),
                _ => Some(outcome.message()),
            },
            _ => None,
        }
    }
}

/// What the caller is to do about a pressed button.
#[derive(Clone, Copy, PartialEq, Eq, Structural, Debug)]
pub enum ButtonAction {
    /// The button is not one of ours.
    NotHandled,
    /// The button hangs under a message that announces no active incident:
    /// acknowledge the press and strip the buttons from that message.
    Stale,
    /// The press came without a member: acknowledge it and do nothing.
    MissingMember,
    /// The vote was counted: acknowledge the press.
    Counted { first_time: bool },
}

/// The name of the command by which downtime is reported.
pub const COMMAND_NAME: &'static str = "report-downtime";

/// What the command says of itself in the list of commands.
pub const COMMAND_DESCRIPTION: &'static str =
    "Report downtime on playit.gg. Make sure you're not the only one having issues before reporting!";

/// The title of the discussion thread that is opened under an announcement.
pub const THREAD_TITLE: &'static str = "downtime reported";

/// A command as it is registered with the guild.
#[derive(Clone, Debug, PartialEq, Eq)]
pub struct CommandEntry {
    pub name: String,
    pub description: String,
}

/// Whether the slot can count `vote` without its running total leaving 64 bits.
pub open spec fn slot_fits(
    slot: Option<IncidentView>,
    level: UserLevel,
    reporter: u64,
    vote: StatusVote,
) -> bool {
    slot matches Some(incident) ==> incident.fits(level, reporter, vote)
}

/// A report by `reporter` of tier `level`, judged against the slot.
///
/// A blocked reporter is turned away. While an incident is active the report is
/// counted on it as the strongest alarm. Otherwise the slot stays empty and the
/// reporter's announcement is to be posted.
pub open spec fn report_step(slot: Option<IncidentView>, level: UserLevel, reporter: u64) -> (
    Option<IncidentView>,
    ActionView,
) {
    if level == UserLevel::Blocked {
        (slot, ActionView::Respond { outcome: OutcomeView::Blocked })
    } else {
        match slot {
            Some(incident) => (
                Some(incident.apply_vote(level, reporter, StatusVote::EverythingBroken)),
                ActionView::Respond { outcome: OutcomeView::JoinedExisting(incident.message_url) },
            ),
            None => (
                slot,
                ActionView::PostIncident {
                    user_id: reporter,
                    level,
                    content: announcement_text(reporter, IncidentStatus::initial(level)),
                },
            ),
        }
    }
}

/// The announcement `posted` for `reporter`, judged against the slot at time `now`.
///
/// Into an empty slot goes the incident that the announcement opens. If another
/// incident got there first, the report is counted on that one and the
/// announcement is to be taken back.
pub open spec fn install_step(
    slot: Option<IncidentView>,
    level: UserLevel,
    reporter: u64,
    posted: PostedMessage,
    now: u64,
) -> (Option<IncidentView>, ActionView) {
    if level == UserLevel::Blocked {
        (slot, ActionView::Discard { message_id: posted.id, outcome: OutcomeView::Blocked })
    } else {
        match slot {
            Some(incident) => (
                Some(incident.apply_vote(level, reporter, StatusVote::EverythingBroken)),
                ActionView::Discard {
                    message_id: posted.id,
                    outcome: OutcomeView::JoinedExisting(incident.message_url),
                },
            ),
            None => (
                Some(IncidentView::created(posted.id, posted.url@, reporter, level, now)),
                ActionView::Respond { outcome: OutcomeView::Created(posted.url@) },
            ),
        }
    }
}

/// The slot and the next action after `event`, which the handler learns of at time `now`.
pub open spec fn command_step(slot: Option<IncidentView>, event: CommandEvent, now: u64) -> (
    Option<IncidentView>,
    ActionView,
) {
    match event {
        CommandEvent::Invoked { name } => if name@ == COMMAND_NAME@ {
            (slot, ActionView::ResolveMember)
        } else {
            (slot, ActionView::NotHandled)
        },
        CommandEvent::MemberResolved { member: None } => (slot, ActionView::Handled),
        CommandEvent::MemberResolved { member: Some(member) } => report_step(
            slot,
            UserLevel::of_roles(member.roles@),
            member.user_id,
        ),
        CommandEvent::IncidentPosted { posted: None, .. } => (slot, ActionView::Handled),
        CommandEvent::IncidentPosted { user_id, level, posted: Some(posted) } => install_step(
            slot,
            level,
            user_id,
            posted,
            now,
        ),
    }
}

/// Whether the slot can take `event` without its running total leaving 64 bits.
pub open spec fn command_fits(slot: Option<IncidentView>, event: CommandEvent) -> bool {
    match event {
        CommandEvent::MemberResolved { member: Some(member) } => {
            let level = UserLevel::of_roles(member.roles@);
            level != UserLevel::Blocked ==> slot_fits(
                slot,
                level,
                member.user_id,
                StatusVote::EverythingBroken,
            )
        },
        CommandEvent::IncidentPosted { user_id, level, posted: Some(_) } => {
            level != UserLevel::Blocked ==> slot_fits(
                slot,
                level,
                user_id,
                StatusVote::EverythingBroken,
            )
        },
        _ => true,
    }
}

/// A vote on the incident announced by `incident_ref`, judged against the slot.
/// It counts only if that incident is the active one.
pub open spec fn vote_step(
    slot: Option<IncidentView>,
    incident_ref: u64,
    level: UserLevel,
    reporter: u64,
    vote: StatusVote,
) -> (Option<IncidentView>, bool) {
    match slot {
        Some(incident) => if incident.message_id == incident_ref {
            (Some(incident.apply_vote(level, reporter, vote)), true)
        } else {
            (slot, false)
        },
        None => (slot, false),
    }
}

/// Whether a vote on `incident_ref` would be counted and fits the running total.
pub open spec fn vote_fits(
    slot: Option<IncidentView>,
    incident_ref: u64,
    level: UserLevel,
    reporter: u64,
    vote: StatusVote,
) -> bool {
    slot matches Some(incident) ==> incident.message_id == incident_ref ==> incident.fits(
        level,
        reporter,
        vote,
    )
}

/// The slot and the action after the button `custom_id` under the message
/// `message_id` was pressed by `member`.
pub open spec fn button_step(
    slot: Option<IncidentView>,
    custom_id: Seq<char>,
    message_id: u64,
    member: Option<Member>,
) -> (Option<IncidentView>, ButtonAction) {
    match StatusVote::of_custom_id(custom_id) {
        None => (slot, ButtonAction::NotHandled),
        Some(vote) => if !(slot matches Some(incident) && incident.message_id == message_id) {
            (slot, ButtonAction::Stale)
        } else {
            match member {
                None => (slot, ButtonAction::MissingMember),
                Some(member) => {
                    let level = UserLevel::of_roles(member.roles@);
                    (
                        vote_step(slot, message_id, level, member.user_id, vote).0,
                        ButtonAction::Counted {
                            first_time: !slot->0.bucket(level).contains(member.user_id),
                        },
                    )
                },
            }
        },
    }
}

/// The member who pressed a button, if the press came with one.
pub open spec fn presser(member: Option<&Member>) -> Option<Member> {
    match member {
        Some(member) => Some(*member),
        None => None,
    }
}

/// Whether the slot can take the button press without its running total leaving 64 bits.
pub open spec fn button_fits(
    slot: Option<IncidentView>,
    custom_id: Seq<char>,
    message_id: u64,
    member: Option<Member>,
) -> bool {
    match (StatusVote::of_custom_id(custom_id), member) {
        (Some(vote), Some(member)) => vote_fits(
            slot,
            message_id,
            UserLevel::of_roles(member.roles@),
            member.user_id,
            vote,
        ),
        _ => true,
    }
}

/// Keeper of the one slot that holds the active incident, if there is one.
pub struct ActiveIncidentHandler {
    active: Option<ActiveIncident>,
}

impl View for ActiveIncidentHandler {
    type V = Option<IncidentView>;

    closed spec fn view(&self) -> Option<IncidentView> {
        match self.active {
            Some(incident) => Some(incident@),
            None => None,
        }
    }
}

impl Default for ActiveIncidentHandler {
    fn default() -> (handler: Self)
        ensures
            handler.wf(),
            handler@ is None,
    {
        ActiveIncidentHandler { active: None }
    }
}

impl ActiveIncidentHandler {
    /// The invariant of the handler: the incident in the slot, if any, is well formed.
    pub open spec fn wf(&self) -> bool {
        self@ matches Some(incident) ==> incident.wf()
    }

    /// The commands that the handler answers to.
    pub fn get_commands(&self) -> (commands: Vec<CommandEntry>)
        ensures
            commands@.len() == 1,
            commands@[0].name@ == COMMAND_NAME@,
            commands@[0].description@ == COMMAND_DESCRIPTION@,
    {
        let mut commands: Vec<CommandEntry> = Vec::new();
        commands.push(
            CommandEntry { name: COMMAND_NAME.to_owned(), description: COMMAND_DESCRIPTION.to_owned() },
        );
        commands
    }

    /// Takes a copy of the slot apart, for storage.
    pub fn to_record(&self) -> (record: Option<IncidentRecord>)
        ensures
            record is Some <==> self@ is Some,
            record matches Some(stored) ==> self@ == Some(stored@),
    {
        match &self.active {
            Some(incident) => Some(incident.to_record()),
            None => None,
        }
    }

    /// Puts the handler together from what storage held of the slot. A record
    /// that does not describe a well-formed incident is refused.
    pub fn from_record(record: Option<IncidentRecord>) -> (handler: Option<Self>)
        ensures
            handler is Some <==> (record matches Some(stored) ==> stored@.wf()),
            handler matches Some(restored) ==> restored.wf(),
            handler matches Some(restored) ==> (restored@ is Some <==> record is Some),
            handler matches Some(restored) ==> record matches Some(stored) ==> restored@ == Some(
                stored@,
            ),
    {
        match record {
            Some(stored) => match ActiveIncident::from_record(stored) {
                Some(incident) => Some(ActiveIncidentHandler { active: Some(incident) }),
                None => None,
            },
            None => Some(ActiveIncidentHandler { active: None }),
        }
    }

    /// The active incident, if there is one.
    pub fn active(&self) -> (incident: Option<&ActiveIncident>)
        ensures
            incident is Some <==> self@ is Some,
            incident matches Some(found) ==> self@ == Some(found@),
    {
        self.active.as_ref()
    }

    /// Whether `vote` from `user_id` can be counted on the active incident, if
    /// there is one, without its running total leaving 64 bits.
    pub fn has_room_for(&self, level: UserLevel, user_id: u64, vote: StatusVote) -> (fits: bool)
        requires
            self.wf(),
        ensures
            fits == slot_fits(self@, level, user_id, vote),
    {
        match &self.active {
            Some(incident) => incident.has_room_for(level, user_id, vote),
            None => true,
        }
    }

    /// Whether `event` can be handled without the running total leaving its 64 bits.
    pub fn accepts_command(&self, event: &CommandEvent) -> (fits: bool)
        requires
            self.wf(),
        ensures
            fits == command_fits(self@, *event),
    {
        match event {
            CommandEvent::MemberResolved { member: Some(member) } => {
                let level: UserLevel = UserLevel::from_member(member);
                level == UserLevel::Blocked || self.has_room_for(
                    level,
                    member.user_id,
                    StatusVote::EverythingBroken,
                )
            },
            CommandEvent::IncidentPosted { user_id, level, posted: Some(_) } => {
                *level == UserLevel::Blocked || self.has_room_for(
                    *level,
                    *user_id,
                    StatusVote::EverythingBroken,
                )
            },
            _ => true,
        }
    }

    /// Whether a vote on `incident_ref` can be handled without the running
    /// total leaving its 64 bits.
    pub fn accepts_vote(
        &self,
        incident_ref: u64,
        level: UserLevel,
        reporter: u64,
        vote: StatusVote,
    ) -> (fits: bool)
        requires
            self.wf(),
        ensures
            fits == vote_fits(self@, incident_ref, level, reporter, vote),
    {
        match &self.active {
            Some(incident) => incident.message_id != incident_ref || incident.has_room_for(
                level,
                reporter,
                vote,
            ),
            None => true,
        }
    }

    /// Whether a press of the button `custom_id` can be handled without the
    /// running total leaving its 64 bits.
    pub fn accepts_button(
        &self,
        custom_id: &str,
        message_id: u64,
        member: Option<&Member>,
    ) -> (fits: bool)
        requires
            self.wf(),
        ensures
            fits == button_fits(
                self@,
                custom_id@,
                message_id,
                presser(member),
            ),
    {
        match (StatusVote::from_custom_id(custom_id), member) {
            (Some(vote), Some(member)) => self.accepts_vote(
                message_id,
                UserLevel::from_member(member),
                member.user_id,
                vote,
            ),
            _ => true,
        }
    }

    /// Takes a report by `reporter` of tier `level`.
    ///
    /// If the report is counted on the active incident, the new total has to
    /// fit its 64 bits; `has_room_for` tests that.
    pub fn report(&mut self, level: UserLevel, reporter: u64) -> (action: CommandAction)
        requires
            old(self).wf(),
            level != UserLevel::Blocked ==> slot_fits(
                old(self)@,
                level,
                reporter,
                StatusVote::EverythingBroken,
            ),
        ensures
            final(self).wf(),
            final(self)@ == report_step(old(self)@, level, reporter).0,
            action@ == report_step(old(self)@, level, reporter).1,
    {
        if level == UserLevel::Blocked {
            return CommandAction::Respond { outcome: ReportOutcome::Blocked };
        }
        match &mut self.active {
            Some(incident) => {
                incident.add_user(level, reporter, StatusVote::EverythingBroken);
                let link: String = incident.message_url.clone();
                CommandAction::Respond { outcome: ReportOutcome::JoinedExisting(link) }
            },
            None => CommandAction::PostIncident {
                user_id: reporter,
                level,
                content: announcement(reporter, IncidentStatus::for_creator(level)),
            },
        }
    }

    /// Takes the announcement `posted` for `reporter` of tier `level` at time `now`.
    ///
    /// If the report is counted on an incident that got there first, the new
    /// total has to fit its 64 bits; `has_room_for` tests that.
    pub fn install(
        &mut self,
        level: UserLevel,
        reporter: u64,
        posted: PostedMessage,
        now: u64,
    ) -> (action: CommandAction)
        requires
            old(self).wf(),
            level != UserLevel::Blocked ==> slot_fits(
                old(self)@,
                level,
                reporter,
                StatusVote::EverythingBroken,
            ),
        ensures
            final(self).wf(),
            final(self)@ == install_step(old(self)@, level, reporter, posted, now).0,
            action@ == install_step(old(self)@, level, reporter, posted, now).1,
    {
        if level == UserLevel::Blocked {
            return CommandAction::Discard { message_id: posted.id, outcome: ReportOutcome::Blocked };
        }
        match &mut self.active {
            Some(incident) => {
                incident.add_user(level, reporter, StatusVote::EverythingBroken);
                let link: String = incident.message_url.clone();
                CommandAction::Discard {
                    message_id: posted.id,
                    outcome: ReportOutcome::JoinedExisting(link),
                }
            },
            None => {
                let link: String = posted.url.clone();
                self.active = Some(ActiveIncident::new(posted.id, posted.url, reporter, level, now));
                CommandAction::Respond { outcome: ReportOutcome::Created(link) }
            },
        }
    }

    /// Decides what to do next for a command after `event`, learnt of at time `now`.
    ///
    /// If the event leads to a report being counted on the active incident, the
    /// new total has to fit its 64 bits; `accepts_command` tests that.
    pub fn handle_command_at(&mut self, event: CommandEvent, now: u64) -> (action: CommandAction)
        requires
            old(self).wf(),
            command_fits(old(self)@, event),
        ensures
            final(self).wf(),
            final(self)@ == command_step(old(self)@, event, now).0,
            action@ == command_step(old(self)@, event, now).1,
    {
        match event {
            CommandEvent::Invoked { name } => {
                if same_text(name.as_str(), COMMAND_NAME) {
                    CommandAction::ResolveMember
                } else {
                    CommandAction::NotHandled
                }
            },
            CommandEvent::MemberResolved { member } => match member {
                None => CommandAction::Handled,
                Some(member) => {
                    let level: UserLevel = UserLevel::from_member(&member);
                    self.report(level, member.user_id)
                },
            },
            CommandEvent::IncidentPosted { user_id, level, posted } => match posted {
                None => CommandAction::Handled,
                Some(posted) => self.install(level, user_id, posted, now),
            },
        }
    }

    /// Decides what to do next for a command after `event`. The time at which an
    /// incident is created is read from the system clock; in everything else the
    /// decision is that of `handle_command_at`, and `accepts_command` tests
    /// whether the event can be handled.
    pub fn handle_command(&mut self, event: CommandEvent) -> (action: CommandAction)
        requires
            old(self).wf(),
            command_fits(old(self)@, event),
        ensures
            final(self).wf(),
            exists|now: u64|
                final(self)@ == (#[trigger] command_step(old(self)@, event, now)).0 && action@
                    == command_step(old(self)@, event, now).1,
    {
        let creates: bool = self.active.is_none() && match &event {
            CommandEvent::IncidentPosted { posted: Some(_), .. } => true,
            _ => false,
        };
        let now: u64 = if creates {
            epoch_ms()
        } else {
            0
        };
        self.handle_command_at(event, now)
    }

    /// Counts `vote` on the incident announced by `incident_ref`, if that is the
    /// active one. Returns whether the vote applied.
    ///
    /// If the vote applies, the new total has to fit its 64 bits;
    /// `accepts_vote` tests that.
    pub fn vote(
        &mut self,
        incident_ref: u64,
        level: UserLevel,
        reporter: u64,
        vote: StatusVote,
    ) -> (applied: bool)
        requires
            old(self).wf(),
            vote_fits(old(self)@, incident_ref, level, reporter, vote),
        ensures
            final(self).wf(),
            final(self)@ == vote_step(old(self)@, incident_ref, level, reporter, vote).0,
            applied == vote_step(old(self)@, incident_ref, level, reporter, vote).1,
    {
        match &mut self.active {
            Some(incident) => {
                if incident.message_id == incident_ref {
                    incident.add_user(level, reporter, vote);
                    true
                } else {
                    false
                }
            },
            None => false,
        }
    }

    /// Decides what to do about the button `custom_id` pressed by `member`
    /// under the message `message_id`.
    ///
    /// If the press is counted as a vote, the new total has to fit its 64 bits;
    /// `accepts_button` tests that.
    pub fn handle_button(
        &mut self,
        custom_id: &str,
        message_id: u64,
        member: Option<&Member>,
    ) -> (action: ButtonAction)
        requires
            old(self).wf(),
            button_fits(
                old(self)@,
                custom_id@,
                message_id,
                presser(member),
            ),
        ensures
            final(self).wf(),
            final(self)@ == button_step(
                old(self)@,
                custom_id@,
                message_id,
                presser(member),
            ).0,
            action == button_step(
                old(self)@,
                custom_id@,
                message_id,
                presser(member),
            ).1,
    {
        let vote: StatusVote = match StatusVote::from_custom_id(custom_id) {
            Some(vote) => vote,
            None => {
                return ButtonAction::NotHandled;
            },
        };
        let is_for_issue: bool = match &self.active {
            Some(incident) => incident.message_id == message_id,
            None => false,
        };
        if !is_for_issue {
            return ButtonAction::Stale;
        }
        let member: &Member = match member {
            Some(member) => member,
            None => {
                return ButtonAction::MissingMember;
            },
        };
        let level: UserLevel = UserLevel::from_member(member);
        match &mut self.active {
            Some(incident) => {
                let first_time: bool = incident.add_user(level, member.user_id, vote);
                ButtonAction::Counted { first_time }
            },
            None => ButtonAction::Stale,
        }
    }
}

} // verus!
