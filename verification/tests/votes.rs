use outage_reports::active_incident::{ActiveIncident, IncidentStatus};
use outage_reports::status_vote::{score_of, vote_buttons, StatusVote};
use outage_reports::user_level::UserLevel;

const LEVELS: [UserLevel; 5] = [
    UserLevel::Plain,
    UserLevel::Blocked,
    UserLevel::Linked,
    UserLevel::Patron,
    UserLevel::Trusted,
];

const VOTES: [StatusVote; 4] = [
    StatusVote::EverythingBroken,
    StatusVote::WebsiteNotLoading,
    StatusVote::TunnelsOffline,
    StatusVote::WorksFine,
];

fn incident_by(level: UserLevel, creator: u64) -> ActiveIncident {
    ActiveIncident::new(70, "https://chat.test/70".to_string(), creator, level, 1_000)
}

fn cast(incident: &mut ActiveIncident, level: UserLevel, reporter: u64, vote: StatusVote) -> bool {
    assert!(incident.has_room_for(level, reporter, vote));
    incident.add_user(level, reporter, vote)
}

#[test]
fn tier_weights() {
    assert_eq!(UserLevel::Blocked.score(), 0);
    assert_eq!(UserLevel::Plain.score(), 1);
    assert_eq!(UserLevel::Linked.score(), 10);
    assert_eq!(UserLevel::Patron.score(), 30);
    assert_eq!(UserLevel::Trusted.score(), 200);
}

#[test]
fn vote_factors() {
    assert_eq!(score_of(UserLevel::Linked, StatusVote::EverythingBroken), 30);
    assert_eq!(score_of(UserLevel::Linked, StatusVote::TunnelsOffline), 20);
    assert_eq!(score_of(UserLevel::Linked, StatusVote::WebsiteNotLoading), 10);
    assert_eq!(score_of(UserLevel::Linked, StatusVote::WorksFine), -10);
}

#[test]
fn every_score_is_weight_times_factor() {
    let factors: [i64; 4] = [3, 1, 2, -1];
    for level in LEVELS {
        for (vote, factor) in VOTES.iter().zip(factors) {
            assert_eq!(score_of(level, *vote), level.score() as i64 * factor);
        }
    }
    assert_eq!(score_of(UserLevel::Trusted, StatusVote::EverythingBroken), 600);
    assert_eq!(score_of(UserLevel::Trusted, StatusVote::WorksFine), -200);
    assert_eq!(score_of(UserLevel::Blocked, StatusVote::EverythingBroken), 0);
}

#[test]
fn plain_alarm_and_trusted_dissent_sum_up() {
    let mut incident = incident_by(UserLevel::Plain, 1);
    assert_eq!(incident.vote_of(1), Some(3));
    assert_eq!(incident.total_vote_score(), 3);
    assert!(cast(&mut incident, UserLevel::Trusted, 2, StatusVote::WorksFine));
    assert_eq!(incident.vote_of(2), Some(-200));
    assert_eq!(incident.total_vote_score(), -197);
}

#[test]
fn later_vote_replaces_earlier_vote() {
    let mut incident = incident_by(UserLevel::Patron, 1);
    assert_eq!(incident.total_vote_score(), 90);
    assert!(cast(&mut incident, UserLevel::Linked, 2, StatusVote::EverythingBroken));
    assert_eq!(incident.vote_of(2), Some(30));
    assert_eq!(incident.total_vote_score(), 120);
    assert!(!cast(&mut incident, UserLevel::Linked, 2, StatusVote::WorksFine));
    assert_eq!(incident.vote_of(2), Some(-10));
    assert_eq!(incident.total_vote_score(), 80);
    assert_eq!(incident.members(UserLevel::Linked), &vec![2]);
    assert_eq!(incident.voters(), 2);
}

#[test]
fn total_is_the_sum_of_the_latest_scores() {
    let mut incident = incident_by(UserLevel::Trusted, 1);
    let ballots: [(UserLevel, u64, StatusVote); 8] = [
        (UserLevel::Plain, 2, StatusVote::EverythingBroken),
        (UserLevel::Linked, 3, StatusVote::TunnelsOffline),
        (UserLevel::Plain, 2, StatusVote::WorksFine),
        (UserLevel::Patron, 4, StatusVote::WebsiteNotLoading),
        (UserLevel::Trusted, 1, StatusVote::WorksFine),
        (UserLevel::Linked, 3, StatusVote::WorksFine),
        (UserLevel::Plain, 2, StatusVote::TunnelsOffline),
        (UserLevel::Blocked, 5, StatusVote::EverythingBroken),
    ];
    for (level, reporter, vote) in ballots {
        cast(&mut incident, level, reporter, vote);
        let sum: i64 = (1..=5).filter_map(|r| incident.vote_of(r)).sum();
        assert_eq!(incident.total_vote_score(), sum);
    }
    assert_eq!(incident.vote_of(1), Some(-200));
    assert_eq!(incident.vote_of(2), Some(2));
    assert_eq!(incident.vote_of(3), Some(-10));
    assert_eq!(incident.vote_of(4), Some(30));
    assert_eq!(incident.vote_of(5), Some(0));
    assert_eq!(incident.total_vote_score(), -178);
    assert_eq!(incident.voters(), 5);
}

#[test]
fn revote_with_the_same_vote_changes_nothing() {
    let mut incident = incident_by(UserLevel::Linked, 1);
    assert!(!cast(&mut incident, UserLevel::Linked, 1, StatusVote::EverythingBroken));
    assert_eq!(incident.total_vote_score(), 30);
    assert_eq!(incident.members(UserLevel::Linked), &vec![1]);
}

#[test]
fn first_time_is_told_per_membership_list() {
    let mut incident = incident_by(UserLevel::Plain, 1);
    assert!(!cast(&mut incident, UserLevel::Plain, 1, StatusVote::WorksFine));
    assert!(cast(&mut incident, UserLevel::Plain, 2, StatusVote::WorksFine));
    assert!(cast(&mut incident, UserLevel::Patron, 2, StatusVote::WorksFine));
    assert!(!cast(&mut incident, UserLevel::Patron, 2, StatusVote::TunnelsOffline));
    assert_eq!(incident.members(UserLevel::Plain), &vec![1, 2]);
    assert_eq!(incident.members(UserLevel::Patron), &vec![2]);
    assert_eq!(incident.vote_of(2), Some(60));
    assert_eq!(incident.total_vote_score(), -1 + 60);
}

#[test]
fn blocked_and_linked_share_one_list() {
    let mut incident = incident_by(UserLevel::Trusted, 1);
    assert!(cast(&mut incident, UserLevel::Blocked, 2, StatusVote::EverythingBroken));
    assert!(!cast(&mut incident, UserLevel::Linked, 2, StatusVote::EverythingBroken));
    assert!(cast(&mut incident, UserLevel::Linked, 3, StatusVote::EverythingBroken));
    assert_eq!(incident.members(UserLevel::Linked), &vec![2, 3]);
    assert_eq!(incident.members(UserLevel::Blocked), &vec![2, 3]);
    assert_eq!(incident.vote_of(2), Some(30));
}

#[test]
fn blocked_vote_weighs_nothing() {
    let mut incident = incident_by(UserLevel::Linked, 1);
    for vote in VOTES {
        cast(&mut incident, UserLevel::Blocked, 9, vote);
        assert_eq!(incident.vote_of(9), Some(0));
        assert_eq!(incident.total_vote_score(), 30);
    }
}

#[test]
fn new_incident_holds_what_it_was_given() {
    let incident = ActiveIncident::new(11, "https://chat.test/11".to_string(), 42, UserLevel::Patron, 123_456);
    assert_eq!(incident.message_id(), 11);
    assert_eq!(incident.message_url(), "https://chat.test/11");
    assert_eq!(incident.initial_user(), 42);
    assert_eq!(incident.status(), IncidentStatus::WaitingForInput);
    assert_eq!(incident.last_message_update(), 123_456);
    assert_eq!(incident.total_vote_score(), 90);
    assert_eq!(incident.vote_of(42), Some(90));
    assert_eq!(incident.vote_of(43), None);
    assert_eq!(incident.members(UserLevel::Patron), &vec![42]);
    assert!(incident.members(UserLevel::Plain).is_empty());
    assert!(incident.members(UserLevel::Linked).is_empty());
    assert!(incident.members(UserLevel::Trusted).is_empty());
    assert_eq!(incident.counts(), &[0, 0, 0, 0]);
    assert_eq!(incident.voters(), 1);
}

#[test]
fn votes_leave_the_rest_of_the_incident_alone() {
    let mut incident = incident_by(UserLevel::Trusted, 1);
    cast(&mut incident, UserLevel::Plain, 2, StatusVote::WorksFine);
    assert_eq!(incident.message_id(), 70);
    assert_eq!(incident.message_url(), "https://chat.test/70");
    assert_eq!(incident.initial_user(), 1);
    assert_eq!(incident.status(), IncidentStatus::SendingAlert);
    assert_eq!(incident.last_message_update(), 1_000);
    assert_eq!(incident.counts(), &[0, 0, 0, 0]);
}

#[test]
fn initial_status_follows_the_creator() {
    assert_eq!(IncidentStatus::for_creator(UserLevel::Trusted), IncidentStatus::SendingAlert);
    for level in [UserLevel::Plain, UserLevel::Blocked, UserLevel::Linked, UserLevel::Patron] {
        assert_eq!(IncidentStatus::for_creator(level), IncidentStatus::WaitingForInput);
    }
    assert_eq!(incident_by(UserLevel::Trusted, 1).status(), IncidentStatus::SendingAlert);
    assert_eq!(incident_by(UserLevel::Plain, 1).status(), IncidentStatus::WaitingForInput);
}

#[test]
fn buttons_lead_back_to_their_votes() {
    let buttons = vote_buttons();
    assert_eq!(buttons.len(), 4);
    for (button, vote) in buttons.iter().zip(VOTES) {
        assert_eq!(button.vote, vote);
        assert_eq!(StatusVote::from_custom_id(&button.custom_id), Some(vote));
        assert_eq!(vote.button(), *button);
        assert_ne!(button.emoji_id, 0);
    }
    let ids: Vec<&str> = buttons.iter().map(|b| b.custom_id.as_str()).collect();
    assert_eq!(ids, vec!["not-sure", "website", "tunnels", "no-issues"]);
    let labels: Vec<&str> = buttons.iter().map(|b| b.label.as_str()).collect();
    assert_eq!(
        labels,
        vec!["Not sure / Everything?!?!", "Website not loading", "Tunnels offline", "Works fine for me"]
    );
    let emoji: Vec<u64> = buttons.iter().map(|b| b.emoji_id).collect();
    assert_eq!(
        emoji,
        vec![1299122424700207166, 1299122422154395659, 1299122426390515803, 1299122884517822575]
    );
}

#[test]
fn unknown_button_is_no_vote() {
    assert_eq!(StatusVote::from_custom_id(""), None);
    assert_eq!(StatusVote::from_custom_id("not-sure "), None);
    assert_eq!(StatusVote::from_custom_id("Website"), None);
    assert_eq!(StatusVote::from_custom_id("report-downtime"), None);
}
