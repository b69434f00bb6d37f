//! The kinds of vote a reporter can cast and how each scales a tier's weight.

use crate::text::same_text;
use crate::user_level::UserLevel;
use vstd::prelude::*;

verus! {

/// What a reporter says is happening.
#[derive(Clone, Copy, PartialEq, Eq, Structural, Debug)]
pub enum StatusVote {
    EverythingBroken,
    WebsiteNotLoading,
    TunnelsOffline,
    WorksFine,
}

/// A button under the incident message through which one kind of vote is cast.
#[derive(Clone, Debug, PartialEq, Eq)]
pub struct VoteButton {
    pub vote: StatusVote,
    pub custom_id: String,
    pub label: String,
    pub emoji_id: u64,
}

impl StatusVote {
    /// The identifier that the button for this vote reports when pressed.
    pub open spec fn custom_id(self) -> Seq<char> {
        match self {
            StatusVote::EverythingBroken => "not-sure"@,
            StatusVote::WebsiteNotLoading => "website"@,
            StatusVote::TunnelsOffline => "tunnels"@,
            StatusVote::WorksFine => "no-issues"@,
        }
    }

    /// The caption of the button for this vote.
    pub open spec fn label(self) -> Seq<char> {
        match self {
            StatusVote::EverythingBroken => "Not sure / Everything?!?!"@,
            StatusVote::WebsiteNotLoading => "Website not loading"@,
            StatusVote::TunnelsOffline => "Tunnels offline"@,
            StatusVote::WorksFine => "Works fine for me"@,
        }
    }

    /// The animated emoji shown on the button for this vote.
    pub open spec fn emoji(self) -> u64 {
        match self {
            StatusVote::EverythingBroken => 1299122424700207166,
            StatusVote::WebsiteNotLoading => 1299122422154395659,
            StatusVote::TunnelsOffline => 1299122426390515803,
            StatusVote::WorksFine => 1299122884517822575,
        }
    }

    /// The vote that a pressed button's identifier stands for, if any.
    pub open spec fn of_custom_id(id: Seq<char>) -> Option<StatusVote> {
        if id == StatusVote::EverythingBroken.custom_id() {
            Some(StatusVote::EverythingBroken)
        } else if id == StatusVote::WebsiteNotLoading.custom_id() {
            Some(StatusVote::WebsiteNotLoading)
        } else if id == StatusVote::TunnelsOffline.custom_id() {
            Some(StatusVote::TunnelsOffline)
        } else if id == StatusVote::WorksFine.custom_id() {
            Some(StatusVote::WorksFine)
        } else {
            None
        }
    }

    /// Every button leads back to the vote it was made for.
    pub proof fn lemma_button_leads_back(self)
        ensures
            StatusVote::of_custom_id(self.custom_id()) == Some(self),
    {
        reveal_strlit("not-sure");
        reveal_strlit("website");
        reveal_strlit("tunnels");
        reveal_strlit("no-issues");
        assert("not-sure"@.len() == 8);
        assert("website"@.len() == 7);
        assert("no-issues"@.len() == 9);
        assert("website"@[0] == 'w');
        assert("tunnels"@[0] == 't');
    }

    /// Reads the vote out of the identifier of a pressed button.
    pub fn from_custom_id(id: &str) -> (vote: Option<StatusVote>)
        ensures
            vote == StatusVote::of_custom_id(id@),
    {
        if same_text(id, "not-sure") {
            Some(StatusVote::EverythingBroken)
        } else if same_text(id, "website") {
            Some(StatusVote::WebsiteNotLoading)
        } else if same_text(id, "tunnels") {
            Some(StatusVote::TunnelsOffline)
        } else if same_text(id, "no-issues") {
            Some(StatusVote::WorksFine)
        } else {
            None
        }
    }

    /// The button through which this vote is cast.
    pub fn button(self) -> (button: VoteButton)
        ensures
            button.vote == self,
            button.custom_id@ == self.custom_id(),
            button.label@ == self.label(),
            button.emoji_id == self.emoji(),
            button.emoji_id != 0,
    {
        match self {
            StatusVote::EverythingBroken => VoteButton {
                vote: self,
                custom_id: "not-sure".to_owned(),
                label: "Not sure / Everything?!?!".to_owned(),
                emoji_id: 1299122424700207166,
            },
            StatusVote::WebsiteNotLoading => VoteButton {
                vote: self,
                custom_id: "website".to_owned(),
                label: "Website not loading".to_owned(),
                emoji_id: 1299122422154395659,
            },
            StatusVote::TunnelsOffline => VoteButton {
                vote: self,
                custom_id: "tunnels".to_owned(),
                label: "Tunnels offline".to_owned(),
                emoji_id: 1299122426390515803,
            },
            StatusVote::WorksFine => VoteButton {
                vote: self,
                custom_id: "no-issues".to_owned(),
                label: "Works fine for me".to_owned(),
                emoji_id: 1299122884517822575,
            },
        }
    }

    /// The signed factor by which a vote of this kind scales the voter's weight.
    pub open spec fn multiplier(self) -> int {
        match self {
            StatusVote::EverythingBroken => 3,
            StatusVote::TunnelsOffline => 2,
            StatusVote::WebsiteNotLoading => 1,
            StatusVote::WorksFine => -1,
        }
    }
}

/// The signed contribution of one vote: the tier's weight times the vote's factor.
pub open spec fn vote_score(level: UserLevel, vote: StatusVote) -> int {
    level.weight() * vote.multiplier()
}

/// Every contribution lies between the strongest dissent and the strongest alarm.
pub proof fn lemma_vote_score_bounds(level: UserLevel, vote: StatusVote)
    ensures
        -200 <= vote_score(level, vote) <= 600,
{
}

/// Computes the contribution of one vote.
pub fn score_of(level: UserLevel, vote: StatusVote) -> (score: i64)
    ensures
        score == vote_score(level, vote),
{
    let weight: u64 = level.score();
    let score: i64 = weight as i64;
    match vote {
        StatusVote::WorksFine => -score,
        StatusVote::TunnelsOffline => score * 2,
        StatusVote::EverythingBroken => score * 3,
        StatusVote::WebsiteNotLoading => score,
    }
}

/// The votes in the order in which their buttons stand under the message.
pub open spec fn ballot() -> Seq<StatusVote> {
    seq![
        StatusVote::EverythingBroken,
        StatusVote::WebsiteNotLoading,
        StatusVote::TunnelsOffline,
        StatusVote::WorksFine,
    ]
}

/// The row of buttons that stands under an incident message, one per vote.
pub fn vote_buttons() -> (buttons: Vec<VoteButton>)
    ensures
        buttons@.len() == ballot().len(),
        forall|i: int|
            0 <= i < buttons@.len() ==> (#[trigger] buttons@[i]).vote == ballot()[i],
        forall|i: int|
            0 <= i < buttons@.len() ==> (#[trigger] buttons@[i]).custom_id@
                == ballot()[i].custom_id(),
        forall|i: int|
            0 <= i < buttons@.len() ==> (#[trigger] buttons@[i]).label@ == ballot()[i].label(),
        forall|i: int|
            0 <= i < buttons@.len() ==> (#[trigger] buttons@[i]).emoji_id == ballot()[i].emoji(),
        forall|i: int| 0 <= i < buttons@.len() ==> (#[trigger] buttons@[i]).emoji_id != 0,
{
    let mut buttons: Vec<VoteButton> = Vec::new();
    buttons.push(StatusVote::EverythingBroken.button());
    buttons.push(StatusVote::WebsiteNotLoading.button());
    buttons.push(StatusVote::TunnelsOffline.button());
    buttons.push(StatusVote::WorksFine.button());
    buttons
}

} // verus!
